//! Serial port services (interrupt 14h).
use vstd::prelude::*;
use crate::regs::{call, hi, high_byte, lo, low_byte, make_word, word, BiosCall, Registers};

verus! {

/// RS232 I/O, see p. 5-125
pub const INT_RS232: u8 = 0x14;

/// Baud Rate Mask
pub const MASK_BAUD: u8 = 0xe0;
/// Parity Enable Mask
pub const MASK_PARITY: u8 = 0x10;
/// Even Parity Mask
pub const MASK_EVEN: u8 = 0x8;
/// Stop Bits Mask
pub const MASK_STOP: u8 = 0x4;
/// Word Length Mask
pub const MASK_WORD: u8 = 0x3;

pub const PORT_COM1: u8 = 0;
pub const PORT_COM2: u8 = 1;
pub const PORT_COM3: u8 = 2;
pub const PORT_COM4: u8 = 3;

/// Timeout
pub const LINE_TIMEOUT: u8 = 0x80;
/// Transmitter Shift Register Empty
pub const LINE_SHIFT: u8 = 0x40;
/// Transmitter Holding Register Empty
pub const LINE_HOLDING: u8 = 0x20;
/// Break Detected
pub const LINE_BREAK: u8 = 0x10;
/// Framing Error
pub const LINE_FRAMING: u8 = 0x8;
/// Parity Error
pub const LINE_PARITY: u8 = 0x4;
/// Overrun Error
pub const LINE_OVERRUN: u8 = 0x2;
/// Data Ready
pub const LINE_READY: u8 = 0x1;

/// Received Line Signal Detect
pub const MODEM_RLSD: u8 = 0x80;
/// Ring Indicator
pub const MODEM_RI: u8 = 0x40;
/// Data Set Ready
pub const MODEM_DSR: u8 = 0x20;
/// Clear To Send
pub const MODEM_CTS: u8 = 0x10;
/// Delta Received Line Signal Detect
pub const MODEM_DELTA_RLSD: u8 = 0x8;
/// Trailing Edge Ring Indicator
pub const MODEM_TRAILING_RI: u8 = 0x4;
/// Delta Data Set Ready
pub const MODEM_DELTA_DSR: u8 = 0x2;
/// Delta Clear To Send
pub const MODEM_DELTA_CTS: u8 = 0x1;

pub const BAUD_110: u8 = 0x00;
pub const BAUD_150: u8 = 0x20;
pub const BAUD_300: u8 = 0x40;
pub const BAUD_600: u8 = 0x60;
pub const BAUD_1200: u8 = 0x80;
pub const BAUD_2400: u8 = 0xA0;
pub const BAUD_4800: u8 = 0xC0;
pub const BAUD_9600: u8 = 0xE0;

pub const PARITY_NONE: u8 = 0x00;
pub const PARITY_ODD: u8 = 0x08;
pub const PARITY_EVEN: u8 = 0x18;

pub const STOP_BITS_1: u8 = 0x00;
pub const STOP_BITS_2: u8 = 0x04;

pub const WORD_LEN_5: u8 = 0x00;
pub const WORD_LEN_6: u8 = 0x01;
pub const WORD_LEN_7: u8 = 0x02;
pub const WORD_LEN_8: u8 = 0x03;

/// Initialize Port: AH = 00h, AL = parameters, DX = port.
pub fn init(port: u8, parameters: u8) -> (c: BiosCall)
    ensures
        c == call(INT_RS232, word(0x00, parameters), 0, 0, port as u16),
{
    BiosCall::new(INT_RS232, make_word(0x00, parameters), 0, 0, port as u16)
}

/// Send Character: AH = 01h, AL = character, DX = port.
pub fn send_char(port: u8, character: u8) -> (c: BiosCall)
    ensures
        c == call(INT_RS232, word(0x01, character), 0, 0, port as u16),
{
    BiosCall::new(INT_RS232, make_word(0x01, character), 0, 0, port as u16)
}

/// Receive Character: AH = 02h, DX = port.
pub fn recv_char(port: u8) -> (c: BiosCall)
    ensures
        c == call(INT_RS232, 0x0200, 0, 0, port as u16),
{
    BiosCall::new(INT_RS232, 0x0200, 0, 0, port as u16)
}

/// Get Port Status: AH = 03h, DX = port.
pub fn get_status(port: u8) -> (c: BiosCall)
    ensures
        c == call(INT_RS232, 0x0300, 0, 0, port as u16),
{
    BiosCall::new(INT_RS232, 0x0300, 0, 0, port as u16)
}

/// What Initialize Port, Receive Character and Get Port Status return: the
/// line status in AH and, in AL, the modem status or the character received.
pub fn status_pair_reply(regs: &Registers) -> (r: (u8, u8))
    ensures
        r == (hi(regs.ax), lo(regs.ax)),
{
    (high_byte(regs.ax), low_byte(regs.ax))
}

/// What Send Character returns: the line status in AH.
pub fn send_char_reply(regs: &Registers) -> (line: u8)
    ensures
        line == hi(regs.ax),
{
    high_byte(regs.ax)
}

} // verus!
