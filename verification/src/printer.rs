//! Printer services (interrupt 17h).
use vstd::prelude::*;
use crate::regs::{call, hi, high_byte, make_word, word, BiosCall, Registers};

verus! {

/// PRINTER I/O, see p. 5-123
pub const INT_PRINTER: u8 = 0x17;

/// Timeout
pub const STATUS_TIMEOUT: u8 = 0x80;
/// Printer Selected
pub const STATUS_SELECTED: u8 = 0x10;
/// Out Of Paper
pub const STATUS_OOP: u8 = 0x08;
/// Acknowledge
pub const STATUS_ACK: u8 = 0x04;
/// Printer Busy
pub const STATUS_BUSY: u8 = 0x01;

pub const PRINTER_LPT1: u8 = 0;
pub const PRINTER_LPT2: u8 = 1;
pub const PRINTER_LPT3: u8 = 2;

/// Print Character: AH = 00h, AL = character, DX = printer.
pub fn print_char(printer: u8, character: u8) -> (c: BiosCall)
    ensures
        c == call(INT_PRINTER, word(0x00, character), 0, 0, printer as u16),
{
    BiosCall::new(INT_PRINTER, make_word(0x00, character), 0, 0, printer as u16)
}

/// Initialize Printer (see: p. 5-123): AH = 01h, DX = printer.
pub fn init(printer: u8) -> (c: BiosCall)
    ensures
        c == call(INT_PRINTER, 0x0100, 0, 0, printer as u16),
{
    BiosCall::new(INT_PRINTER, 0x0100, 0, 0, printer as u16)
}

/// Get Printer Status (see: p. 5-123): AH = 02h, DX = printer.
pub fn get_status(printer: u8) -> (c: BiosCall)
    ensures
        c == call(INT_PRINTER, 0x0200, 0, 0, printer as u16),
{
    BiosCall::new(INT_PRINTER, 0x0200, 0, 0, printer as u16)
}

/// What each printer service returns: the printer status in AH.
pub fn status_reply(regs: &Registers) -> (status: u8)
    ensures
        status == hi(regs.ax),
{
    high_byte(regs.ax)
}

} // verus!
