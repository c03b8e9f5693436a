//! Keyboard services (interrupt 16h).
use vstd::prelude::*;
use crate::regs::{call, hi, high_byte, lo, low_byte, zero, zero_set, BiosCall, Registers};

verus! {

/// KEYBOARD I/O, see p. 5-115
pub const INT_KEYBOARD: u8 = 0x16;

/// Right Shift Key Pressed
pub const FLAGS_SHIFT_RIGHT: u8 = 0x01;
/// Left Shift Key Pressed
pub const FLAGS_SHIFT_LEFT: u8 = 0x02;
/// Ctrl Key Pressed
pub const FLAGS_CTRL: u8 = 0x04;
/// Alt Key Pressed
pub const SHIFT_ALT: u8 = 0x08;
/// Scroll Lock Toggle
pub const FLAGS_SCROLL_LOCK: u8 = 0x10;
/// Num Lock Toggle
pub const FLAGS_NUM_LOCK: u8 = 0x20;
/// Caps Lock Toggle
pub const FLAGS_CAPS_LOCK: u8 = 0x40;
/// Insert Toggle
pub const FLAGS_INSERT: u8 = 0x80;

/// Read Character (Wait): AH = 00h.
pub fn read_char() -> (c: BiosCall)
    ensures
        c == call(INT_KEYBOARD, 0x0000, 0, 0, 0),
{
    BiosCall::new(INT_KEYBOARD, 0x0000, 0, 0, 0)
}

/// What Read Character returns: scan code (AH) and ASCII code (AL).
pub fn read_char_reply(regs: &Registers) -> (r: (u8, u8))
    ensures
        r == (hi(regs.ax), lo(regs.ax)),
{
    (high_byte(regs.ax), low_byte(regs.ax))
}

/// Check If Key Available (No Block) (see: p. 5-115): AH = 01h.
pub fn check_buffer() -> (c: BiosCall)
    ensures
        c == call(INT_KEYBOARD, 0x0100, 0, 0, 0),
{
    BiosCall::new(INT_KEYBOARD, 0x0100, 0, 0, 0)
}

/// What Check If Key Available returns: nothing when ZF is set (no key),
/// otherwise the waiting key's scan code (AH) and ASCII code (AL).
pub fn check_buffer_reply(regs: &Registers) -> (r: Option<(u8, u8)>)
    ensures
        r == (if zero(*regs) {
            None
        } else {
            Some((hi(regs.ax), lo(regs.ax)))
        }),
{
    if zero_set(regs) {
        return None;
    }
    Some((high_byte(regs.ax), low_byte(regs.ax)))
}

/// Get Shift Flags (see: p. 5-115): AH = 02h.
pub fn get_flags() -> (c: BiosCall)
    ensures
        c == call(INT_KEYBOARD, 0x0200, 0, 0, 0),
{
    BiosCall::new(INT_KEYBOARD, 0x0200, 0, 0, 0)
}

/// What Get Shift Flags returns: the flags byte in AL.
pub fn get_flags_reply(regs: &Registers) -> (flags: u8)
    ensures
        flags == lo(regs.ax),
{
    low_byte(regs.ax)
}

} // verus!
