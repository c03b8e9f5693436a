//! Time-of-day services (interrupt 1Ah).
use vstd::prelude::*;
use crate::regs::{
    call, carry, carry_set, dword, dword_hi, dword_lo, hi, high_byte, high_word, lo, low_byte,
    low_word, make_dword, make_word, word, BiosCall, Registers,
};

verus! {

/// TIME OF DAY, see p. 5-159
pub const INT_TIME: u8 = 0x1A;

/// Read System Timer Counter: AH = 00h.
pub fn get_stc() -> (c: BiosCall)
    ensures
        c == call(INT_TIME, 0x0000, 0, 0, 0),
{
    BiosCall::new(INT_TIME, 0x0000, 0, 0, 0)
}

/// What Read System Timer Counter returns: the tick count held in CX:DX and
/// whether midnight has passed since the last read (AX non-zero).
pub fn get_stc_reply(regs: &Registers) -> (r: (u32, bool))
    ensures
        r == (dword(regs.cx, regs.dx), regs.ax != 0),
{
    (make_dword(regs.cx, regs.dx), regs.ax != 0)
}

/// Set System Timer Counter: AH = 01h, the tick count in CX:DX.
pub fn set_stc(ticks: u32) -> (c: BiosCall)
    ensures
        c == call(INT_TIME, 0x0100, 0, dword_hi(ticks), dword_lo(ticks)),
{
    BiosCall::new(INT_TIME, 0x0100, 0, high_word(ticks), low_word(ticks))
}

/// Read Real-Time Clock (RTC): AH = 02h.
pub fn get_rtc_time() -> (c: BiosCall)
    ensures
        c == call(INT_TIME, 0x0200, 0, 0, 0),
{
    BiosCall::new(INT_TIME, 0x0200, 0, 0, 0)
}

/// What Read Real-Time Clock returns: hours (CH), minutes (CL),
/// seconds (DH) and the daylight saving option (DL).
pub fn get_rtc_time_reply(regs: &Registers) -> (r: (u8, u8, u8, u8))
    ensures
        r == (hi(regs.cx), lo(regs.cx), hi(regs.dx), lo(regs.dx)),
{
    (high_byte(regs.cx), low_byte(regs.cx), high_byte(regs.dx), low_byte(regs.dx))
}

/// Set Real-Time Clock (RTC): AH = 03h, CH = hours, CL = minutes,
/// DH = seconds, DL = daylight saving option.
pub fn set_rtc_time(hours: u8, minutes: u8, seconds: u8, daylight: u8) -> (c: BiosCall)
    ensures
        c == call(INT_TIME, 0x0300, 0, word(hours, minutes), word(seconds, daylight)),
{
    BiosCall::new(INT_TIME, 0x0300, 0, make_word(hours, minutes), make_word(seconds, daylight))
}

/// Read Date From RTC: AH = 04h.
pub fn get_rtc_date() -> (c: BiosCall)
    ensures
        c == call(INT_TIME, 0x0400, 0, 0, 0),
{
    BiosCall::new(INT_TIME, 0x0400, 0, 0, 0)
}

/// What Read Date returns: century (CH), year (CL), month (DH) and day (DL).
pub fn get_rtc_date_reply(regs: &Registers) -> (r: (u8, u8, u8, u8))
    ensures
        r == (hi(regs.cx), lo(regs.cx), hi(regs.dx), lo(regs.dx)),
{
    (high_byte(regs.cx), low_byte(regs.cx), high_byte(regs.dx), low_byte(regs.dx))
}

/// Set date in RTC: AH = 05h, CH = century, CL = year, DH = month, DL = day.
pub fn set_rtc_date(century: u8, year: u8, month: u8, day: u8) -> (c: BiosCall)
    ensures
        c == call(INT_TIME, 0x0500, 0, word(century, year), word(month, day)),
{
    BiosCall::new(INT_TIME, 0x0500, 0, make_word(century, year), make_word(month, day))
}

/// Set Alarm: AH = 06h, CH = hours, CL = minutes, DH = seconds.
pub fn set_rtc_alarm(hours: u8, minutes: u8, seconds: u8) -> (c: BiosCall)
    ensures
        c == call(INT_TIME, 0x0600, 0, word(hours, minutes), word(seconds, 0)),
{
    BiosCall::new(INT_TIME, 0x0600, 0, make_word(hours, minutes), make_word(seconds, 0))
}

/// What Set Alarm returns: failure (an alarm is already set, or the clock
/// does not run) when CF is set.
pub fn set_rtc_alarm_reply(regs: &Registers) -> (r: Result<(), ()>)
    ensures
        r == (if carry(*regs) {
            Err(())
        } else {
            Ok(())
        }),
{
    if carry_set(regs) {
        return Err(());
    }
    Ok(())
}

/// Reset Alarm: AH = 07h.
pub fn reset_rtc_alarm() -> (c: BiosCall)
    ensures
        c == call(INT_TIME, 0x0700, 0, 0, 0),
{
    BiosCall::new(INT_TIME, 0x0700, 0, 0, 0)
}

/// The tick count that Set System Timer Counter loads into CX:DX is the one
/// that Read System Timer Counter decodes from those registers.
pub proof fn lemma_timer_count_layout(ticks: u32)
    ensures
        ({
            let c = call(INT_TIME, 0x0100, 0, dword_hi(ticks), dword_lo(ticks));
            dword(c.regs.cx, c.regs.dx) == ticks
        }),
{
}

/// The time that Set Real-Time Clock loads is laid out as Read Real-Time
/// Clock decodes it.
pub proof fn lemma_rtc_time_layout(hours: u8, minutes: u8, seconds: u8, daylight: u8)
    ensures
        ({
            let c = call(INT_TIME, 0x0300, 0, word(hours, minutes), word(seconds, daylight));
            (hi(c.regs.cx), lo(c.regs.cx), hi(c.regs.dx), lo(c.regs.dx)) == (
                hours,
                minutes,
                seconds,
                daylight,
            )
        }),
{
}

/// The date that Set Date loads is laid out as Read Date decodes it.
pub proof fn lemma_rtc_date_layout(century: u8, year: u8, month: u8, day: u8)
    ensures
        ({
            let c = call(INT_TIME, 0x0500, 0, word(century, year), word(month, day));
            (hi(c.regs.cx), lo(c.regs.cx), hi(c.regs.dx), lo(c.regs.dx)) == (
                century,
                year,
                month,
                day,
            )
        }),
{
}

} // verus!
