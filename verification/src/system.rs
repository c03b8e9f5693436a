//! System services (interrupt 15h).
use vstd::prelude::*;
use crate::regs::{
    call, call_full, carry, carry_set, dword_hi, dword_lo, hi, high_byte, high_word, low_word,
    make_word, word, BiosCall, FarPtr, Registers,
};

verus! {

pub const INT_SYSTEM: u8 = 0x15;

pub const DEVICE_UNUSED: u16 = 0;
pub const DEVICE_KEYBOARD: u16 = 0x1;
pub const DEVICE_DISPLAY: u16 = 0x2;
pub const DEVICE_SERIAL: u16 = 0x3;
pub const DEVICE_PARALLEL: u16 = 0x4;
pub const DEVICE_DISKETTE: u16 = 0x5;
pub const DEVICE_FIXEDDISK: u16 = 0x6;
pub const DEVICE_NETWORK: u16 = 0x7;

pub const JOYSTICK_SWITCHES: u8 = 0;
pub const JOYSTICK_INPUTS: u8 = 1;

pub const SYSREQ_MAKE: u8 = 0;
pub const SYSREQ_BREAK: u8 = 1;

/// Device Open: AH = 80h, BX = device id, CX = process id.
pub fn device_open(id: u16, process: u16) -> (c: BiosCall)
    ensures
        c == call(INT_SYSTEM, 0x8000, id, process, 0),
{
    BiosCall::new(INT_SYSTEM, 0x8000, id, process, 0)
}

/// Device Close: AH = 81h, BX = device id, CX = process id.
pub fn device_close(id: u16, process: u16) -> (c: BiosCall)
    ensures
        c == call(INT_SYSTEM, 0x8100, id, process, 0),
{
    BiosCall::new(INT_SYSTEM, 0x8100, id, process, 0)
}

/// Program Termination: AH = 82h, BX = device id.
pub fn program_termination(id: u16) -> (c: BiosCall)
    ensures
        c == call(INT_SYSTEM, 0x8200, id, 0, 0),
{
    BiosCall::new(INT_SYSTEM, 0x8200, id, 0, 0)
}

/// Event Wait: AH = 83h, AL = 1 to cancel a wait in progress and 0 to start
/// one, the interval in microseconds in CX:DX, ES:BX = the flag byte the
/// BIOS sets when it elapses.
pub fn event_wait(microseconds: u32, flag: FarPtr, cancel: bool) -> (c: BiosCall)
    ensures
        c == call_full(
            INT_SYSTEM,
            word(0x83, if cancel { 1u8 } else { 0u8 }),
            flag.offset,
            dword_hi(microseconds),
            dword_lo(microseconds),
            0,
            0,
            0,
            flag.segment,
        ),
{
    let al: u8 = if cancel { 1 } else { 0 };
    BiosCall::with_all(
        INT_SYSTEM,
        make_word(0x83, al),
        flag.offset,
        high_word(microseconds),
        low_word(microseconds),
        0,
        0,
        0,
        flag.segment,
    )
}

/// Joystick: AH = 84h, DX = subfunction. It hands back AX, BX, CX and DX
/// as they are.
pub fn joystick(subfunction: u8) -> (c: BiosCall)
    ensures
        c == call(INT_SYSTEM, 0x8400, 0, 0, subfunction as u16),
{
    BiosCall::new(INT_SYSTEM, 0x8400, 0, 0, subfunction as u16)
}

/// SysReq Key: AH = 85h, AL = make or break.
pub fn sysreq(what: u8) -> (c: BiosCall)
    ensures
        c == call(INT_SYSTEM, word(0x85, what), 0, 0, 0),
{
    BiosCall::new(INT_SYSTEM, make_word(0x85, what), 0, 0, 0)
}

/// Wait: AH = 86h, the interval in microseconds in CX:DX.
pub fn wait(microseconds: u32) -> (c: BiosCall)
    ensures
        c == call(INT_SYSTEM, 0x8600, 0, dword_hi(microseconds), dword_lo(microseconds)),
{
    BiosCall::new(INT_SYSTEM, 0x8600, 0, high_word(microseconds), low_word(microseconds))
}

/// Move Block: AH = 87h, CX = number of words, ES:SI = the descriptor table.
pub fn move_block(wcount: u16, gdt: FarPtr) -> (c: BiosCall)
    ensures
        c == call_full(INT_SYSTEM, 0x8700, 0, wcount, 0, 0, gdt.offset, 0, gdt.segment),
{
    BiosCall::with_all(INT_SYSTEM, 0x8700, 0, wcount, 0, 0, gdt.offset, 0, gdt.segment)
}

/// Extended Memory Size: AH = 88h.
pub fn extended_memory_size() -> (c: BiosCall)
    ensures
        c == call(INT_SYSTEM, 0x8800, 0, 0, 0),
{
    BiosCall::new(INT_SYSTEM, 0x8800, 0, 0, 0)
}

/// What Extended Memory Size returns: nothing when CF is set, otherwise the
/// size in kB, in AX.
pub fn extended_memory_size_reply(regs: &Registers) -> (r: Result<u16, ()>)
    ensures
        r == (if carry(*regs) {
            Err(())
        } else {
            Ok(regs.ax)
        }),
{
    let extended = regs.ax;
    if carry_set(regs) {
        return Err(());
    }
    Ok(extended)
}

/// Switch To Protected Mode: AH = 89h, BH = first vector of the master
/// interrupt controller, BL = that of the slave, ES:SI = the descriptor
/// table. It returns only when it fails.
pub fn switch_protected(gdt: FarPtr, irq0: u8, irq8: u8) -> (c: BiosCall)
    ensures
        c == call_full(INT_SYSTEM, 0x8900, word(irq0, irq8), 0, 0, 0, gdt.offset, 0, gdt.segment),
{
    BiosCall::with_all(
        INT_SYSTEM,
        0x8900,
        make_word(irq0, irq8),
        0,
        0,
        0,
        gdt.offset,
        0,
        gdt.segment,
    )
}

/// Device Busy Loop: AH = 90h, AL = device type, ES:BX = its context.
pub fn device_busy(kind: u8, context: FarPtr) -> (c: BiosCall)
    ensures
        c == call_full(
            INT_SYSTEM,
            word(0x90, kind),
            context.offset,
            0,
            0,
            0,
            0,
            0,
            context.segment,
        ),
{
    BiosCall::with_all(
        INT_SYSTEM,
        make_word(0x90, kind),
        context.offset,
        0,
        0,
        0,
        0,
        0,
        context.segment,
    )
}

/// Interrupt Complete: AH = 91h, AL = device type, ES:BX = its context.
pub fn interrupt_complete(kind: u8, context: FarPtr) -> (c: BiosCall)
    ensures
        c == call_full(
            INT_SYSTEM,
            word(0x91, kind),
            context.offset,
            0,
            0,
            0,
            0,
            0,
            context.segment,
        ),
{
    BiosCall::with_all(
        INT_SYSTEM,
        make_word(0x91, kind),
        context.offset,
        0,
        0,
        0,
        0,
        0,
        context.segment,
    )
}

/// System Configuration Table
pub struct ConfigurationTable {
    pub length: u16,
    pub model: u8,
    pub sub_model: u8,
    /// BIOS Revision
    pub revision: u8,
    pub features: u8,
    pub reserved: [u8; 4],
}

impl ConfigurationTable {
    pub const FEATURE_DMA_CH3: u8 = 0x80;
    pub const FEATURE_SLAVE_PIC: u8 = 0x40;
    pub const FEATURE_RTC: u8 = 0x20;
    pub const FEATURE_KBD_INTERCEPT: u8 = 0x10;
    pub const FEATURE_WAIT_EXTERNAL: u8 = 0x08;
    pub const FEATURE_EBDA: u8 = 0x04;
    pub const FEATURE_MICRO_CHANNEL: u8 = 0x02;
}

/// Get System Configuration: AH = C0h.
pub fn get_configuration() -> (c: BiosCall)
    ensures
        c == call(INT_SYSTEM, 0xC000, 0, 0, 0),
{
    BiosCall::new(INT_SYSTEM, 0xC000, 0, 0, 0)
}

/// What Get System Configuration returns: the status in AH when CF is set,
/// otherwise the address of the configuration table, ES:BX.
pub fn get_configuration_reply(regs: &Registers) -> (r: Result<FarPtr, u8>)
    ensures
        r == (if carry(*regs) {
            Err(hi(regs.ax))
        } else {
            Ok(FarPtr { segment: regs.es, offset: regs.bx })
        }),
{
    let status = high_byte(regs.ax);
    if carry_set(regs) {
        return Err(status);
    }
    Ok(FarPtr { segment: regs.es, offset: regs.bx })
}

/// One address range of the memory map.
pub struct MemoryMapEntry {
    pub base_address: u64,
    pub length: u64,
    pub memory_type: u32,
    /// Only valid if BIOS returns 24 bytes.
    pub acpi_attributes: u32,
}

/// Get Memory Map: AX = E820h, BX = continuation value, CX = buffer size,
/// ES:DI = the buffer, SI = 53D4h, DX = 4150h.
pub fn get_memory_map(continuation: u16, buffer: FarPtr, size: u16) -> (c: BiosCall)
    ensures
        c == call_full(
            INT_SYSTEM,
            0xE820,
            continuation,
            size,
            0x4150,
            0,
            0x53D4,
            buffer.offset,
            buffer.segment,
        ),
{
    BiosCall::with_all(
        INT_SYSTEM,
        0xE820,
        continuation,
        size,
        0x4150,
        0,
        0x53D4,
        buffer.offset,
        buffer.segment,
    )
}

/// What Get Memory Map returns: the status in AH when CF is set, otherwise
/// the next continuation value (BX) and the bytes written (CX).
pub fn get_memory_map_reply(regs: &Registers) -> (r: Result<(u16, u16), u8>)
    ensures
        r == (if carry(*regs) {
            Err(hi(regs.ax))
        } else {
            Ok((regs.bx, regs.cx))
        }),
{
    let status = high_byte(regs.ax);
    if carry_set(regs) {
        return Err(status);
    }
    Ok((regs.bx, regs.cx))
}

} // verus!
