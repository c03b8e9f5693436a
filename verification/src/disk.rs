//! Diskette and fixed disk services (interrupt 13h).
use vstd::prelude::*;
use crate::regs::{
    call, call_full, carry, carry_set, chs_cx, dword, hi, high_byte, lo, low_byte, make_dword,
    make_word, pack_chs, word, BiosCall, FarPtr, Registers,
};

verus! {

/// DISKETTE I/O, see p. 5-89 ; FIXED DISK I/O, see p. 5-103
pub const INT_DISK: u8 = 0x13;

/// Success
pub const STATUS_S: u8 = 0x0;
/// Invalid Command
pub const STATUS_C: u8 = 0x1;
/// Address Mark Not Found
pub const STATUS_AMNF: u8 = 0x2;
/// Write Protect (Diskette)
pub const STATUS_WP: u8 = 0x3;
/// Sector Not Found
pub const STATUS_SNF: u8 = 0x4;
/// Reset Failed
pub const STATUS_RF: u8 = 0x5;
/// Diskette Change Line Active
pub const STATUS_DCLA: u8 = 0x6;
/// Drive Parameter Activity Failed
pub const STATUS_DPAF: u8 = 0x7;
/// DMA Overrun
pub const STATUS_DO: u8 = 0x8;
/// Data Boundary Error (DMA beyond 64kB)
pub const STATUS_DBA: u8 = 0x9;
/// Bad Sector Flag Detected
pub const STATUS_BSFD: u8 = 0xA;
/// Bad Track Detected
pub const STATUS_BTD: u8 = 0xB;
/// Unsupported Track
pub const STATUS_UT: u8 = 0xC;
/// Bad ECC On Read
pub const STATUS_BEOR: u8 = 0x10;
/// Data Corrected (recoverable)
pub const STATUS_DC: u8 = 0x11;
/// Controller Failure
pub const STATUS_CF: u8 = 0x20;
/// Seek Failed
pub const STATUS_SF: u8 = 0x40;
/// Timeout (Drive Not Ready)
pub const STATUS_T: u8 = 0x80;

pub const DASD_TYPE_360_IN_360: u8 = 0x01;
pub const DASD_TYPE_360_IN_12M: u8 = 0x02;
pub const DASD_TYPE_12M_IN_12M: u8 = 0x03;
pub const DASD_TYPE_720_IN_720: u8 = 0x04;

/// One entry of the table that Format Track reads from ES:BX.
pub struct FormatTableEntry {
    pub cylinder: u8,
    pub head: u8,
    pub sector: u8,
    pub bytes: u8,
}

/// A service of interrupt 13h that takes only a function code in AH and the
/// drive in DX.
pub open spec fn drive_call(function: u8, drive: u8) -> BiosCall {
    call(INT_DISK, word(function, 0), 0, 0, drive as u16)
}

fn drive_request(function: u8, drive: u8) -> (c: BiosCall)
    ensures
        c == drive_call(function, drive),
{
    BiosCall::new(INT_DISK, make_word(function, 0), 0, 0, drive as u16)
}

/// A sector transfer: AH = function, AL = count, CX = cylinder and sector,
/// DH = head, DL = drive, ES:BX = the buffer.
pub open spec fn transfer_call(
    function: u8,
    drive: u8,
    head: u8,
    cylinder: u16,
    sector: u8,
    count: u8,
    buffer: FarPtr,
) -> BiosCall {
    call_full(
        INT_DISK,
        word(function, count),
        buffer.offset,
        chs_cx(cylinder, sector),
        word(head, drive),
        0,
        0,
        0,
        buffer.segment,
    )
}

fn transfer_request(
    function: u8,
    drive: u8,
    head: u8,
    cylinder: u16,
    sector: u8,
    count: u8,
    buffer: FarPtr,
) -> (c: BiosCall)
    ensures
        c == transfer_call(function, drive, head, cylinder, sector, count, buffer),
{
    BiosCall::with_all(
        INT_DISK,
        make_word(function, count),
        buffer.offset,
        pack_chs(cylinder, sector),
        make_word(head, drive),
        0,
        0,
        0,
        buffer.segment,
    )
}

/// Reset Disk System: AH = 00h.
pub fn reset(drive: u8) -> (c: BiosCall)
    ensures
        c == drive_call(0x00, drive),
{
    drive_request(0x00, drive)
}

/// Read Status of Last Disk Operation: AH = 01h.
pub fn get_status(drive: u8) -> (c: BiosCall)
    ensures
        c == drive_call(0x01, drive),
{
    drive_request(0x01, drive)
}

/// What Read Status returns: the status of the last operation, in AH.
pub fn get_status_reply(regs: &Registers) -> (status: u8)
    ensures
        status == hi(regs.ax),
{
    high_byte(regs.ax)
}

/// Read Sectors from Disk: AH = 02h into the buffer at ES:BX.
pub fn read_sectors(
    drive: u8,
    head: u8,
    cylinder: u16,
    sector: u8,
    count: u8,
    buffer: FarPtr,
) -> (c: BiosCall)
    ensures
        c == transfer_call(0x02, drive, head, cylinder, sector, count, buffer),
{
    transfer_request(0x02, drive, head, cylinder, sector, count, buffer)
}

/// Write Sectors to Disk: AH = 03h from the buffer at ES:BX.
pub fn write_sectors(
    drive: u8,
    head: u8,
    cylinder: u16,
    sector: u8,
    count: u8,
    buffer: FarPtr,
) -> (c: BiosCall)
    ensures
        c == transfer_call(0x03, drive, head, cylinder, sector, count, buffer),
{
    transfer_request(0x03, drive, head, cylinder, sector, count, buffer)
}

/// Verify Sectors: AH = 04h; no buffer, so ES:BX stays zero.
pub fn verify_sectors(drive: u8, head: u8, cylinder: u16, sector: u8, count: u8) -> (c: BiosCall)
    ensures
        c == transfer_call(
            0x04,
            drive,
            head,
            cylinder,
            sector,
            count,
            FarPtr { segment: 0, offset: 0 },
        ),
{
    transfer_request(0x04, drive, head, cylinder, sector, count, FarPtr { segment: 0, offset: 0 })
}

/// Format Track: AH = 05h, AL = count, CH = low eight bits of the cylinder
/// (CL zero), DH = head, DL = drive, ES:BX = the format table.
pub fn format_track(drive: u8, head: u8, cylinder: u16, count: u8, table: FarPtr) -> (c: BiosCall)
    ensures
        c == call_full(
            INT_DISK,
            word(0x05, count),
            table.offset,
            word((cylinder % 256) as u8, 0),
            word(head, drive),
            0,
            0,
            0,
            table.segment,
        ),
{
    BiosCall::with_all(
        INT_DISK,
        make_word(0x05, count),
        table.offset,
        make_word(low_byte(cylinder), 0),
        make_word(head, drive),
        0,
        0,
        0,
        table.segment,
    )
}

/// Get Drive Parameters: AH = 08h.
pub fn get_parameters(drive: u8) -> (c: BiosCall)
    ensures
        c == drive_call(0x08, drive),
{
    drive_request(0x08, drive)
}

/// The maximum cylinder as Get Drive Parameters decodes it: CL, with
/// CL bits 6-7 repeated as bits 8-9.
pub open spec fn parameters_cylinder(cx: u16) -> u16 {
    (cx % 256 + (cx / 64 % 4) * 256) as u16
}

/// The decoded maximum cylinder takes its low byte from CL and its bits 8-9
/// from CL bits 6-7; CH plays no part.
pub proof fn lemma_parameters_cylinder_fields(cx: u16)
    ensures
        parameters_cylinder(cx) % 256 == cx % 256,
        parameters_cylinder(cx) / 256 == (cx % 256) / 64,
        forall|other: u16| #![auto] other % 256 == cx % 256 ==> parameters_cylinder(other) == parameters_cylinder(cx),
{
    assert((cx / 64) % 4 == (cx % 256) / 64);
}

/// What Get Drive Parameters returns: on failure (CF set) the status in AH;
/// otherwise the maximum head (DH), maximum cylinder, maximum sector
/// (CL bits 0-5) and the number of drives (DL).
pub fn get_parameters_reply(regs: &Registers) -> (r: Result<(u8, u16, u8, u8), u8>)
    ensures
        r == (if carry(*regs) {
            Err(hi(regs.ax))
        } else {
            Ok((hi(regs.dx), parameters_cylinder(regs.cx), (regs.cx % 64) as u8, lo(regs.dx)))
        }),
{
    let status = high_byte(regs.ax);
    if carry_set(regs) {
        return Err(status);
    }
    let max_cylinder = regs.cx % 256 + (regs.cx / 64 % 4) * 256;
    Ok((high_byte(regs.dx), max_cylinder, (regs.cx % 64) as u8, low_byte(regs.dx)))
}

/// DH of Initialize Drive Pair Characteristics: head settle time in the high
/// nibble, stepping rate in the low nibble.
pub open spec fn drive_pair_timing(stepping_rate: u8, head_settle: u8) -> u8 {
    (head_settle % 16 * 16 + stepping_rate % 16) as u8
}

/// DH keeps the full low nibble of the head settle time in its high nibble
/// and the low nibble of the stepping rate in its low nibble.
pub proof fn lemma_drive_pair_timing_fields(stepping_rate: u8, head_settle: u8)
    ensures
        drive_pair_timing(stepping_rate, head_settle) / 16 == head_settle % 16,
        drive_pair_timing(stepping_rate, head_settle) % 16 == stepping_rate % 16,
{
}

/// Initialize Drive Pair Characteristics: AH = 09h, DH = timings, DL = drive,
/// CH = motor timer.
pub fn initialize_drive_pair(
    drive: u8,
    stepping_rate: u8,
    head_settle: u8,
    motor_timer: u8,
) -> (c: BiosCall)
    ensures
        c == call(
            INT_DISK,
            0x0900,
            0,
            word(motor_timer, 0),
            word(drive_pair_timing(stepping_rate, head_settle), drive),
        ),
{
    let timing = (head_settle % 16) * 16 + stepping_rate % 16;
    BiosCall::new(INT_DISK, 0x0900, 0, make_word(motor_timer, 0), make_word(timing, drive))
}

/// Read Long (with ECC): AH = 0Ah into the buffer at ES:BX.
pub fn read_long(
    drive: u8,
    head: u8,
    cylinder: u16,
    sector: u8,
    count: u8,
    buffer: FarPtr,
) -> (c: BiosCall)
    ensures
        c == transfer_call(0x0A, drive, head, cylinder, sector, count, buffer),
{
    transfer_request(0x0A, drive, head, cylinder, sector, count, buffer)
}

/// Write Long (with ECC): AH = 0Bh from the buffer at ES:BX.
pub fn write_long(
    drive: u8,
    head: u8,
    cylinder: u16,
    sector: u8,
    count: u8,
    buffer: FarPtr,
) -> (c: BiosCall)
    ensures
        c == transfer_call(0x0B, drive, head, cylinder, sector, count, buffer),
{
    transfer_request(0x0B, drive, head, cylinder, sector, count, buffer)
}

/// Seek: AH = 0Ch, CX = cylinder (sector bits zero), DH = head, DL = drive.
pub fn seek(cylinder: u16, head: u8, drive: u8) -> (c: BiosCall)
    ensures
        c == call(INT_DISK, 0x0C00, 0, chs_cx(cylinder, 0), word(head, drive)),
{
    BiosCall::new(INT_DISK, 0x0C00, 0, pack_chs(cylinder, 0), make_word(head, drive))
}

/// Alternate Disk Reset: AH = 0Dh.
pub fn alternate_reset(drive: u8) -> (c: BiosCall)
    ensures
        c == drive_call(0x0D, drive),
{
    drive_request(0x0D, drive)
}

/// Test Drive Ready: AH = 10h.
pub fn test_ready(drive: u8) -> (c: BiosCall)
    ensures
        c == drive_call(0x10, drive),
{
    drive_request(0x10, drive)
}

/// Recalibrate: AH = 11h.
pub fn recalibrate(drive: u8) -> (c: BiosCall)
    ensures
        c == drive_call(0x11, drive),
{
    drive_request(0x11, drive)
}

/// Controller Internal Diagnostic: AH = 14h.
pub fn controller_internal_diagnostic(drive: u8) -> (c: BiosCall)
    ensures
        c == drive_call(0x14, drive),
{
    drive_request(0x14, drive)
}

/// Read DASD Type Of Disk: AH = 15h.
pub fn read_dasd_type(drive: u8) -> (c: BiosCall)
    ensures
        c == drive_call(0x15, drive),
{
    drive_request(0x15, drive)
}

/// What Read DASD Type returns: nothing on failure (CF set); otherwise the
/// type (AH) and the sector count held in CX:DX.
pub fn read_dasd_type_reply(regs: &Registers) -> (r: Result<(u8, u32), ()>)
    ensures
        r == (if carry(*regs) {
            Err(())
        } else {
            Ok((hi(regs.ax), dword(regs.cx, regs.dx)))
        }),
{
    let kind = high_byte(regs.ax);
    let sector_count = make_dword(regs.cx, regs.dx);
    if carry_set(regs) {
        return Err(());
    }
    Ok((kind, sector_count))
}

/// Get Disk Change Status Diskette: AH = 16h.
pub fn get_disk_change_status(drive: u8) -> (c: BiosCall)
    ensures
        c == drive_call(0x16, drive),
{
    drive_request(0x16, drive)
}

/// Set DASD Type for Disk: AH = 17h, AL = format, DL = drive.
pub fn set_dasd_type(drive: u8, format: u8) -> (c: BiosCall)
    ensures
        c == call(INT_DISK, word(0x17, format), 0, 0, drive as u16),
{
    BiosCall::new(INT_DISK, make_word(0x17, format), 0, 0, drive as u16)
}

} // verus!
