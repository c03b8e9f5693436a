//! Real-mode PC BIOS services: the register images that each interrupt takes
//! and the decoding of what it hands back, plus the on-disk master boot record.
pub mod bytes;
pub mod disk;
pub mod keyboard;
pub mod mbr;
pub mod printer;
pub mod regs;
pub mod rs232;
pub mod system;
pub mod time;
pub mod video;

pub use crate::mbr::{MasterBootRecord, PartitionTableEntry};
pub use crate::regs::{BiosCall, FarPtr, Registers};

use vstd::prelude::*;
use crate::regs::call;

verus! {

/// The BIOS data area found at `BDA` (segment 40h).
pub struct BiosDataArea {
    // RS-232 & Printer Port Addresses
    pub com1_addr: u16,
    pub com2_addr: u16,
    pub com3_addr: u16,
    pub com4_addr: u16,
    pub lpt1_addr: u16,
    pub lpt2_addr: u16,
    pub lpt3_addr: u16,
    pub lpt4_addr: u16,
    // Equipment List
    pub equipment: u16,
    pub reserved1: u16,
    // Memory Size (kB)
    pub memory_size: u16,
    pub reserved2: u16,
    // Keyboard Buffers
    pub keyboard_buffer: [u16; 16],
    pub kb_head: u16,
    pub kb_tail: u16,
    pub kb_buffer_start: u16,
    pub kb_buffer_end: u16,
    // Video State
    pub video_mode: u8,
    pub screen_cols: u16,
    pub video_page: u8,
    pub crtc_ports: u16,
    // Other Video Data
    pub cursor_positions: [u16; 8],
    pub cursor_shape: u16,
    pub current_page: u8,
    pub crtc_adjust: u8,
    pub crt_start: u16,
    pub crt_len: u16,
    pub reserved3: [u8; 10],
    // Soft Reset Flag
    pub reset_flag: u16,  // 1234h = warm boot
    // Hard Disk Status
    pub fixed_disk_status: u8,
    pub fixed_disk_drive_count: u8,
    pub fixed_disk_control: u8,
    pub fixed_disk_pdi: u8,
    // Timer Data
    pub timer_low: u16,
    pub timer_high: u16,
    pub timer_rolled: u8,
    pub timer_rollover: u8,
    // Diskette Motor Data
    pub diskette_motor_status: u8,
    pub diskette_motor_count: u8,
    // Fixed Disk Data
    pub fixed_disk_errors: u8,
    pub fixed_disk_interrupt: u8,
    pub fixed_disk_control_byte: u8,
    pub reserved4: [u8; 5],
    pub fixed_disk_status_2: u8,
    pub reserved5: [u8; 119],
}

pub const INT_PRSCRN: u8 = 0x05;

/// Print Screen (see: p. 5-162)
pub fn print_screen() -> (c: BiosCall)
    ensures
        c == call(INT_PRSCRN, 0, 0, 0, 0),
{
    BiosCall::new(INT_PRSCRN, 0, 0, 0, 0)
}

pub const MASK_PARALLEL: u16 = 0xC000;
pub const MASK_SERIAL: u16 = 0x0E00;
pub const MASK_FLOPPY_COUNT: u16 = 0x00C0;
pub const MASK_VIDEO: u16 = 0x0030;
pub const MASK_MATH: u16 = 0x0002;
pub const MASK_FLOPPY_INSTALLED: u16 = 0x0001;

/// EQUIPMENT_1, see p. 5-143
pub const INT_EQUIPMENT: u8 = 0x11;

/// Equipment Determination: the equipment list comes back in AX.
pub fn get_equipment() -> (c: BiosCall)
    ensures
        c == call(INT_EQUIPMENT, 0, 0, 0, 0),
{
    BiosCall::new(INT_EQUIPMENT, 0, 0, 0, 0)
}

/// MEMORY_SIZE_DETERMINE_1, see p. 5-143
pub const INT_MEMSIZE: u8 = 0x12;

/// Memory Size Determination (kB, below 1MB): the size comes back in AX.
pub fn get_memory_size() -> (c: BiosCall)
    ensures
        c == call(INT_MEMSIZE, 0, 0, 0, 0),
{
    BiosCall::new(INT_MEMSIZE, 0, 0, 0, 0)
}

/// BOOT STRAP, see p. 5-169
pub const INT_REBOOT: u8 = 0x19;

/// Bootstrap Loader: reloads the boot sector and jumps to it.
pub fn reboot() -> (c: BiosCall)
    ensures
        c == call(INT_REBOOT, 0, 0, 0, 0),
{
    BiosCall::new(INT_REBOOT, 0, 0, 0, 0)
}

} // verus!
