use bios::regs::{
    carry_set, carry_status, carry_status_count, high_byte, low_byte, make_dword, make_word,
    pack_chs, zero_set,
};
use bios::{disk, keyboard, printer, rs232, system, time, video};
use bios::{BiosCall, FarPtr, Registers};

fn regs(ax: u16, bx: u16, cx: u16, dx: u16, es: u16, flags: u16) -> Registers {
    Registers { ax, bx, cx, dx, bp: 0, si: 0, di: 0, es, flags }
}

#[test]
fn default_registers_are_zero() {
    assert_eq!(Registers::default(), regs(0, 0, 0, 0, 0, 0));
}

#[test]
fn byte_helpers_split_and_join() {
    assert_eq!(high_byte(0x1234), 0x12);
    assert_eq!(low_byte(0x1234), 0x34);
    assert_eq!(make_word(0x12, 0x34), 0x1234);
    assert_eq!(make_word(high_byte(0xBEEF), low_byte(0xBEEF)), 0xBEEF);
    assert_eq!(make_dword(0x0012, 0x3456), 0x0012_3456);
}

#[test]
fn carry_flag_is_bit_zero() {
    assert!(carry_set(&regs(0, 0, 0, 0, 0, 0x0001)));
    assert!(carry_set(&regs(0, 0, 0, 0, 0, 0x0203)));
    assert!(!carry_set(&regs(0, 0, 0, 0, 0, 0x0002)));
    assert!(!carry_set(&regs(0, 0, 0, 0, 0, 0x0040)));
}

#[test]
fn zero_flag_is_bit_six() {
    assert!(zero_set(&regs(0, 0, 0, 0, 0, 0x0040)));
    assert!(zero_set(&regs(0, 0, 0, 0, 0, 0x0246)));
    assert!(!zero_set(&regs(0, 0, 0, 0, 0, 0x0001)));
    assert!(!zero_set(&regs(0, 0, 0, 0, 0, 0x0080)));
}

#[test]
fn status_decoding_follows_carry() {
    assert_eq!(carry_status(&regs(0x8000, 0, 0, 0, 0, 0x0001)), Err(0x80));
    assert_eq!(carry_status(&regs(0x8000, 0, 0, 0, 0, 0x0000)), Ok(()));
    assert_eq!(carry_status_count(&regs(0x0403, 0, 0, 0, 0, 0x0001)), Err((0x04, 0x03)));
    assert_eq!(carry_status_count(&regs(0x0003, 0, 0, 0, 0, 0x0002)), Ok(0x03));
}

#[test]
fn video_set_cursor_loads_page_row_col() {
    let c = video::set_cursor(1, 10, 20);
    assert_eq!(c, BiosCall { vector: video::INT_VIDEO, regs: regs(0x0200, 1, 0, 0x0A14, 0, 0) });
}

#[test]
fn video_cursor_shape_hides_with_bit_five() {
    let shown = video::set_cursor_shape(0x26, 0xE7, true);
    assert_eq!(shown.regs.cx, 0x0607);
    assert_eq!(shown.regs.ax, 0x0100);
    let hidden = video::set_cursor_shape(0x06, 0x07, false);
    assert_eq!(hidden.regs.cx, 0x2607);
}

#[test]
fn video_scroll_and_write_string() {
    let c = video::scroll_up(2, 0x07, 1, 3, 24, 79);
    assert_eq!(c.regs, regs(0x0602, 0x0701, 0x0103, 0x184F, 0, 0));
    assert_eq!(video::scroll_down(2, 0x07, 1, 3, 24, 79).regs.ax, 0x0702);
    let w = video::write_string(1, 0, 0x1F, 5, 6, FarPtr { segment: 0x9000, offset: 0x10 }, 12);
    assert_eq!(w.regs.ax, 0x1301);
    assert_eq!(w.regs.bx, 0x001F);
    assert_eq!(w.regs.cx, 12);
    assert_eq!(w.regs.dx, 0x0506);
    assert_eq!(w.regs.es, 0x9000);
    assert_eq!(w.regs.bp, 0x10);
    assert_eq!(video::set_mode(video::MODE_TEXT_80X25_COLOR).regs.ax, 0x0003);
    assert_eq!(video::print_char(b'A', 0, 7).regs, regs(0x0E41, 0x0007, 0, 0, 0, 0));
}

#[test]
fn video_replies_decode_registers() {
    let r = regs(0x1F41, 0x1234, 0x0607, 0x0A14, 0, 0);
    assert_eq!(video::get_cursor_reply(&r), (10, 20, 6, 7));
    assert_eq!(video::read_char_attr_reply(&r), (0x1F, 0x41));
    assert_eq!(video::get_pixel_reply(&r), 0x41);
    assert_eq!(video::get_video_state_reply(&r), (0x41, 0x1F, 0x12));
    assert_eq!(video::read_light_pen_reply(&r), (true, 10, 20, 6, 0x1234));
    assert!(!video::read_light_pen_reply(&regs(0x00FF, 0, 0, 0, 0, 0)).0);
}

#[test]
fn disk_chs_packing() {
    assert_eq!(pack_chs(0, 1), 0x0001);
    assert_eq!(pack_chs(0x3FF, 63), 0xFFFF);
    assert_eq!(pack_chs(0x1FF, 5), 0xFF45);
    assert_eq!(pack_chs(0x0FF, 0x45), 0xFF05);
    let c = disk::read_sectors(0x80, 1, 0x3FF, 5, 2, FarPtr { segment: 0x1000, offset: 0x20 });
    assert_eq!(c.vector, disk::INT_DISK);
    assert_eq!(c.regs, regs(0x0202, 0x0020, 0xFFC5, 0x0180, 0x1000, 0));
    assert_eq!(disk::write_sectors(0, 0, 3, 1, 1, FarPtr { segment: 1, offset: 2 }).regs.ax, 0x0301);
    assert_eq!(disk::read_long(0x80, 0, 0x2AB, 9, 1, FarPtr { segment: 0, offset: 0 }).regs.cx, 0xAB89);
    assert_eq!(disk::write_long(0x80, 0, 0x2AB, 9, 1, FarPtr { segment: 0, offset: 0 }).regs.ax, 0x0B01);
    let v = disk::verify_sectors(0x80, 2, 10, 3, 4);
    assert_eq!(v.regs, regs(0x0404, 0, 0x0A03, 0x0280, 0, 0));
    assert_eq!(disk::seek(0x301, 4, 0x81).regs, regs(0x0C00, 0, 0x01C0, 0x0481, 0, 0));
}

#[test]
fn disk_format_and_pair() {
    let f = disk::format_track(0, 1, 0x1FF, 9, FarPtr { segment: 0x2000, offset: 4 });
    assert_eq!(f.regs, regs(0x0509, 4, 0xFF00, 0x0100, 0x2000, 0));
    let p = disk::initialize_drive_pair(0x80, 0x1A, 0x23, 0x40);
    assert_eq!(p.regs, regs(0x0900, 0, 0x4000, 0x3A80, 0, 0));
    assert_eq!(disk::reset(0x80).regs, regs(0, 0, 0, 0x80, 0, 0));
    assert_eq!(disk::set_dasd_type(1, disk::DASD_TYPE_360_IN_12M).regs.ax, 0x1702);
    assert_eq!(disk::recalibrate(0x80).regs.ax, 0x1100);
    assert_eq!(disk::test_ready(0x80).regs.ax, 0x1000);
    assert_eq!(disk::alternate_reset(0x80).regs.ax, 0x0D00);
    assert_eq!(disk::controller_internal_diagnostic(0x80).regs.ax, 0x1400);
    assert_eq!(disk::get_disk_change_status(0).regs.ax, 0x1600);
    assert_eq!(disk::get_status(0).regs.ax, 0x0100);
}

#[test]
fn disk_replies_decode_registers() {
    assert_eq!(
        disk::get_parameters_reply(&regs(0, 0, 0x4FD2, 0x0F02, 0, 0)),
        Ok((0x0F, 0x3D2, 0x12, 0x02))
    );
    assert_eq!(disk::get_parameters_reply(&regs(0x0700, 0, 0, 0, 0, 1)), Err(0x07));
    assert_eq!(disk::read_dasd_type_reply(&regs(0x0300, 0, 0x0001, 0x0002, 0, 0)), Ok((3, 0x0001_0002)));
    assert_eq!(disk::read_dasd_type_reply(&regs(0x0300, 0, 1, 2, 0, 1)), Err(()));
    assert_eq!(disk::get_status_reply(&regs(0x4000, 0, 0, 0, 0, 0)), disk::STATUS_SF);
}

#[test]
fn serial_and_printer_and_keyboard() {
    assert_eq!(rs232::init(rs232::PORT_COM2, 0xE3).regs, regs(0x00E3, 0, 0, 1, 0, 0));
    assert_eq!(rs232::send_char(0, b'x').regs.ax, 0x0178);
    assert_eq!(rs232::recv_char(3).regs, regs(0x0200, 0, 0, 3, 0, 0));
    assert_eq!(rs232::get_status(2).regs.ax, 0x0300);
    assert_eq!(rs232::status_pair_reply(&regs(0x6030, 0, 0, 0, 0, 0)), (0x60, 0x30));
    assert_eq!(rs232::send_char_reply(&regs(0x6030, 0, 0, 0, 0, 0)), 0x60);
    assert_eq!(printer::print_char(1, b'A').regs, regs(0x0041, 0, 0, 1, 0, 0));
    assert_eq!(printer::init(2).regs.ax, 0x0100);
    assert_eq!(printer::get_status(0).regs.ax, 0x0200);
    assert_eq!(printer::status_reply(&regs(0x9041, 0, 0, 0, 0, 0)), 0x90);
    assert_eq!(keyboard::read_char().regs, Registers::default());
    assert_eq!(keyboard::read_char_reply(&regs(0x1E61, 0, 0, 0, 0, 0)), (0x1E, 0x61));
    assert_eq!(keyboard::check_buffer().regs.ax, 0x0100);
    assert_eq!(keyboard::check_buffer_reply(&regs(0x1E61, 0, 0, 0, 0, 0x0040)), None);
    assert_eq!(keyboard::check_buffer_reply(&regs(0x1E61, 0, 0, 0, 0, 0)), Some((0x1E, 0x61)));
    assert_eq!(keyboard::get_flags_reply(&regs(0x1203, 0, 0, 0, 0, 0)), 0x03);
}

#[test]
fn system_calls() {
    let w = system::event_wait(0x0001_86A0, FarPtr { segment: 0x50, offset: 0x10 }, false);
    assert_eq!(w.regs, regs(0x8300, 0x10, 0x0001, 0x86A0, 0x50, 0));
    assert_eq!(system::event_wait(0, FarPtr { segment: 0, offset: 0 }, true).regs.ax, 0x8301);
    assert_eq!(system::wait(0x1234_5678).regs, regs(0x8600, 0, 0x1234, 0x5678, 0, 0));
    let m = system::move_block(0x100, FarPtr { segment: 0x7000, offset: 0x20 });
    assert_eq!((m.regs.ax, m.regs.cx, m.regs.es, m.regs.si), (0x8700, 0x100, 0x7000, 0x20));
    let p = system::switch_protected(FarPtr { segment: 0x10, offset: 0x30 }, 0x20, 0x28);
    assert_eq!((p.regs.ax, p.regs.bx, p.regs.es, p.regs.si), (0x8900, 0x2028, 0x10, 0x30));
    let mm = system::get_memory_map(0, FarPtr { segment: 0x1000, offset: 0x200 }, 24);
    assert_eq!(
        mm.regs,
        Registers { ax: 0xE820, bx: 0, cx: 24, dx: 0x4150, bp: 0, si: 0x53D4, di: 0x200, es: 0x1000, flags: 0 }
    );
    assert_eq!(system::get_memory_map_reply(&regs(0, 5, 20, 0, 0, 0)), Ok((5, 20)));
    assert_eq!(system::get_memory_map_reply(&regs(0x8600, 5, 20, 0, 0, 1)), Err(0x86));
    assert_eq!(system::extended_memory_size_reply(&regs(0x3C00, 0, 0, 0, 0, 0)), Ok(0x3C00));
    assert_eq!(system::extended_memory_size_reply(&regs(0x3C00, 0, 0, 0, 0, 1)), Err(()));
    let cfg = system::get_configuration_reply(&regs(0, 0xE6F5, 0, 0, 0xF000, 0)).unwrap();
    assert_eq!(cfg, FarPtr { segment: 0xF000, offset: 0xE6F5 });
    assert_eq!(system::get_configuration_reply(&regs(0x8600, 0, 0, 0, 0, 1)), Err(0x86));
    assert_eq!(system::device_open(system::DEVICE_KEYBOARD, 9).regs, regs(0x8000, 1, 9, 0, 0, 0));
    assert_eq!(system::device_close(2, 9).regs.ax, 0x8100);
    assert_eq!(system::program_termination(2).regs, regs(0x8200, 2, 0, 0, 0, 0));
    assert_eq!(system::joystick(system::JOYSTICK_INPUTS).regs, regs(0x8400, 0, 0, 1, 0, 0));
    assert_eq!(system::sysreq(system::SYSREQ_BREAK).regs.ax, 0x8501);
    assert_eq!(system::device_busy(0xFD, FarPtr { segment: 1, offset: 2 }).regs, regs(0x90FD, 2, 0, 0, 1, 0));
    assert_eq!(system::interrupt_complete(0x01, FarPtr { segment: 1, offset: 2 }).regs.ax, 0x9101);
    assert_eq!(system::extended_memory_size().regs.ax, 0x8800);
    assert_eq!(system::get_configuration().regs.ax, 0xC000);
}

#[test]
fn time_calls() {
    assert_eq!(time::set_stc(0x0018_00B0).regs, regs(0x0100, 0, 0x0018, 0x00B0, 0, 0));
    assert_eq!(time::get_stc_reply(&regs(0, 0, 0x0018, 0x00B0, 0, 0)), (0x0018_00B0, false));
    assert_eq!(time::get_stc_reply(&regs(1, 0, 0, 5, 0, 0)), (5, true));
    assert_eq!(time::set_rtc_time(0x12, 0x34, 0x56, 1).regs, regs(0x0300, 0, 0x1234, 0x5601, 0, 0));
    assert_eq!(time::get_rtc_time_reply(&regs(0, 0, 0x1234, 0x5601, 0, 0)), (0x12, 0x34, 0x56, 1));
    assert_eq!(time::get_rtc_date_reply(&regs(0, 0, 0x2024, 0x0315, 0, 0)), (0x20, 0x24, 0x03, 0x15));
    assert_eq!(time::set_rtc_date(0x20, 0x24, 0x03, 0x15).regs, regs(0x0500, 0, 0x2024, 0x0315, 0, 0));
    assert_eq!(time::set_rtc_alarm(6, 30, 0).regs, regs(0x0600, 0, 0x061E, 0x0000, 0, 0));
    assert_eq!(time::set_rtc_alarm_reply(&regs(0, 0, 0, 0, 0, 1)), Err(()));
    assert_eq!(time::set_rtc_alarm_reply(&regs(0, 0, 0, 0, 0, 0)), Ok(()));
    assert_eq!(time::reset_rtc_alarm().regs.ax, 0x0700);
    assert_eq!(time::get_rtc_date().regs.ax, 0x0400);
    assert_eq!(time::get_rtc_time().regs.ax, 0x0200);
    assert_eq!(time::get_stc().regs.ax, 0x0000);
}

#[test]
fn timer_count_written_reads_back() {
    let t: u32 = 0xABCD_1234;
    let c = time::set_stc(t);
    let back = time::get_stc_reply(&regs(0, 0, c.regs.cx, c.regs.dx, 0, 0));
    assert_eq!(back.0, t);
}

#[test]
fn top_level_calls() {
    assert_eq!(bios::print_screen(), BiosCall { vector: bios::INT_PRSCRN, regs: Registers::default() });
    assert_eq!(bios::get_equipment().vector, 0x11);
    assert_eq!(bios::get_memory_size().vector, 0x12);
    assert_eq!(bios::reboot().vector, bios::INT_REBOOT);
}

#[test]
fn cursor_position_written_reads_back() {
    let c = video::set_cursor(0, 24, 79);
    let (row, col, _, _) = video::get_cursor_reply(&c.regs);
    assert_eq!((row, col), (24, 79));
}

#[test]
fn rtc_date_written_reads_back() {
    let c = time::set_rtc_date(0x19, 0x99, 0x12, 0x31);
    assert_eq!(time::get_rtc_date_reply(&c.regs), (0x19, 0x99, 0x12, 0x31));
    let t = time::set_rtc_time(0x23, 0x59, 0x58, 0);
    assert_eq!(time::get_rtc_time_reply(&t.regs), (0x23, 0x59, 0x58, 0));
}
