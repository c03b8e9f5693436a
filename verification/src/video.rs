//! Video services (interrupt 10h): the registers each function loads and the
//! decoding of what it reads back.
use vstd::prelude::*;
use crate::regs::{
    call, call_full, hi, high_byte, lo, low_byte, make_word, word, BiosCall, FarPtr, Registers,
};

verus! {

/// VIDEO I/O, see p. 5-127
pub const INT_VIDEO: u8 = 0x10;

/// default
pub const MODE_TEXT_40X25_BW: u8 = 0;
pub const MODE_TEXT_40X25_COLOR: u8 = 1;
pub const MODE_TEXT_80X25_BW: u8 = 2;
pub const MODE_TEXT_80X25_COLOR: u8 = 3;

pub const MODE_GRAPHICS_320X200_COLOR: u8 = 4;
pub const MODE_GRAPHICS_320X200_BW: u8 = 5;
pub const MODE_GRAPHICS_640X200_BW: u8 = 6;
pub const MODE_CRT_80X25_BWCARD: u8 = 7;

/// Set Mode: AH = 00h, AL = mode.
pub fn set_mode(mode: u8) -> (c: BiosCall)
    ensures
        c == call(INT_VIDEO, word(0x00, mode), 0, 0, 0),
{
    BiosCall::new(INT_VIDEO, make_word(0x00, mode), 0, 0, 0)
}

/// CH of Set Cursor Type: the start line in bits 0-4, bit 5 set when the
/// cursor is hidden.
pub open spec fn cursor_start_byte(start: u8, visible: bool) -> u8 {
    (start % 32 + if visible { 0int } else { 32int }) as u8
}

/// The start line keeps its low five bits and bit 5 says whether the cursor
/// is hidden.
pub proof fn lemma_cursor_start_fields(start: u8, visible: bool)
    ensures
        cursor_start_byte(start, visible) % 32 == start % 32,
        cursor_start_byte(start, visible) / 32 == (if visible { 0int } else { 1int }),
{
}

/// Set Cursor Type: AH = 01h, CH = start line (bit 5 hides the cursor),
/// CL = end line; both lines are kept to their low five bits.
pub fn set_cursor_shape(start: u8, end: u8, visible: bool) -> (c: BiosCall)
    ensures
        c == call(INT_VIDEO, 0x0100, 0, word(cursor_start_byte(start, visible), end % 32), 0),
{
    let mut ch = start % 32;
    if !visible {
        ch = ch + 32;
    }
    let cl = end % 32;
    BiosCall::new(INT_VIDEO, 0x0100, 0, make_word(ch, cl), 0)
}

/// Set Cursor Position: AH = 02h, BH = page, DH = row, DL = column.
pub fn set_cursor(page: u8, row: u8, col: u8) -> (c: BiosCall)
    ensures
        c == call(INT_VIDEO, 0x0200, page as u16, 0, word(row, col)),
{
    BiosCall::new(INT_VIDEO, 0x0200, page as u16, 0, make_word(row, col))
}

/// The position that Set Cursor Position loads into DX is the one that
/// Read Cursor Position decodes from DX.
pub proof fn lemma_cursor_position_layout(page: u8, row: u8, col: u8)
    ensures
        ({
            let c = call(INT_VIDEO, 0x0200, page as u16, 0, word(row, col));
            (hi(c.regs.dx), lo(c.regs.dx)) == (row, col)
        }),
{
}

/// Read Cursor Position: AH = 03h, page in BX.
pub fn get_cursor(page: u8) -> (c: BiosCall)
    ensures
        c == call(INT_VIDEO, 0x0300, page as u16, 0, 0),
{
    BiosCall::new(INT_VIDEO, 0x0300, page as u16, 0, 0)
}

/// What Read Cursor Position returns: row (DH), column (DL), cursor start
/// line (CH) and end line (CL).
pub fn get_cursor_reply(regs: &Registers) -> (r: (u8, u8, u8, u8))
    ensures
        r == (hi(regs.dx), lo(regs.dx), hi(regs.cx), lo(regs.cx)),
{
    (high_byte(regs.dx), low_byte(regs.dx), high_byte(regs.cx), low_byte(regs.cx))
}

/// Read Light Pen Position: AH = 04h.
pub fn read_light_pen() -> (c: BiosCall)
    ensures
        c == call(INT_VIDEO, 0x0400, 0, 0, 0),
{
    BiosCall::new(INT_VIDEO, 0x0400, 0, 0, 0)
}

/// What Read Light Pen Position returns: whether the pen was triggered
/// (AH non-zero), character row (DH) and column (DL), pixel row (CH) and
/// pixel column (BX).
pub fn read_light_pen_reply(regs: &Registers) -> (r: (bool, u8, u8, u8, u16))
    ensures
        r == (hi(regs.ax) != 0, hi(regs.dx), lo(regs.dx), hi(regs.cx), regs.bx),
{
    (high_byte(regs.ax) != 0, high_byte(regs.dx), low_byte(regs.dx), high_byte(regs.cx), regs.bx)
}

/// Select Active Display Page: AH = 05h, AL = page.
pub fn set_page(page: u8) -> (c: BiosCall)
    ensures
        c == call(INT_VIDEO, word(0x05, page), 0, 0, 0),
{
    BiosCall::new(INT_VIDEO, make_word(0x05, page), 0, 0, 0)
}

/// Scroll Active Page Up: AH = 06h, AL = lines, BH = fill attribute,
/// BL = top row, CH:CL = top row and left column, DH:DL = bottom row and
/// right column.
pub fn scroll_up(lines: u8, fill: u8, trow: u8, lcol: u8, brow: u8, rcol: u8) -> (c: BiosCall)
    ensures
        c == call(
            INT_VIDEO,
            word(0x06, lines),
            word(fill, trow),
            word(trow, lcol),
            word(brow, rcol),
        ),
{
    BiosCall::new(
        INT_VIDEO,
        make_word(0x06, lines),
        make_word(fill, trow),
        make_word(trow, lcol),
        make_word(brow, rcol),
    )
}

/// Scroll Active Page Down: as Scroll Up, with AH = 07h.
pub fn scroll_down(lines: u8, fill: u8, trow: u8, lcol: u8, brow: u8, rcol: u8) -> (c: BiosCall)
    ensures
        c == call(
            INT_VIDEO,
            word(0x07, lines),
            word(fill, trow),
            word(trow, lcol),
            word(brow, rcol),
        ),
{
    BiosCall::new(
        INT_VIDEO,
        make_word(0x07, lines),
        make_word(fill, trow),
        make_word(trow, lcol),
        make_word(brow, rcol),
    )
}

/// Read Attribute Character At Current Cursor Position: AH = 08h, page in BX.
pub fn read_char_attr(page: u8) -> (c: BiosCall)
    ensures
        c == call(INT_VIDEO, 0x0800, page as u16, 0, 0),
{
    BiosCall::new(INT_VIDEO, 0x0800, page as u16, 0, 0)
}

/// What Read Attribute Character returns: attribute (AH) and character (AL).
pub fn read_char_attr_reply(regs: &Registers) -> (r: (u8, u8))
    ensures
        r == (hi(regs.ax), lo(regs.ax)),
{
    (high_byte(regs.ax), low_byte(regs.ax))
}

/// Write Attribute Character At Current Cursor Position: AH = 09h,
/// AL = character, BH = page, BL = attribute, CX = count.
pub fn write_char_attr(page: u8, character: u8, atcol: u8, count: u16) -> (c: BiosCall)
    ensures
        c == call(INT_VIDEO, word(0x09, character), word(page, atcol), count, 0),
{
    BiosCall::new(INT_VIDEO, make_word(0x09, character), make_word(page, atcol), count, 0)
}

/// Write Character Only At Current Cursor Position: AH = 0Ah,
/// AL = character, page in BX, CX = count.
pub fn write_char(page: u8, character: u8, count: u16) -> (c: BiosCall)
    ensures
        c == call(INT_VIDEO, word(0x0A, character), page as u16, count, 0),
{
    BiosCall::new(INT_VIDEO, make_word(0x0A, character), page as u16, count, 0)
}

/// Set Color Palette: AH = 0Bh, BH = subfunction, BL = value.
pub fn set_palette(subfunction: u8, value: u8) -> (c: BiosCall)
    ensures
        c == call(INT_VIDEO, 0x0B00, word(subfunction, value), 0, 0),
{
    BiosCall::new(INT_VIDEO, 0x0B00, make_word(subfunction, value), 0, 0)
}

/// Write Dot: AH = 0Ch, AL = color, page in BX, CX = column, DX = row.
pub fn set_pixel(page: u8, x: u16, y: u16, color: u8) -> (c: BiosCall)
    ensures
        c == call(INT_VIDEO, word(0x0C, color), page as u16, x, y),
{
    BiosCall::new(INT_VIDEO, make_word(0x0C, color), page as u16, x, y)
}

/// Read Dot: AH = 0Dh, page in BX, CX = column, DX = row.
pub fn get_pixel(page: u8, x: u16, y: u16) -> (c: BiosCall)
    ensures
        c == call(INT_VIDEO, 0x0D00, page as u16, x, y),
{
    BiosCall::new(INT_VIDEO, 0x0D00, page as u16, x, y)
}

/// What Read Dot returns: the color in AL.
pub fn get_pixel_reply(regs: &Registers) -> (color: u8)
    ensures
        color == lo(regs.ax),
{
    low_byte(regs.ax)
}

/// Write Teletype To Active Page: AH = 0Eh, AL = character, BH = page,
/// BL = color.
pub fn print_char(character: u8, page: u8, color: u8) -> (c: BiosCall)
    ensures
        c == call(INT_VIDEO, word(0x0E, character), word(page, color), 0, 0),
{
    BiosCall::new(INT_VIDEO, make_word(0x0E, character), make_word(page, color), 0, 0)
}

/// Current Video State: AH = 0Fh.
pub fn get_video_state() -> (c: BiosCall)
    ensures
        c == call(INT_VIDEO, 0x0F00, 0, 0, 0),
{
    BiosCall::new(INT_VIDEO, 0x0F00, 0, 0, 0)
}

/// What Current Video State returns: mode (AL), columns (AH) and active
/// page (BH).
pub fn get_video_state_reply(regs: &Registers) -> (r: (u8, u8, u8))
    ensures
        r == (lo(regs.ax), hi(regs.ax), hi(regs.bx)),
{
    (low_byte(regs.ax), high_byte(regs.ax), high_byte(regs.bx))
}

/// Write String: AH = 13h, AL = mode, BH = page, BL = attribute,
/// CX = length, DH = row, DL = column, ES:BP = the string.
pub fn write_string(
    mode: u8,
    page: u8,
    attr: u8,
    row: u8,
    col: u8,
    buffer: FarPtr,
    len: u16,
) -> (c: BiosCall)
    ensures
        c == call_full(
            INT_VIDEO,
            word(0x13, mode),
            word(page, attr),
            len,
            word(row, col),
            buffer.offset,
            0,
            0,
            buffer.segment,
        ),
{
    BiosCall::with_all(
        INT_VIDEO,
        make_word(0x13, mode),
        make_word(page, attr),
        len,
        make_word(row, col),
        buffer.offset,
        0,
        0,
        buffer.segment,
    )
}

} // verus!
