use vstd::prelude::*;

verus! {

/// A segment:offset address in real mode.
#[derive(Clone, Copy, Debug, PartialEq, Eq, Structural)]
pub struct FarPtr {
    pub segment: u16,
    pub offset: u16,
}

/// The register file loaded before a software interrupt and read back after it.
#[derive(Clone, Copy, Debug, PartialEq, Eq, Structural)]
pub struct Registers {
    pub ax: u16,
    pub bx: u16,
    pub cx: u16,
    pub dx: u16,
    pub bp: u16,
    pub si: u16,
    pub di: u16,
    pub es: u16,
    pub flags: u16,
}

/// A register file whose general, index and segment registers hold the given
/// values, with FLAGS clear.
pub open spec fn registers(
    ax: u16,
    bx: u16,
    cx: u16,
    dx: u16,
    bp: u16,
    si: u16,
    di: u16,
    es: u16,
) -> Registers {
    Registers { ax, bx, cx, dx, bp, si, di, es, flags: 0 }
}

impl Default for Registers {
    /// Every register zero.
    fn default() -> (r: Self)
        ensures
            r == registers(0, 0, 0, 0, 0, 0, 0, 0),
    {
        Registers { ax: 0, bx: 0, cx: 0, dx: 0, bp: 0, si: 0, di: 0, es: 0, flags: 0 }
    }
}

/// An interrupt to raise together with the registers to load for it.
#[derive(Clone, Copy, Debug, PartialEq, Eq, Structural)]
pub struct BiosCall {
    pub vector: u8,
    pub regs: Registers,
}

/// Interrupt `vector` with AX, BX, CX, DX loaded and every other register zero.
pub open spec fn call(vector: u8, ax: u16, bx: u16, cx: u16, dx: u16) -> BiosCall {
    BiosCall { vector, regs: registers(ax, bx, cx, dx, 0, 0, 0, 0) }
}

/// Interrupt `vector` with all of its input registers given.
pub open spec fn call_full(
    vector: u8,
    ax: u16,
    bx: u16,
    cx: u16,
    dx: u16,
    bp: u16,
    si: u16,
    di: u16,
    es: u16,
) -> BiosCall {
    BiosCall { vector, regs: registers(ax, bx, cx, dx, bp, si, di, es) }
}

impl BiosCall {
    /// Interrupt `vector` with AX, BX, CX, DX loaded and every other register zero.
    pub fn new(vector: u8, ax: u16, bx: u16, cx: u16, dx: u16) -> (r: Self)
        ensures
            r == call(vector, ax, bx, cx, dx),
    {
        BiosCall { vector, regs: Registers { ax, bx, cx, dx, bp: 0, si: 0, di: 0, es: 0, flags: 0 } }
    }

    /// Interrupt `vector` with all of its input registers given.
    pub fn with_all(
        vector: u8,
        ax: u16,
        bx: u16,
        cx: u16,
        dx: u16,
        bp: u16,
        si: u16,
        di: u16,
        es: u16,
    ) -> (r: Self)
        ensures
            r == call_full(vector, ax, bx, cx, dx, bp, si, di, es),
    {
        BiosCall { vector, regs: Registers { ax, bx, cx, dx, bp, si, di, es, flags: 0 } }
    }
}

/// High byte of a 16-bit register (AH from AX, and so on).
pub open spec fn hi(w: u16) -> u8 {
    (w / 256) as u8
}

/// Low byte of a 16-bit register (AL from AX, and so on).
pub open spec fn lo(w: u16) -> u8 {
    (w % 256) as u8
}

/// The 16-bit register whose high byte is `h` and low byte is `l`.
pub open spec fn word(h: u8, l: u8) -> u16 {
    (h * 256 + l) as u16
}

pub fn high_byte(w: u16) -> (r: u8)
    ensures
        r == hi(w),
{
    (w / 256) as u8
}

pub fn low_byte(w: u16) -> (r: u8)
    ensures
        r == lo(w),
{
    (w % 256) as u8
}

pub fn make_word(h: u8, l: u8) -> (r: u16)
    ensures
        r == word(h, l),
{
    (h as u16) * 256 + (l as u16)
}

/// Splitting a register into its two bytes and joining them gives it back.
pub proof fn lemma_word_split_join(w: u16)
    ensures
        word(hi(w), lo(w)) == w,
{
}

/// Joining two bytes and splitting the result gives them back.
pub proof fn lemma_word_join_split(h: u8, l: u8)
    ensures
        hi(word(h, l)) == h,
        lo(word(h, l)) == l,
{
}

/// The 32-bit value held in a pair of 16-bit registers (CX:DX and the like).
pub open spec fn dword(h: u16, l: u16) -> u32 {
    (h * 65536 + l) as u32
}

/// The upper half of a 32-bit value.
pub open spec fn dword_hi(t: u32) -> u16 {
    (t / 65536) as u16
}

/// The lower half of a 32-bit value.
pub open spec fn dword_lo(t: u32) -> u16 {
    (t % 65536) as u16
}

pub fn high_word(t: u32) -> (r: u16)
    ensures
        r == dword_hi(t),
{
    (t / 65536) as u16
}

pub fn low_word(t: u32) -> (r: u16)
    ensures
        r == dword_lo(t),
{
    (t % 65536) as u16
}

pub fn make_dword(h: u16, l: u16) -> (r: u32)
    ensures
        r == dword(h, l),
{
    (h as u32) * 65536 + (l as u32)
}

/// Splitting a 32-bit value over two registers and joining them gives it back.
pub proof fn lemma_dword_split_join(t: u32)
    ensures
        dword(dword_hi(t), dword_lo(t)) == t,
{
}

/// Joining two registers and splitting the result gives them back.
pub proof fn lemma_dword_join_split(h: u16, l: u16)
    ensures
        dword_hi(dword(h, l)) == h,
        dword_lo(dword(h, l)) == l,
{
}

/// CX as the disk services take a cylinder and sector: CH holds cylinder bits
/// 0-7, CL bits 6-7 hold cylinder bits 8-9, CL bits 0-5 hold the sector.
pub open spec fn chs_cx(cylinder: u16, sector: u8) -> u16 {
    word((cylinder % 256) as u8, ((cylinder / 256) % 4 * 64 + sector % 64) as u8)
}

pub fn pack_chs(cylinder: u16, sector: u8) -> (r: u16)
    ensures
        r == chs_cx(cylinder, sector),
{
    let r = (cylinder << 8u16) | ((sector as u16) & 0x3Fu16) | ((cylinder >> 2u16) & 0xC0u16);
    assert(r == ((cylinder % 256) * 256 + ((cylinder / 256) % 4 * 64 + sector % 64)) as u16)
        by (bit_vector)
        requires
            r == (cylinder << 8u16) | ((sector as u16) & 0x3Fu16) | ((cylinder >> 2u16) & 0xC0u16),
    ;
    r
}

/// The packed CX keeps the low eight cylinder bits in CH, the next two in the
/// top of CL, and the low six sector bits below them.
pub proof fn lemma_chs_cx_fields(cylinder: u16, sector: u8)
    ensures
        hi(chs_cx(cylinder, sector)) == cylinder % 256,
        lo(chs_cx(cylinder, sector)) / 64 == (cylinder / 256) % 4,
        lo(chs_cx(cylinder, sector)) % 64 == sector % 64,
{
}

/// Carry flag of the FLAGS register: set by a BIOS service that failed.
pub open spec fn carry(regs: Registers) -> bool {
    regs.flags % 2 == 1
}

/// Zero flag of the FLAGS register.
pub open spec fn zero(regs: Registers) -> bool {
    (regs.flags / 64) % 2 == 1
}

/// The carry-flag bit, as the `x86` crate's `EFlags::FLAGS_CF` defines it
/// (`1 << 0`), narrowed to the 16-bit FLAGS register.
#[verifier::external_body]
fn carry_flag_mask() -> (m: u16)
    ensures
        m == 0x0001,
{
    x86::bits32::eflags::EFlags::FLAGS_CF.bits() as u16
}

/// The zero-flag bit, as the `x86` crate's `EFlags::FLAGS_ZF` defines it
/// (`1 << 6`), narrowed to the 16-bit FLAGS register.
#[verifier::external_body]
fn zero_flag_mask() -> (m: u16)
    ensures
        m == 0x0040,
{
    x86::bits32::eflags::EFlags::FLAGS_ZF.bits() as u16
}

/// Whether the carry flag is set in the returned registers.
pub fn carry_set(regs: &Registers) -> (r: bool)
    ensures
        r == carry(*regs),
{
    let m = carry_flag_mask();
    let f = regs.flags;
    assert((f & m != 0) == (f % 2 == 1)) by (bit_vector)
        requires
            m == 0x0001u16,
    ;
    f & m != 0
}

/// Whether the zero flag is set in the returned registers.
pub fn zero_set(regs: &Registers) -> (r: bool)
    ensures
        r == zero(*regs),
{
    let m = zero_flag_mask();
    let f = regs.flags;
    assert((f & m != 0) == ((f / 64) % 2 == 1)) by (bit_vector)
        requires
            m == 0x0040u16,
    ;
    f & m != 0
}

/// What a service that signals failure through the carry flag returns:
/// the status byte in AH when CF is set, nothing otherwise.
pub open spec fn carry_status_spec(regs: Registers) -> Result<(), u8> {
    if carry(regs) {
        Err(hi(regs.ax))
    } else {
        Ok(())
    }
}

pub fn carry_status(regs: &Registers) -> (r: Result<(), u8>)
    ensures
        r == carry_status_spec(*regs),
{
    if carry_set(regs) {
        return Err(high_byte(regs.ax));
    }
    Ok(())
}

/// What a sector transfer returns: AL sectors moved, and on failure (CF set)
/// the status in AH beside them.
pub open spec fn carry_status_count_spec(regs: Registers) -> Result<u8, (u8, u8)> {
    if carry(regs) {
        Err((hi(regs.ax), lo(regs.ax)))
    } else {
        Ok(lo(regs.ax))
    }
}

pub fn carry_status_count(regs: &Registers) -> (r: Result<u8, (u8, u8)>)
    ensures
        r == carry_status_count_spec(*regs),
{
    let status = high_byte(regs.ax);
    let count = low_byte(regs.ax);
    if carry_set(regs) {
        return Err((status, count));
    }
    Ok(count)
}

/// The carry decision reads FLAGS bit 0 and nothing else: for every FLAGS
/// value it agrees with masking that bit, so no other flag (the reserved
/// bit 1, IF, ZF, ...) can turn a success into a failure.
pub proof fn lemma_carry_is_flags_bit_zero(regs: Registers)
    ensures
        carry(regs) <==> (regs.flags & 0x0001u16) != 0,
{
    let f = regs.flags;
    assert((f % 2 == 1) <==> (f & 0x0001u16) != 0) by (bit_vector);
}

/// The zero-flag decision reads FLAGS bit 6 and nothing else: for every
/// FLAGS value it agrees with masking that bit.
pub proof fn lemma_zero_is_flags_bit_six(regs: Registers)
    ensures
        zero(regs) <==> (regs.flags & 0x0040u16) != 0,
{
    let f = regs.flags;
    assert(((f / 64) % 2 == 1) <==> (f & 0x0040u16) != 0) by (bit_vector);
}

/// Two register files whose FLAGS agree on bit 0 get the same carry
/// decision, and two whose FLAGS agree on bit 6 the same zero decision.
pub proof fn lemma_flag_decisions_ignore_other_bits(a: Registers, b: Registers)
    ensures
        (a.flags & 0x0001u16) == (b.flags & 0x0001u16) ==> carry(a) == carry(b),
        (a.flags & 0x0040u16) == (b.flags & 0x0040u16) ==> zero(a) == zero(b),
{
    lemma_carry_is_flags_bit_zero(a);
    lemma_carry_is_flags_bit_zero(b);
    lemma_zero_is_flags_bit_six(a);
    lemma_zero_is_flags_bit_six(b);
}

/// A register is its high byte times 256 plus its low byte, and joining two
/// bytes gives the high one times 256 plus the low one.
pub proof fn lemma_byte_arithmetic(w: u16, h: u8, l: u8)
    ensures
        hi(w) * 256 + lo(w) == w,
        word(h, l) == h * 256 + l,
{
}

/// A 32-bit value is its upper half times 65536 plus its lower half, and
/// joining two halves gives the upper one times 65536 plus the lower one.
pub proof fn lemma_dword_arithmetic(t: u32, h: u16, l: u16)
    ensures
        dword_hi(t) * 65536 + dword_lo(t) == t,
        dword(h, l) == h * 65536 + l,
{
}

/// A call loads each register with the value given for it, clears FLAGS,
/// and the short form leaves BP, SI, DI and ES zero.
pub proof fn lemma_call_layout(
    vector: u8,
    ax: u16,
    bx: u16,
    cx: u16,
    dx: u16,
    bp: u16,
    si: u16,
    di: u16,
    es: u16,
)
    ensures
        ({
            let c = call_full(vector, ax, bx, cx, dx, bp, si, di, es);
            &&& c.vector == vector
            &&& c.regs.ax == ax && c.regs.bx == bx && c.regs.cx == cx && c.regs.dx == dx
            &&& c.regs.bp == bp && c.regs.si == si && c.regs.di == di && c.regs.es == es
            &&& c.regs.flags == 0
        }),
        call(vector, ax, bx, cx, dx) == call_full(vector, ax, bx, cx, dx, 0, 0, 0, 0),
{
}

/// A service fails exactly when FLAGS bit 0 is set, and then reports
/// AX / 256 (AH); a sector transfer also reports AX % 256 (AL), which is
/// its result on success.
pub proof fn lemma_status_decoding(regs: Registers)
    ensures
        carry_status_spec(regs) == (if (regs.flags & 0x0001u16) != 0 {
            Err((regs.ax / 256) as u8)
        } else {
            Ok(())
        }),
        carry_status_count_spec(regs) == (if (regs.flags & 0x0001u16) != 0 {
            Err(((regs.ax / 256) as u8, (regs.ax % 256) as u8))
        } else {
            Ok((regs.ax % 256) as u8)
        }),
{
    lemma_carry_is_flags_bit_zero(regs);
}

} // verus!
