use vstd::prelude::*;
use vstd::arithmetic::div_mod::{
    lemma_div_denominator, lemma_div_is_ordered, lemma_fundamental_div_mod,
    lemma_fundamental_div_mod_converse,
};

verus! {

/// Little-endian bytes of a 16-bit value.
pub open spec fn le_u16_bytes(x: u16) -> Seq<u8> {
    seq![(x % 256) as u8, (x / 256) as u8]
}

/// Little-endian bytes of a 32-bit value.
pub open spec fn le_u32_bytes(x: u32) -> Seq<u8> {
    seq![
        (x % 256) as u8,
        (x / 256 % 256) as u8,
        (x / 65536 % 256) as u8,
        (x / 16777216) as u8,
    ]
}

/// Two values with the same little-endian bytes are equal.
pub proof fn lemma_le_u16_injective(x: u16, y: u16)
    requires
        le_u16_bytes(x) == le_u16_bytes(y),
    ensures
        x == y,
{
    assert(le_u16_bytes(x)[0] == le_u16_bytes(y)[0]);
    assert(le_u16_bytes(x)[1] == le_u16_bytes(y)[1]);
}

/// Two values with the same little-endian bytes are equal.
pub proof fn lemma_le_u32_injective(x: u32, y: u32)
    requires
        le_u32_bytes(x) == le_u32_bytes(y),
    ensures
        x == y,
{
    assert(le_u32_bytes(x)[0] == le_u32_bytes(y)[0]);
    assert(le_u32_bytes(x)[1] == le_u32_bytes(y)[1]);
    assert(le_u32_bytes(x)[2] == le_u32_bytes(y)[2]);
    assert(le_u32_bytes(x)[3] == le_u32_bytes(y)[3]);
}

/// Reads a 16-bit value from two little-endian bytes.
pub fn u16_from_le(b0: u8, b1: u8) -> (r: u16)
    ensures
        le_u16_bytes(r) == seq![b0, b1],
{
    let r = (b0 as u16) + (b1 as u16) * 256;
    assert(le_u16_bytes(r) =~= seq![b0, b1]);
    r
}

/// Reads a 32-bit value from four little-endian bytes.
pub fn u32_from_le(b0: u8, b1: u8, b2: u8, b3: u8) -> (r: u32)
    ensures
        le_u32_bytes(r) == seq![b0, b1, b2, b3],
{
    let r = (b0 as u32) + (b1 as u32) * 256 + (b2 as u32) * 65536 + (b3 as u32) * 16777216;
    proof {
        let z: int = b2 + b3 * 256;
        let y: int = b1 + z * 256;
        lemma_fundamental_div_mod_converse(r as int, 256, y, b0 as int);
        lemma_fundamental_div_mod_converse(y, 256, z, b1 as int);
        lemma_fundamental_div_mod_converse(r as int, 65536, z, b0 + b1 * 256);
        lemma_fundamental_div_mod_converse(z, 256, b3 as int, b2 as int);
        lemma_fundamental_div_mod_converse(r as int, 16777216, b3 as int, b0 + b1 * 256 + b2 * 65536);
    }
    assert(le_u32_bytes(r) =~= seq![b0, b1, b2, b3]);
    r
}

/// Writes a 16-bit value as two little-endian bytes.
pub fn u16_to_le(x: u16) -> (r: [u8; 2])
    ensures
        r@ == le_u16_bytes(x),
{
    let r = [(x % 256) as u8, (x / 256) as u8];
    assert(r@ =~= le_u16_bytes(x));
    r
}

/// Writes a 32-bit value as four little-endian bytes.
pub fn u32_to_le(x: u32) -> (r: [u8; 4])
    ensures
        r@ == le_u32_bytes(x),
{
    let r = [(x % 256) as u8, (x / 256 % 256) as u8, (x / 65536 % 256) as u8, (x / 16777216) as u8];
    assert(r@ =~= le_u32_bytes(x));
    r
}

/// The little-endian bytes of a value are its base-256 digits, least
/// significant first.
pub proof fn lemma_le_bytes_are_digits(x: u16, y: u32)
    ensures
        le_u16_bytes(x).len() == 2,
        le_u16_bytes(x)[0] + le_u16_bytes(x)[1] * 256 == x,
        le_u32_bytes(y).len() == 4,
        le_u32_bytes(y)[0] + le_u32_bytes(y)[1] * 256 + le_u32_bytes(y)[2] * 65536
            + le_u32_bytes(y)[3] * 16777216 == y,
{
    let q1: int = (y as int) / 256;
    let q2: int = (y as int) / 65536;
    lemma_fundamental_div_mod(y as int, 256);
    lemma_fundamental_div_mod(q1, 256);
    lemma_div_denominator(y as int, 256, 256);
    lemma_fundamental_div_mod(q2, 256);
    lemma_div_denominator(y as int, 65536, 256);
    assert(q2 / 256 == y / 16777216);
    assert(y < 16777216 * 256);
    lemma_div_is_ordered(y as int, 16777216 * 256 - 1, 16777216);
}

} // verus!
