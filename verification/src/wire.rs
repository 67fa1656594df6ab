//! Little-endian integers in byte sequences, as the gzip and Cap'n Proto
//! stream formats write them.

use vstd::arithmetic::div_mod::{
    lemma_div_denominator, lemma_div_is_ordered, lemma_fundamental_div_mod, lemma_small_mod,
};
use vstd::prelude::*;

verus! {

/// The little-endian 16-bit integer at `at`.
pub open spec fn u16_le(data: Seq<u8>, at: int) -> nat {
    (data[at] as nat) + 256 * (data[at + 1] as nat)
}

/// The little-endian 32-bit integer at `at`.
pub open spec fn u32_le(data: Seq<u8>, at: int) -> nat {
    (data[at] as nat) + 256 * (data[at + 1] as nat) + 65536 * (data[at + 2] as nat) + 16777216 * (
    data[at + 3] as nat)
}

/// The two bytes that write `x` (below 2^16) little-endian.
pub open spec fn le16(x: nat) -> Seq<u8> {
    seq![(x % 256) as u8, ((x / 256) % 256) as u8]
}

/// The four bytes that write `x` (below 2^32) little-endian.
pub open spec fn le32(x: nat) -> Seq<u8> {
    seq![
        (x % 256) as u8,
        ((x / 256) % 256) as u8,
        ((x / 65536) % 256) as u8,
        ((x / 16777216) % 256) as u8,
    ]
}

/// Reading back what `le16` wrote gives the number.
pub proof fn lemma_le16(x: nat)
    requires
        x < 65536,
    ensures
        le16(x).len() == 2,
        u16_le(le16(x), 0) == x,
{
    lemma_fundamental_div_mod(x as int, 256);
    lemma_div_is_ordered(x as int, 65535, 256);
    lemma_small_mod(x / 256, 256);
}

/// Reading back what `le32` wrote gives the number.
pub proof fn lemma_le32(x: nat)
    requires
        x < 0x1_0000_0000,
    ensures
        le32(x).len() == 4,
        u32_le(le32(x), 0) == x,
{
    let q1 = x / 256;
    let q2 = q1 / 256;
    let q3 = q2 / 256;
    lemma_fundamental_div_mod(x as int, 256);
    lemma_fundamental_div_mod(q1 as int, 256);
    lemma_fundamental_div_mod(q2 as int, 256);
    lemma_div_denominator(x as int, 256, 256);
    lemma_div_denominator(x as int, 65536, 256);
    lemma_div_is_ordered(x as int, 0xffff_ffff, 16777216);
    lemma_small_mod(q3, 256);
    assert(le32(x) =~= seq![(x % 256) as u8, (q1 % 256) as u8, (q2 % 256) as u8, q3 as u8]);
}

} // verus!
