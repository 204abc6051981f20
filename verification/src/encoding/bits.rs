//! Mathematical model of bit sequences read most-significant bit first.
use vstd::prelude::*;
use vstd::arithmetic::power2::pow2;

verus! {

/// Bit `k` (0 is the most significant) of a byte.
pub open spec fn byte_bit(b: u8, k: int) -> bool {
    (b >> ((7 - k) as u8)) & 1u8 == 1u8
}

/// The bits of a byte sequence, most significant bit of each byte first.
pub open spec fn bytes_to_bits(bs: Seq<u8>) -> Seq<bool> {
    Seq::new(8 * bs.len(), |i: int| byte_bit(bs[i / 8], i % 8))
}

/// The unsigned big-endian value of a sequence of bits.
pub open spec fn bits_value(s: Seq<bool>) -> nat
    decreases s.len(),
{
    if s.len() == 0 {
        0
    } else {
        2 * bits_value(s.drop_last()) + if s.last() { 1nat } else { 0nat }
    }
}

/// The byte whose bits are the first eight of `s`, missing bits being zero.
pub open spec fn bits_to_byte(s: Seq<bool>) -> u8 {
    bits_value(Seq::new(8, |i: int| if i < s.len() { s[i] } else { false })) as u8
}

/// Appending a bit doubles the value and adds the bit.
pub proof fn lemma_bits_value_push(s: Seq<bool>, b: bool)
    ensures
        bits_value(s.push(b)) == 2 * bits_value(s) + if b { 1nat } else { 0nat },
{
    assert(s.push(b).drop_last() =~= s);
}

/// A value of `n` bits is below `2^n`.
pub proof fn lemma_bits_value_bound(s: Seq<bool>)
    ensures
        bits_value(s) < pow2(s.len()),
    decreases s.len(),
{
    if s.len() > 0 {
        lemma_bits_value_bound(s.drop_last());
        vstd::arithmetic::power2::lemma_pow2_unfold(s.len());
    } else {
        vstd::arithmetic::power2::lemma2_to64();
    }
}

/// Extending a subrange by one position pushes the next element.
pub proof fn lemma_subrange_push(s: Seq<bool>, a: int, b: int)
    requires
        0 <= a <= b < s.len(),
    ensures
        s.subrange(a, b + 1) == s.subrange(a, b).push(s[b]),
{
    assert(s.subrange(a, b + 1) =~= s.subrange(a, b).push(s[b]));
}

} // verus!
