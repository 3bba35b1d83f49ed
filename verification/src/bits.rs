//! Big-endian bit strings: reading single bits out of bytes, the value of an
//! 11-bit group, and the lemmas that let a value be taken apart again bit by
//! bit.

use vstd::prelude::*;
use vstd::arithmetic::power2::{lemma2_to64, lemma_pow2_unfold, pow2};
use vstd::arithmetic::div_mod::lemma_fundamental_div_mod_converse;

verus! {

/// Bit `k` of byte `b`, counting from the most significant bit down, as the
/// BIP39 bit stream does.
pub open spec fn byte_bit(b: u8, k: int) -> bool
    recommends
        0 <= k < 8,
{
    (b as nat) / pow2((7 - k) as nat) % 2 == 1
}

/// The value of a bit string read in big-endian order: the first bit is the
/// most significant.
pub open spec fn bits_value(bits: Seq<bool>) -> nat
    decreases bits.len(),
{
    if bits.len() == 0 {
        0
    } else {
        2 * bits_value(bits.drop_last()) + (if bits.last() {
            1nat
        } else {
            0nat
        })
    }
}

/// Appending a bit doubles the value and adds the new bit.
pub proof fn lemma_bits_value_push(s: Seq<bool>, b: bool)
    ensures
        bits_value(s.push(b)) == 2 * bits_value(s) + (if b {
            1nat
        } else {
            0nat
        }),
{
    assert(s.push(b).drop_last() =~= s);
    assert(s.push(b).last() == b);
}

/// A bit string of length `n` encodes a value below `pow2(n)`.
pub proof fn lemma_bits_value_bound(bits: Seq<bool>)
    ensures
        bits_value(bits) < pow2(bits.len()),
    decreases bits.len(),
{
    if bits.len() == 0 {
        lemma2_to64();
    } else {
        lemma_bits_value_bound(bits.drop_last());
        lemma_pow2_unfold(bits.len());
    }
}

/// The bit at position `t` (big-endian) can be recovered from the encoded
/// value by shifting and masking: dividing by `pow2(len - 1 - t)` and taking
/// the parity yields exactly the bit that went in.
pub proof fn lemma_bits_value_extract(bits: Seq<bool>, t: int)
    requires
        0 <= t < bits.len(),
    ensures
        bits_value(bits) / pow2((bits.len() - 1 - t) as nat) % 2 == (if bits[t] {
            1nat
        } else {
            0nat
        }),
    decreases bits.len(),
{
    let prefix = bits.drop_last();
    let v = bits_value(prefix) as int;
    let b: int = if bits.last() {
        1
    } else {
        0
    };
    if t == bits.len() - 1 {
        lemma2_to64();
        lemma_fundamental_div_mod_converse(2 * v + b, 2, v, b);
        assert(bits_value(bits) / pow2(0) == bits_value(bits));
    } else {
        let m = (bits.len() - 1 - t) as nat;
        lemma_pow2_unfold(m);
        vstd::arithmetic::power2::lemma_pow2_pos((m - 1) as nat);
        vstd::arithmetic::div_mod::lemma_div_denominator(
            2 * v + b,
            2,
            pow2((m - 1) as nat) as int,
        );
        lemma_fundamental_div_mod_converse(2 * v + b, 2, v, b);
        lemma_bits_value_extract(prefix, t);
        assert(prefix[t] == bits[t]);
    }
}

/// Exact value of `pow2` for each in-byte bit position.
pub fn pow2_u8(e: usize) -> (r: u8)
    requires
        e < 8,
    ensures
        r as nat == pow2(e as nat),
        r > 0,
{
    proof {
        lemma2_to64();
    }
    match e {
        0 => 1,
        1 => 2,
        2 => 4,
        3 => 8,
        4 => 16,
        5 => 32,
        6 => 64,
        _ => 128,
    }
}

/// Extracts bit `k` of a byte, most significant bit first; returns 0 or 1.
pub fn extract_bit(byte: u8, k: usize) -> (r: u8)
    requires
        k < 8,
    ensures
        r == (if byte_bit(byte, k as int) {
            1u8
        } else {
            0u8
        }),
{
    let p = pow2_u8(7 - k);
    (byte / p) % 2
}

} // verus!
