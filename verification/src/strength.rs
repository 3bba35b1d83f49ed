//! Entropy strength selection: the five legal BIP39 bit strengths, the
//! word-count formula, and validation of user-supplied counts.

use vstd::prelude::*;
use vstd::string::{StrSliceExecFns, StringSliceAdditionalSpecFns};

verus! {

/// An ASCII decimal digit.
pub open spec fn is_digit(b: u8) -> bool {
    48 <= b && b <= 57
}

/// The digits of a number written in decimal, after an optional leading
/// plus sign.
pub open spec fn dec_digits(s: Seq<u8>) -> Seq<u8> {
    if s.len() > 0 && s[0] == 43 {
        s.drop_first()
    } else {
        s
    }
}

/// A nonempty, all-digit byte string.
pub open spec fn is_dec_string(s: Seq<u8>) -> bool {
    s.len() > 0 && forall|i: int| 0 <= i < s.len() ==> is_digit(#[trigger] s[i])
}

/// The value of a decimal digit string, most significant digit first.
pub open spec fn digits_value(s: Seq<u8>) -> nat
    recommends
        forall|i: int| 0 <= i < s.len() ==> is_digit(#[trigger] s[i]),
    decreases s.len(),
{
    if s.len() == 0 {
        0
    } else {
        10 * digits_value(s.drop_last()) + ((s.last() - 48) as nat)
    }
}

/// What a byte string parses to as an unsigned number, if anything: the
/// decimal value of its digits, accepting one leading plus sign, rejecting
/// anything else and any value beyond `usize::MAX`.
pub open spec fn spec_parsed_usize(s: Seq<u8>) -> Option<nat> {
    if is_dec_string(dec_digits(s)) && digits_value(dec_digits(s)) <= usize::MAX {
        Some(digits_value(dec_digits(s)))
    } else {
        None
    }
}

/// Appending a digit multiplies the value by ten and adds the digit.
proof fn lemma_digits_value_push(s: Seq<u8>, b: u8)
    requires
        is_digit(b),
    ensures
        digits_value(s.push(b)) == 10 * digits_value(s) + (b - 48),
{
    assert(s.push(b).drop_last() =~= s);
    assert(s.push(b).last() == b);
}

/// The value of a digit string is at least the value of any of its
/// prefixes.
proof fn lemma_digits_value_prefix(s: Seq<u8>, k: int)
    requires
        0 <= k <= s.len(),
    ensures
        digits_value(s.take(k)) <= digits_value(s),
    decreases s.len(),
{
    if k < s.len() {
        lemma_digits_value_prefix(s.drop_last(), k);
        assert(s.drop_last().take(k) =~= s.take(k));
    } else {
        assert(s.take(k) =~= s);
    }
}

/// Parses a decimal `usize` as the standard library does for unsigned
/// numbers: optional leading plus, then one or more digits, no larger than
/// `usize::MAX`.
pub fn parse_usize(s: &str) -> (r: Option<usize>)
    ensures
        r is Some <==> spec_parsed_usize(s.spec_bytes()) is Some,
        r matches Some(v) ==> spec_parsed_usize(s.spec_bytes()) == Some(v as nat),
{
    let bytes = s.as_bytes_vec();
    let ghost digits = dec_digits(bytes@);
    let start: usize = if bytes.len() > 0 && bytes[0] == 43 {
        1
    } else {
        0
    };
    proof {
        assert(digits =~= bytes@.subrange(start as int, bytes@.len() as int));
    }
    if bytes.len() == start {
        return None;
    }
    let mut acc: usize = 0;
    let mut i: usize = start;
    while i < bytes.len()
        invariant
            bytes@ == s.spec_bytes(),
            start <= i <= bytes@.len(),
            start <= 1,
            digits == dec_digits(bytes@),
            digits == bytes@.subrange(start as int, bytes@.len() as int),
            digits.len() == bytes@.len() - start,
            forall|k: int| start <= k < i ==> is_digit(#[trigger] bytes@[k]),
            acc as nat == digits_value(digits.take(i - start)),
        decreases bytes@.len() - i,
    {
        let b = bytes[i];
        if b < 48 || b > 57 {
            proof {
                assert(digits[i - start] == bytes@[i as int]);
                assert(!is_digit(digits[i - start]));
            }
            return None;
        }
        proof {
            lemma_digits_value_push(digits.take(i - start), bytes@[i as int]);
            assert(digits.take(i - start + 1) =~= digits.take(i - start).push(
                bytes@[i as int],
            ));
        }
        let shifted = match acc.checked_mul(10) {
            Some(v) => v,
            None => {
                proof {
                    lemma_digits_value_prefix(digits, i - start + 1);
                }
                return None;
            },
        };
        let next = match shifted.checked_add((b - 48) as usize) {
            Some(v) => v,
            None => {
                proof {
                    lemma_digits_value_prefix(digits, i - start + 1);
                }
                return None;
            },
        };
        acc = next;
        i = i + 1;
    }
    proof {
        assert(digits.take(i - start) =~= digits);
    }
    Some(acc)
}

/// The legal BIP39 entropy strengths, in bits.
pub open spec fn valid_strength(bits: nat) -> bool {
    bits == 128 || bits == 160 || bits == 192 || bits == 224 || bits == 256
}

/// The legal entropy lengths, in bytes (strength / 8).
pub open spec fn valid_entropy_bytes(n: nat) -> bool {
    n == 16 || n == 20 || n == 24 || n == 28 || n == 32
}

/// Number of mnemonic words for a strength: checksum adds bits/32 bits and
/// each word carries 11 bits.
pub open spec fn spec_word_count(bits: nat) -> nat {
    (bits + bits / 32) / 11
}

/// Word count for an entropy bit strength: (bits + bits/32) / 11.
pub fn bits_to_word_count(bits: usize) -> (count: usize)
    requires
        bits + bits / 32 <= usize::MAX,
    ensures
        count == spec_word_count(bits as nat),
{
    let checksum_bits = bits / 32;
    (bits + checksum_bits) / 11
}

/// Accepts exactly the strings that parse to a legal word count: 12 or 24.
pub fn validate_words(s: &str) -> (r: Result<usize, String>)
    ensures
        r is Ok <==> (spec_parsed_usize(s.spec_bytes()) == Some(12nat) || spec_parsed_usize(
            s.spec_bytes(),
        ) == Some(24nat)),
        r matches Ok(w) ==> spec_parsed_usize(s.spec_bytes()) == Some(w as nat),
        r is Err && spec_parsed_usize(s.spec_bytes()) is None ==> r->Err_0@
            == "Word count must be a valid number"@,
        r is Err && spec_parsed_usize(s.spec_bytes()) is Some ==> r->Err_0@
            == "word count must be either 12 or 24. use 12 for good security or 24 for maximum security."@,
{
    match parse_usize(s) {
        None => Err("Word count must be a valid number".to_owned()),
        Some(words) => {
            if words == 12 || words == 24 {
                Ok(words)
            } else {
                Err(
                    "word count must be either 12 or 24. use 12 for good security or 24 for maximum security.".to_owned(),
                )
            }
        },
    }
}

/// Accepts exactly the strings that parse to a legal bit strength.
pub fn validate_bits(s: &str) -> (r: Result<usize, String>)
    ensures
        r is Ok <==> (spec_parsed_usize(s.spec_bytes()) matches Some(v) && valid_strength(v)),
        r matches Ok(b) ==> spec_parsed_usize(s.spec_bytes()) == Some(b as nat),
        r is Err && spec_parsed_usize(s.spec_bytes()) is None ==> r->Err_0@
            == "bits must be a valid number"@,
        r is Err && spec_parsed_usize(s.spec_bytes()) is Some ==> r->Err_0@
            == "Bits must be one of: 128, 160, 192, 224, or 256"@,
{
    match parse_usize(s) {
        None => Err("bits must be a valid number".to_owned()),
        Some(bits) => {
            if bits == 128 || bits == 160 || bits == 192 || bits == 224 || bits == 256 {
                Ok(bits)
            } else {
                Err("Bits must be one of: 128, 160, 192, 224, or 256".to_owned())
            }
        },
    }
}

/// The bit strength bought by a legal word count: 12 words carry 128 bits
/// of entropy, 24 words 256.
pub fn words_to_bits(words: usize) -> (bits: usize)
    requires
        words == 12 || words == 24,
    ensures
        words == 12 ==> bits == 128,
        words == 24 ==> bits == 256,
{
    if words == 12 {
        128
    } else {
        256
    }
}

/// Every legal strength maps to its fixed word count.
pub proof fn lemma_word_count_table()
    ensures
        spec_word_count(128) == 12,
        spec_word_count(160) == 15,
        spec_word_count(192) == 18,
        spec_word_count(224) == 21,
        spec_word_count(256) == 24,
{
}

} // verus!
