//! Checksummed word encoding: entropy bits followed by the leading bits of
//! the entropy's SHA-256 digest, cut into 11-bit groups, each group an index
//! into the 2048-word table.

use vstd::prelude::*;
use vstd::arithmetic::power2::{lemma2_to64, pow2};
use crate::bits::{byte_bit, bits_value, extract_bit, lemma_bits_value_bound, lemma_bits_value_push, lemma_bits_value_extract};
use crate::digest::{sha256, sha256_of};
use crate::error::Error;
use crate::strength::{spec_word_count, valid_entropy_bytes};
use crate::wordlist::{in_wordlist, word_at, wordlist_word, Language};

verus! {

/// Bit `j` of the combined stream: the entropy's bits first, then the
/// digest's leading bits, each byte most significant bit first.
pub open spec fn stream_bit(entropy: Seq<u8>, digest: Seq<u8>, j: int) -> bool
    recommends
        0 <= j < 8 * entropy.len() + 8 * digest.len(),
{
    if j < 8 * entropy.len() {
        byte_bit(entropy[j / 8], j % 8)
    } else {
        let cj = j - 8 * entropy.len();
        byte_bit(digest[cj / 8], cj % 8)
    }
}

/// The 11 stream bits that make up word `i` of the phrase.
pub open spec fn word_index_bits(entropy: Seq<u8>, digest: Seq<u8>, i: int) -> Seq<bool> {
    Seq::new(11, |t: int| stream_bit(entropy, digest, 11 * i + t))
}

/// The wordlist index carried by word `i` of the phrase.
pub open spec fn word_index(entropy: Seq<u8>, digest: Seq<u8>, i: int) -> nat {
    bits_value(word_index_bits(entropy, digest, i))
}

/// The words of the phrase encoding `entropy` in `lang`: one wordlist entry
/// per 11-bit group of entropy-plus-checksum bits.
pub open spec fn phrase_words(lang: Language, entropy: Seq<u8>) -> Seq<Seq<char>> {
    Seq::new(
        spec_word_count(8 * entropy.len()),
        |i: int| word_at(lang, word_index(entropy, sha256_of(entropy), i) as int),
    )
}

/// Every word index fits the 2048-entry table.
pub proof fn lemma_word_index_bound(entropy: Seq<u8>, digest: Seq<u8>, i: int)
    ensures
        word_index(entropy, digest, i) < 2048,
{
    lemma_bits_value_bound(word_index_bits(entropy, digest, i));
    lemma2_to64();
}

/// Reads stream bit `j` out of the entropy and digest buffers.
fn stream_bit_exec(entropy: &Vec<u8>, digest: &Vec<u8>, j: usize) -> (r: u8)
    requires
        entropy@.len() <= 32,
        digest@.len() == 32,
        j < 8 * entropy@.len() + 8 * digest@.len(),
    ensures
        r == (if stream_bit(entropy@, digest@, j as int) {
            1u8
        } else {
            0u8
        }),
{
    let nb = entropy.len() * 8;
    if j < nb {
        assert(j / 8 < entropy@.len()) by (nonlinear_arith)
            requires
                j < 8 * entropy@.len(),
        ;
        extract_bit(entropy[j / 8], j % 8)
    } else {
        let cj = j - nb;
        assert(cj / 8 < digest@.len()) by (nonlinear_arith)
            requires
                cj < 8 * digest@.len(),
        ;
        extract_bit(digest[cj / 8], cj % 8)
    }
}

/// Computes the word indices for an entropy buffer and its digest: the
/// combined bit stream cut into 11-bit big-endian groups.
fn compute_indices(entropy: &Vec<u8>, digest: &Vec<u8>) -> (r: Vec<u16>)
    requires
        valid_entropy_bytes(entropy@.len()),
        digest@.len() == 32,
    ensures
        r@.len() == spec_word_count(8 * entropy@.len()),
        forall|i: int|
            0 <= i < r@.len() ==> r@[i] as nat == word_index(entropy@, digest@, i) && r@[i]
                < 2048,
{
    let n = entropy.len();
    let total_bits = n * 8 + n / 4;
    let n_words = total_bits / 11;
    assert(n_words == spec_word_count(8 * entropy@.len()));
    assert(11 * n_words == total_bits);
    let mut out: Vec<u16> = Vec::new();
    let mut i: usize = 0;
    while i < n_words
        invariant
            valid_entropy_bytes(entropy@.len()),
            digest@.len() == 32,
            n == entropy@.len(),
            total_bits == 8 * n + n / 4,
            11 * n_words == total_bits,
            i <= n_words,
            out@.len() == i,
            forall|k: int|
                0 <= k < i ==> out@[k] as nat == word_index(entropy@, digest@, k) && out@[k]
                    < 2048,
        decreases n_words - i,
    {
        let ghost group = word_index_bits(entropy@, digest@, i as int);
        let mut acc: u16 = 0;
        let mut t: usize = 0;
        proof {
            lemma2_to64();
            assert(group.take(0) =~= Seq::<bool>::empty());
        }
        while t < 11
            invariant
                valid_entropy_bytes(entropy@.len()),
                digest@.len() == 32,
                n == entropy@.len(),
                total_bits == 8 * n + n / 4,
                11 * n_words == total_bits,
                i < n_words,
                t <= 11,
                group == word_index_bits(entropy@, digest@, i as int),
                acc as nat == bits_value(group.take(t as int)),
                (acc as nat) < pow2(t as nat),
            decreases 11 - t,
        {
            let j = 11 * i + t;
            assert(j < total_bits);
            let b = stream_bit_exec(entropy, digest, j);
            proof {
                lemma_bits_value_push(group.take(t as int), group[t as int]);
                assert(group.take(t + 1) =~= group.take(t as int).push(group[t as int]));
                lemma2_to64();
                vstd::arithmetic::power2::lemma_pow2_unfold((t + 1) as nat);
                lemma_bits_value_bound(group.take(t + 1));
            }
            acc = acc * 2 + b as u16;
            t = t + 1;
        }
        proof {
            assert(group.take(11) =~= group);
            lemma_word_index_bound(entropy@, digest@, i as int);
        }
        out.push(acc);
        i = i + 1;
    }
    out
}

/// Encodes entropy as a mnemonic phrase in the given language. Succeeds
/// exactly on the legal entropy lengths; the result is the fixed sequence of
/// wordlist entries determined by the entropy and its SHA-256 checksum.
pub fn encode(entropy: &Vec<u8>, language: Language) -> (r: Result<Vec<String>, Error>)
    ensures
        r is Ok <==> valid_entropy_bytes(entropy@.len()),
        r matches Ok(words) ==> words.deep_view() == phrase_words(language, entropy@),
        r is Err ==> r->Err_0 == Error::InvalidEntropyLength,
{
    let n = entropy.len();
    if !(n == 16 || n == 20 || n == 24 || n == 28 || n == 32) {
        return Err(Error::InvalidEntropyLength);
    }
    let digest = sha256(entropy);
    let indices = compute_indices(entropy, &digest);
    let mut words: Vec<String> = Vec::new();
    let mut i: usize = 0;
    while i < indices.len()
        invariant
            indices@.len() == spec_word_count(8 * entropy@.len()),
            forall|k: int|
                0 <= k < indices@.len() ==> indices@[k] as nat == word_index(
                    entropy@,
                    sha256_of(entropy@),
                    k,
                ) && indices@[k] < 2048,
            i <= indices@.len(),
            words@.len() == i,
            forall|k: int|
                0 <= k < i ==> words@[k]@ == word_at(
                    language,
                    word_index(entropy@, sha256_of(entropy@), k) as int,
                ),
        decreases indices@.len() - i,
    {
        let idx = indices[i];
        let word = wordlist_word(language, idx as usize);
        words.push(word);
        i = i + 1;
    }
    assert(words.deep_view() =~= phrase_words(language, entropy@));
    Ok(words)
}

/// Bit `t` (big-endian, of 11) of a word's index value.
pub open spec fn index_bit(value: nat, t: int) -> bool
    recommends
        0 <= t < 11,
{
    value / pow2((10 - t) as nat) % 2 == 1
}

/// Stream bit `j` as recovered from the phrase's word indices alone.
pub open spec fn recovered_stream_bit(entropy: Seq<u8>, j: int) -> bool {
    index_bit(word_index(entropy, sha256_of(entropy), j / 11), j % 11)
}

/// Each stream bit can be read back out of the word index that carries it.
pub proof fn lemma_word_bits_recoverable(entropy: Seq<u8>, digest: Seq<u8>, j: int)
    requires
        0 <= j,
    ensures
        index_bit(word_index(entropy, digest, j / 11), j % 11) == stream_bit(entropy, digest, j),
{
    let i = j / 11;
    let t = j % 11;
    vstd::arithmetic::div_mod::lemma_fundamental_div_mod(j, 11);
    vstd::arithmetic::div_mod::lemma_mod_pos_bound(j, 11);
    let group = word_index_bits(entropy, digest, i);
    lemma_bits_value_extract(group, t);
    assert(group[t] == stream_bit(entropy, digest, 11 * i + t));
    assert(11 * i + t == j);
}

/// Round trip of the checksum: the trailing bits carried by the phrase's
/// last word(s) are exactly the leading bits of the entropy's SHA-256
/// digest, so the checksum can be recomputed from the leading bits and
/// compared against what the phrase carries.
pub proof fn lemma_checksum_round_trip(entropy: Seq<u8>)
    requires
        valid_entropy_bytes(entropy.len()),
    ensures
        forall|j: int|
            8 * entropy.len() <= j < 8 * entropy.len() + entropy.len() / 4
                ==> #[trigger] recovered_stream_bit(entropy, j) == byte_bit(
                sha256_of(entropy)[(j - 8 * entropy.len()) / 8],
                (j - 8 * entropy.len()) % 8,
            ),
{
    let digest = sha256_of(entropy);
    assert forall|j: int|
        8 * entropy.len() <= j < 8 * entropy.len() + entropy.len() / 4 implies #[trigger] recovered_stream_bit(
        entropy,
        j,
    ) == byte_bit(digest[(j - 8 * entropy.len()) / 8], (j - 8 * entropy.len()) % 8) by {
        lemma_word_bits_recoverable(entropy, digest, j);
    }
}

/// Round trip of the entropy: the leading stream bits carried by the phrase
/// are exactly the entropy's own bits.
pub proof fn lemma_entropy_round_trip(entropy: Seq<u8>)
    requires
        valid_entropy_bytes(entropy.len()),
    ensures
        forall|j: int|
            0 <= j < 8 * entropy.len() ==> #[trigger] recovered_stream_bit(entropy, j) == byte_bit(
                entropy[j / 8],
                j % 8,
            ),
{
    let digest = sha256_of(entropy);
    assert forall|j: int| 0 <= j < 8 * entropy.len() implies #[trigger] recovered_stream_bit(
        entropy,
        j,
    ) == byte_bit(entropy[j / 8], j % 8) by {
        lemma_word_bits_recoverable(entropy, digest, j);
    }
}

/// The encoding is deterministic: the same entropy and language always name
/// the same phrase.
pub proof fn lemma_encode_deterministic(
    lang1: Language,
    entropy1: Seq<u8>,
    lang2: Language,
    entropy2: Seq<u8>,
)
    requires
        lang1 == lang2,
        entropy1 == entropy2,
    ensures
        phrase_words(lang1, entropy1) == phrase_words(lang2, entropy2),
{
}

/// Every word of an encoded phrase belongs to the selected language's
/// 2048-word table.
pub proof fn lemma_phrase_words_in_wordlist(lang: Language, entropy: Seq<u8>)
    ensures
        forall|i: int|
            0 <= i < phrase_words(lang, entropy).len() ==> in_wordlist(
                lang,
                phrase_words(lang, entropy)[i],
            ),
{
    let ws = phrase_words(lang, entropy);
    assert forall|i: int| 0 <= i < ws.len() implies in_wordlist(lang, ws[i]) by {
        lemma_word_index_bound(entropy, sha256_of(entropy), i);
        let idx = word_index(entropy, sha256_of(entropy), i) as int;
        assert(0 <= idx < 2048 && word_at(lang, idx) == ws[i]);
    }
}

} // verus!
