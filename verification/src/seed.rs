//! Deriving the 64-byte master seed from a phrase and a passphrase, and the
//! passphrase confirmation step that guards it.

use vstd::prelude::*;
use crate::entropy::wipe_string;
use crate::error::Error;
use crate::wordlist::Language;

verus! {

/// The space-joined form of a phrase's words.
pub open spec fn join_spec(words: Seq<Seq<char>>) -> Seq<char>
    decreases words.len(),
{
    if words.len() == 0 {
        Seq::empty()
    } else if words.len() == 1 {
        words[0]
    } else {
        join_spec(words.drop_last()) + " "@ + words.last()
    }
}

/// Joins a phrase's words with single spaces.
pub fn join_words(words: &Vec<String>) -> (r: String)
    ensures
        r@ == join_spec(words.deep_view()),
{
    let mut joined = String::new();
    let mut i: usize = 0;
    while i < words.len()
        invariant
            i <= words@.len(),
            joined@ == join_spec(words.deep_view().take(i as int)),
        decreases words@.len() - i,
    {
        if i > 0 {
            joined.append(" ");
        }
        joined.append(words[i].as_str());
        proof {
            let dv = words.deep_view();
            assert(dv.take(i + 1).drop_last() =~= dv.take(i as int));
            assert(dv.take(i + 1).last() == dv[i as int]);
            if i == 0 {
                assert(join_spec(dv.take(1)) == dv[0]);
            }
        }
        i = i + 1;
    }
    proof {
        assert(words.deep_view().take(words@.len() as int) =~= words.deep_view());
    }
    joined
}

/// The 64-byte seed that BIP39 assigns to a phrase string and a passphrase:
/// PBKDF2-HMAC-SHA512, 2048 rounds, salt "mnemonic" plus the passphrase,
/// both NFKD-normalized.
pub uninterp spec fn seed_of(phrase: Seq<char>, passphrase: Seq<char>) -> Seq<u8>;

/// Whether a phrase string is a valid mnemonic of a language: a legal word
/// count, every whitespace-separated word in the language's table, and the
/// trailing checksum bits matching the words' entropy bits. A function of
/// the language and the string alone.
pub uninterp spec fn mnemonic_valid(lang: Language, phrase: Seq<char>) -> bool;

/// Relies on bip39::Mnemonic::parse_in_normalized and Mnemonic::to_seed:
/// parsing succeeds exactly on the valid mnemonics of the language (word
/// count, table membership, checksum — all functions of the arguments
/// alone), and the seed of a parsed mnemonic is the PBKDF2-HMAC-SHA512
/// value determined by the phrase string and the passphrase alone.
#[verifier::external_body]
fn bip39_seed(language: Language, phrase: &str, passphrase: &str) -> (r: Option<Vec<u8>>)
    ensures
        r is Some <==> mnemonic_valid(language, phrase@),
        r matches Some(seed) ==> seed@ == seed_of(phrase@, passphrase@) && seed@.len() == 64,
{
    let lang = match language {
        Language::English => bip39::Language::English,
        Language::SimplifiedChinese => bip39::Language::SimplifiedChinese,
        Language::TraditionalChinese => bip39::Language::TraditionalChinese,
        Language::French => bip39::Language::French,
        Language::Italian => bip39::Language::Italian,
        Language::Japanese => bip39::Language::Japanese,
        Language::Korean => bip39::Language::Korean,
        Language::Spanish => bip39::Language::Spanish,
        Language::Czech => bip39::Language::Czech,
        Language::Portuguese => bip39::Language::Portuguese,
    };
    let parsed = bip39::Mnemonic::parse_in_normalized(lang, phrase).ok();
    parsed.map(|m| m.to_seed(passphrase).to_vec())
}

/// Derives the 64-byte master seed for a phrase and a passphrase. The seed
/// is a pure function of the space-joined phrase and the passphrase, and
/// derivation succeeds exactly when that string is a valid mnemonic of the
/// language. The joined phrase string is wiped before returning.
pub fn derive_seed(language: Language, phrase: &Vec<String>, passphrase: &str) -> (r: Result<
    Vec<u8>,
    Error,
>)
    ensures
        r is Ok <==> mnemonic_valid(language, join_spec(phrase.deep_view())),
        r matches Ok(seed) ==> seed@ == seed_of(join_spec(phrase.deep_view()), passphrase@)
            && seed@.len() == 64,
        r is Err ==> r->Err_0 == Error::MnemonicEncodingFailure,
{
    let mut joined = join_words(phrase);
    let derived = bip39_seed(language, joined.as_str(), passphrase);
    wipe_string(&mut joined);
    match derived {
        Some(seed) => Ok(seed),
        None => Err(Error::MnemonicEncodingFailure),
    }
}

/// Seed derivation is deterministic: equal phrases and equal passphrases
/// always name the same seed.
pub proof fn lemma_derive_seed_deterministic(
    phrase1: Seq<char>,
    passphrase1: Seq<char>,
    phrase2: Seq<char>,
    passphrase2: Seq<char>,
)
    requires
        phrase1 == phrase2,
        passphrase1 == passphrase2,
    ensures
        seed_of(phrase1, passphrase1) == seed_of(phrase2, passphrase2),
{
}

/// Checks the double entry of a passphrase. Accepts exactly when the two
/// entries are equal; on a mismatch no seed can be derived from the result.
pub fn confirm_passphrase(pass: &String, confirm: &String) -> (r: Result<(), Error>)
    ensures
        r is Ok <==> pass@ == confirm@,
        r is Err ==> r->Err_0 == Error::PassphraseMismatch,
{
    if pass.eq(confirm) {
        Ok(())
    } else {
        Err(Error::PassphraseMismatch)
    }
}

} // verus!
