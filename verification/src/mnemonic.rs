//! The one-shot pipeline: validate the strength, draw entropy, encode it as
//! a phrase.

use vstd::prelude::*;
use crate::encode::{encode, phrase_words};
use crate::entropy::generate_entropy;
use crate::error::Error;
use crate::strength::{spec_word_count, valid_strength};
use crate::wordlist::Language;

verus! {

/// Draws fresh OS entropy of the requested strength and encodes it. The
/// strength is validated before any entropy is drawn; on success the phrase
/// is exactly the BIP39 encoding of the returned entropy in the given
/// language.
pub fn generate_phrase(bits: usize, language: Language) -> (r: Result<
    (Vec<u8>, Vec<String>),
    Error,
>)
    ensures
        r is Ok <==> valid_strength(bits as nat),
        r matches Ok(out) ==> out.0@.len() * 8 == bits && out.1.deep_view() == phrase_words(
            language,
            out.0@,
        ) && out.1@.len() == spec_word_count(bits as nat),
        r is Err ==> r->Err_0 == Error::InvalidStrength,
{
    let entropy = match generate_entropy(bits) {
        Ok(entropy) => entropy,
        Err(e) => {
            return Err(e);
        },
    };
    match encode(&entropy, language) {
        Ok(words) => {
            proof {
                assert(words.deep_view().len() == words@.len());
                assert(8 * entropy@.len() == bits as nat);
            }
            Ok((entropy, words))
        },
        Err(e) => {
            proof {
                assert(false);
            }
            Err(e)
        },
    }
}

} // verus!
