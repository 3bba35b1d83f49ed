//! The supported wordlist languages and access to their fixed 2048-word
//! tables.

use vstd::prelude::*;

verus! {

/// A wordlist language supported by the engine.
#[derive(Clone, Copy, Debug, PartialEq, Eq, Structural)]
pub enum Language {
    English,
    SimplifiedChinese,
    TraditionalChinese,
    French,
    Italian,
    Japanese,
    Korean,
    Spanish,
    Czech,
    Portuguese,
}

/// The word at position `index` of a language's fixed 2048-word table.
pub uninterp spec fn word_at(lang: Language, index: int) -> Seq<char>;

/// A word belongs to a language's wordlist if it stands at some position of
/// the table.
pub open spec fn in_wordlist(lang: Language, word: Seq<char>) -> bool {
    exists|i: int| 0 <= i < 2048 && word_at(lang, i) == word
}

/// Relies on bip39::Language::word_list: the fixed per-language table of
/// exactly 2048 pairwise-distinct words; the entry depends on the language
/// and index alone, and no other position of the same table holds it.
#[verifier::external_body]
pub(crate) fn wordlist_word(language: Language, index: usize) -> (word: String)
    requires
        index < 2048,
    ensures
        word@ == word_at(language, index as int),
        forall|j: int| 0 <= j < 2048 && j != index ==> word_at(language, j) != word@,
{
    let list = match language {
        Language::English => bip39::Language::English.word_list(),
        Language::SimplifiedChinese => bip39::Language::SimplifiedChinese.word_list(),
        Language::TraditionalChinese => bip39::Language::TraditionalChinese.word_list(),
        Language::French => bip39::Language::French.word_list(),
        Language::Italian => bip39::Language::Italian.word_list(),
        Language::Japanese => bip39::Language::Japanese.word_list(),
        Language::Korean => bip39::Language::Korean.word_list(),
        Language::Spanish => bip39::Language::Spanish.word_list(),
        Language::Czech => bip39::Language::Czech.word_list(),
        Language::Portuguese => bip39::Language::Portuguese.word_list(),
    };
    list[index].to_owned()
}

/// Looks a word up by its table position; `None` exactly when the position
/// is outside the 2048-entry table. A returned word stands at no other
/// position of its table.
pub fn word_for_index(language: Language, index: usize) -> (r: Option<String>)
    ensures
        r is Some <==> index < 2048,
        r matches Some(w) ==> w@ == word_at(language, index as int) && (forall|j: int|
            0 <= j < 2048 && j != index ==> word_at(language, j) != w@),
{
    if index < 2048 {
        Some(wordlist_word(language, index))
    } else {
        None
    }
}

} // verus!
