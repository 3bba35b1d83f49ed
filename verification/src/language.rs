//! Mapping user-supplied language codes to wordlist languages, ignoring
//! ASCII case, and the display name of each language.

use vstd::prelude::*;
use vstd::string::StrSliceExecFns;
use crate::wordlist::Language;

verus! {

/// The code point of a character with ASCII upper case folded to lower
/// case.
pub open spec fn lower_code(c: char) -> int {
    if 65 <= c as u32 && c as u32 <= 90 {
        c as u32 + 32
    } else {
        c as u32 as int
    }
}

/// A string equals a (lower-case) code after ASCII lower-casing.
pub open spec fn lower_eq(s: Seq<char>, code: Seq<char>) -> bool {
    s.len() == code.len() && forall|i: int|
        0 <= i < s.len() ==> lower_code(s[i]) == code[i] as u32
}

/// Compares a string against a code, folding ASCII upper case.
fn matches_code(s: &str, code: &str) -> (r: bool)
    ensures
        r == lower_eq(s@, code@),
{
    let n = s.unicode_len();
    if n != code.unicode_len() {
        return false;
    }
    let mut i: usize = 0;
    while i < n
        invariant
            n == s@.len(),
            s@.len() == code@.len(),
            i <= n,
            forall|k: int| 0 <= k < i ==> lower_code(s@[k]) == code@[k] as u32,
        decreases n - i,
    {
        let a = s.get_char(i);
        let b = code.get_char(i);
        let ac = a as u32;
        let la: u32 = if ac >= 65 && ac <= 90 {
            ac + 32
        } else {
            ac
        };
        if la != b as u32 {
            return false;
        }
        i = i + 1;
    }
    true
}

/// Parses a language code, ignoring ASCII case. Each language is named by
/// its full name or its short code(s); anything else is rejected without
/// touching any entropy source.
pub fn parse_language(s: &str) -> (r: Result<Language, String>)
    ensures
        (r matches Ok(l) && l == Language::English) <==> (lower_eq(s@, "english"@) || lower_eq(
            s@,
            "en"@,
        )),
        (r matches Ok(l) && l == Language::SimplifiedChinese) <==> (lower_eq(
            s@,
            "chinese-simplified"@,
        ) || lower_eq(s@, "cn"@) || lower_eq(s@, "zh-cn"@)),
        (r matches Ok(l) && l == Language::TraditionalChinese) <==> (lower_eq(
            s@,
            "chinese-traditional"@,
        ) || lower_eq(s@, "tw"@) || lower_eq(s@, "zh-tw"@)),
        (r matches Ok(l) && l == Language::French) <==> (lower_eq(s@, "french"@) || lower_eq(
            s@,
            "fr"@,
        )),
        (r matches Ok(l) && l == Language::Italian) <==> (lower_eq(s@, "italian"@) || lower_eq(
            s@,
            "it"@,
        )),
        (r matches Ok(l) && l == Language::Japanese) <==> (lower_eq(s@, "japanese"@) || lower_eq(
            s@,
            "ja"@,
        ) || lower_eq(s@, "jp"@)),
        (r matches Ok(l) && l == Language::Korean) <==> (lower_eq(s@, "korean"@) || lower_eq(
            s@,
            "ko"@,
        ) || lower_eq(s@, "kr"@)),
        (r matches Ok(l) && l == Language::Spanish) <==> (lower_eq(s@, "spanish"@) || lower_eq(
            s@,
            "es"@,
        )),
        (r matches Ok(l) && l == Language::Czech) <==> (lower_eq(s@, "czech"@) || lower_eq(
            s@,
            "cs"@,
        )),
        (r matches Ok(l) && l == Language::Portuguese) <==> (lower_eq(s@, "portuguese"@)
            || lower_eq(s@, "pt"@)),
        r is Err ==> r->Err_0@ == "unsupported language. use --list to see available options."@,
{
    proof {
        reveal_strlit("english");
        reveal_strlit("en");
        reveal_strlit("chinese-simplified");
        reveal_strlit("cn");
        reveal_strlit("zh-cn");
        reveal_strlit("chinese-traditional");
        reveal_strlit("tw");
        reveal_strlit("zh-tw");
        reveal_strlit("french");
        reveal_strlit("fr");
        reveal_strlit("italian");
        reveal_strlit("it");
        reveal_strlit("japanese");
        reveal_strlit("ja");
        reveal_strlit("jp");
        reveal_strlit("korean");
        reveal_strlit("ko");
        reveal_strlit("kr");
        reveal_strlit("spanish");
        reveal_strlit("es");
        reveal_strlit("czech");
        reveal_strlit("cs");
        reveal_strlit("portuguese");
        reveal_strlit("pt");
        // Two codes of equal length always differ at position 0, 1 or 3;
        // naming the lowered characters there lets the solver compare the
        // matched code against every other one.
        if s@.len() > 0 {
            let seed0 = lower_code(s@[0]);
            if s@.len() > 1 {
                let seed1 = lower_code(s@[1]);
            }
            if s@.len() > 3 {
                let seed3 = lower_code(s@[3]);
            }
        }
    }
    if matches_code(s, "english") || matches_code(s, "en") {
        Ok(Language::English)
    } else if matches_code(s, "chinese-simplified") || matches_code(s, "cn") || matches_code(
        s,
        "zh-cn",
    ) {
        Ok(Language::SimplifiedChinese)
    } else if matches_code(s, "chinese-traditional") || matches_code(s, "tw") || matches_code(
        s,
        "zh-tw",
    ) {
        Ok(Language::TraditionalChinese)
    } else if matches_code(s, "french") || matches_code(s, "fr") {
        Ok(Language::French)
    } else if matches_code(s, "italian") || matches_code(s, "it") {
        Ok(Language::Italian)
    } else if matches_code(s, "japanese") || matches_code(s, "ja") || matches_code(s, "jp") {
        Ok(Language::Japanese)
    } else if matches_code(s, "korean") || matches_code(s, "ko") || matches_code(s, "kr") {
        Ok(Language::Korean)
    } else if matches_code(s, "spanish") || matches_code(s, "es") {
        Ok(Language::Spanish)
    } else if matches_code(s, "czech") || matches_code(s, "cs") {
        Ok(Language::Czech)
    } else if matches_code(s, "portuguese") || matches_code(s, "pt") {
        Ok(Language::Portuguese)
    } else {
        Err("unsupported language. use --list to see available options.".to_owned())
    }
}

/// The canonical display name of a language.
pub fn language_display_name(language: Language) -> (r: &'static str)
    ensures
        language == Language::English ==> r@ == "english"@,
        language == Language::SimplifiedChinese ==> r@ == "chinese-simplified"@,
        language == Language::TraditionalChinese ==> r@ == "chinese-traditional"@,
        language == Language::French ==> r@ == "french"@,
        language == Language::Italian ==> r@ == "italian"@,
        language == Language::Japanese ==> r@ == "japanese"@,
        language == Language::Korean ==> r@ == "korean"@,
        language == Language::Spanish ==> r@ == "spanish"@,
        language == Language::Czech ==> r@ == "czech"@,
        language == Language::Portuguese ==> r@ == "portuguese"@,
{
    match language {
        Language::English => "english",
        Language::SimplifiedChinese => "chinese-simplified",
        Language::TraditionalChinese => "chinese-traditional",
        Language::French => "french",
        Language::Italian => "italian",
        Language::Japanese => "japanese",
        Language::Korean => "korean",
        Language::Spanish => "spanish",
        Language::Czech => "czech",
        Language::Portuguese => "portuguese",
    }
}

} // verus!
