//! Tests for input validation: word counts, bit strengths, language codes,
//! error diagnostics and the entropy-source quality check.

use s33d::entropy::{verify_entropy_quality, EntropyQuality};
use s33d::error::Error;
use s33d::language::{language_display_name, parse_language};
use s33d::strength::{parse_usize, validate_bits, validate_words, words_to_bits};
use s33d::wordlist::Language;

#[test]
fn validate_words_accepts_legal_counts() {
    assert_eq!(validate_words("12").unwrap(), 12);
    assert_eq!(validate_words("24").unwrap(), 24);
    assert_eq!(validate_words("+12").unwrap(), 12);
}

#[test]
fn validate_words_rejects_other_counts() {
    assert_eq!(
        validate_words("18").unwrap_err(),
        "word count must be either 12 or 24. use 12 for good security or 24 for maximum security."
    );
    assert_eq!(validate_words("abc").unwrap_err(), "Word count must be a valid number");
    assert_eq!(validate_words("").unwrap_err(), "Word count must be a valid number");
    assert_eq!(validate_words("12a").unwrap_err(), "Word count must be a valid number");
    assert_eq!(validate_words("-12").unwrap_err(), "Word count must be a valid number");
}

#[test]
fn validate_bits_accepts_legal_strengths() {
    assert_eq!(validate_bits("128").unwrap(), 128);
    assert_eq!(validate_bits("160").unwrap(), 160);
    assert_eq!(validate_bits("192").unwrap(), 192);
    assert_eq!(validate_bits("224").unwrap(), 224);
    assert_eq!(validate_bits("256").unwrap(), 256);
}

#[test]
fn validate_bits_rejects_other_strengths() {
    assert_eq!(
        validate_bits("100").unwrap_err(),
        "Bits must be one of: 128, 160, 192, 224, or 256"
    );
    assert_eq!(validate_bits("bits").unwrap_err(), "bits must be a valid number");
}

#[test]
fn parse_usize_handles_edges() {
    assert_eq!(parse_usize("0"), Some(0));
    assert_eq!(parse_usize("007"), Some(7));
    assert_eq!(parse_usize("+42"), Some(42));
    assert_eq!(parse_usize("+"), None);
    assert_eq!(parse_usize(""), None);
    assert_eq!(parse_usize("4 2"), None);
    assert_eq!(parse_usize("99999999999999999999999999999999"), None);
}

#[test]
fn words_to_bits_table() {
    assert_eq!(words_to_bits(12), 128);
    assert_eq!(words_to_bits(24), 256);
}

#[test]
fn parse_language_full_names() {
    assert_eq!(parse_language("english").unwrap(), Language::English);
    assert_eq!(parse_language("chinese-simplified").unwrap(), Language::SimplifiedChinese);
    assert_eq!(parse_language("chinese-traditional").unwrap(), Language::TraditionalChinese);
    assert_eq!(parse_language("french").unwrap(), Language::French);
    assert_eq!(parse_language("italian").unwrap(), Language::Italian);
    assert_eq!(parse_language("japanese").unwrap(), Language::Japanese);
    assert_eq!(parse_language("korean").unwrap(), Language::Korean);
    assert_eq!(parse_language("spanish").unwrap(), Language::Spanish);
    assert_eq!(parse_language("czech").unwrap(), Language::Czech);
    assert_eq!(parse_language("portuguese").unwrap(), Language::Portuguese);
}

#[test]
fn parse_language_short_codes() {
    assert_eq!(parse_language("en").unwrap(), Language::English);
    assert_eq!(parse_language("cn").unwrap(), Language::SimplifiedChinese);
    assert_eq!(parse_language("zh-cn").unwrap(), Language::SimplifiedChinese);
    assert_eq!(parse_language("tw").unwrap(), Language::TraditionalChinese);
    assert_eq!(parse_language("zh-tw").unwrap(), Language::TraditionalChinese);
    assert_eq!(parse_language("fr").unwrap(), Language::French);
    assert_eq!(parse_language("it").unwrap(), Language::Italian);
    assert_eq!(parse_language("ja").unwrap(), Language::Japanese);
    assert_eq!(parse_language("jp").unwrap(), Language::Japanese);
    assert_eq!(parse_language("ko").unwrap(), Language::Korean);
    assert_eq!(parse_language("kr").unwrap(), Language::Korean);
    assert_eq!(parse_language("es").unwrap(), Language::Spanish);
    assert_eq!(parse_language("cs").unwrap(), Language::Czech);
    assert_eq!(parse_language("pt").unwrap(), Language::Portuguese);
}

#[test]
fn parse_language_ignores_ascii_case() {
    assert_eq!(parse_language("English").unwrap(), Language::English);
    assert_eq!(parse_language("JA").unwrap(), Language::Japanese);
    assert_eq!(parse_language("Zh-CN").unwrap(), Language::SimplifiedChinese);
}

#[test]
fn parse_language_rejects_unknown_codes() {
    assert_eq!(
        parse_language("klingon").unwrap_err(),
        "unsupported language. use --list to see available options."
    );
    assert!(parse_language("").is_err());
    assert!(parse_language("engl").is_err());
}

#[test]
fn display_names_round_trip() {
    let languages = [
        Language::English,
        Language::SimplifiedChinese,
        Language::TraditionalChinese,
        Language::French,
        Language::Italian,
        Language::Japanese,
        Language::Korean,
        Language::Spanish,
        Language::Czech,
        Language::Portuguese,
    ];
    for lang in languages {
        let name = language_display_name(lang);
        assert_eq!(parse_language(name).unwrap(), lang);
    }
    assert_eq!(language_display_name(Language::Korean), "korean");
}

#[test]
fn entropy_quality_judgement() {
    assert_eq!(verify_entropy_quality(true, true).unwrap(), EntropyQuality::Strong);
    assert_eq!(verify_entropy_quality(true, false).unwrap(), EntropyQuality::UrandomOnly);
    assert_eq!(
        verify_entropy_quality(false, true).unwrap_err(),
        Error::EntropySourceUnavailable
    );
    assert_eq!(
        verify_entropy_quality(false, false).unwrap_err(),
        Error::EntropySourceUnavailable
    );
}

#[test]
fn entropy_quality_warnings() {
    assert!(verify_entropy_quality(true, true).unwrap().warning().is_none());
    assert_eq!(
        verify_entropy_quality(true, false).unwrap().warning().unwrap(),
        "high quality entropy source (/dev/random) not available, using /dev/urandom"
    );
}

#[test]
fn error_messages_and_exit_codes() {
    assert_eq!(Error::PassphraseMismatch.message(), "passphrases do not match");
    assert_eq!(Error::PassphraseMismatch.exit_code(), 2);
    assert_eq!(Error::PassphrasePromptFailure.message(), "Failed to read passphrase");
    assert_eq!(Error::PassphrasePromptFailure.exit_code(), 3);
    assert_eq!(Error::InvalidStrength.exit_code(), 1);
    assert_eq!(Error::MnemonicEncodingFailure.exit_code(), 1);
    assert_eq!(
        Error::MnemonicEncodingFailure.message(),
        "the mnemonic library rejected the phrase"
    );
    assert_eq!(Error::EntropySourceUnavailable.exit_code(), 1);
    assert_eq!(
        Error::EntropySourceUnavailable.message(),
        "system entropy source is unavailable"
    );
    assert_eq!(
        Error::UnsupportedLanguage.message(),
        "unsupported language. use --list to see available options."
    );
}
