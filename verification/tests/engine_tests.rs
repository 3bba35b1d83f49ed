//! Known-answer and behavioural tests for the mnemonic engine, run against
//! the real wordlists, digest and seed derivation.

use std::collections::HashSet;

use s33d::encode::encode;
use s33d::entropy::{generate_entropy, wipe_bytes};
use s33d::error::Error;
use s33d::mnemonic::generate_phrase;
use s33d::seed::{confirm_passphrase, derive_seed, join_words};
use s33d::strength::bits_to_word_count;
use s33d::wordlist::{word_for_index, Language};

fn zero_phrase_12() -> Vec<String> {
    let mut words: Vec<String> = Vec::new();
    let mut i = 0;
    while i < 11 {
        words.push("abandon".to_string());
        i += 1;
    }
    words.push("about".to_string());
    words
}

#[test]
fn word_count_formula() {
    assert_eq!(bits_to_word_count(128), 12);
    assert_eq!(bits_to_word_count(160), 15);
    assert_eq!(bits_to_word_count(192), 18);
    assert_eq!(bits_to_word_count(224), 21);
    assert_eq!(bits_to_word_count(256), 24);
}

#[test]
fn known_vector_128_all_zero() {
    let entropy = vec![0u8; 16];
    let words = encode(&entropy, Language::English).unwrap();
    assert_eq!(words.len(), 12);
    for i in 0..11 {
        assert_eq!(words[i], "abandon");
    }
    assert_eq!(words[11], "about");
    assert_eq!(
        join_words(&words),
        "abandon abandon abandon abandon abandon abandon abandon abandon abandon abandon abandon about"
    );
}

#[test]
fn known_vector_256_all_zero() {
    let entropy = vec![0u8; 32];
    let words = encode(&entropy, Language::English).unwrap();
    assert_eq!(words.len(), 24);
    for i in 0..23 {
        assert_eq!(words[i], "abandon");
    }
    assert_eq!(words[23], "art");
}

#[test]
fn encode_is_deterministic() {
    let entropy = vec![0x7fu8; 20];
    let first = encode(&entropy, Language::English).unwrap();
    let second = encode(&entropy, Language::English).unwrap();
    assert_eq!(first, second);
}

#[test]
fn encode_all_strengths() {
    for n in [16usize, 20, 24, 28, 32] {
        let entropy = vec![0xa5u8; n];
        let words = encode(&entropy, Language::English).unwrap();
        assert_eq!(words.len(), (n * 8 + n * 8 / 32) / 11);
    }
}

#[test]
fn encode_rejects_bad_length() {
    let entropy = vec![0u8; 17];
    assert_eq!(
        encode(&entropy, Language::English).unwrap_err(),
        Error::InvalidEntropyLength
    );
    let empty: Vec<u8> = Vec::new();
    assert_eq!(
        encode(&empty, Language::English).unwrap_err(),
        Error::InvalidEntropyLength
    );
}

#[test]
fn checksum_recomputable_from_digest() {
    // For 16 zero bytes the checksum is the digest's first four bits; the
    // phrase's last word carries the last seven entropy bits (all zero)
    // followed by those four bits, so its index must equal the nibble.
    let digest = bitcoin_hashes::sha256::Hash::hash(&[0u8; 16]).to_byte_array();
    let nibble = digest[0] >> 4;
    let entropy = vec![0u8; 16];
    let words = encode(&entropy, Language::English).unwrap();
    let expected = word_for_index(Language::English, nibble as usize).unwrap();
    assert_eq!(words[11], expected);
    assert_eq!(nibble, 3);
    assert_eq!(expected, "about");
}

#[test]
fn phrase_words_come_from_wordlist() {
    let entropy = vec![0x3cu8; 32];
    let words = encode(&entropy, Language::Spanish).unwrap();
    let mut table = HashSet::new();
    for i in 0..2048 {
        table.insert(word_for_index(Language::Spanish, i).unwrap());
    }
    for word in &words {
        assert!(table.contains(word));
    }
}

#[test]
fn wordlists_have_no_duplicates() {
    let languages = [
        Language::English,
        Language::SimplifiedChinese,
        Language::TraditionalChinese,
        Language::French,
        Language::Italian,
        Language::Japanese,
        Language::Korean,
        Language::Spanish,
        Language::Czech,
        Language::Portuguese,
    ];
    for lang in languages {
        let mut table = HashSet::new();
        for i in 0..2048 {
            table.insert(word_for_index(lang, i).unwrap());
        }
        assert_eq!(table.len(), 2048);
    }
}

#[test]
fn wordlist_bounds() {
    assert_eq!(word_for_index(Language::English, 0).unwrap(), "abandon");
    assert_eq!(word_for_index(Language::English, 2047).unwrap(), "zoo");
    assert!(word_for_index(Language::English, 2048).is_none());
}

#[test]
fn seed_known_vector_empty_passphrase() {
    let words = zero_phrase_12();
    let seed = derive_seed(Language::English, &words, "").unwrap();
    assert_eq!(
        hex::encode(&seed),
        "5eb00bbddcf069084889a8ab9155568165f5c453ccb85e70811aaed6f6da5fc1\
         9a5ac40b389cd370d086206dec8aa6c43daea6690f20ad3d8d48b2d2ce9e38e4"
    );
}

#[test]
fn seed_known_vector_trezor_passphrase() {
    let words = zero_phrase_12();
    let seed = derive_seed(Language::English, &words, "TREZOR").unwrap();
    assert_eq!(
        hex::encode(&seed),
        "c55257c360c07c72029aebc1b53c05ed0362ada38ead3e3e9efa3708e5349553\
         1f09a6987599d18264c1e1c92f2cf141630c7a3c4ab7c81b2f001698e7463b04"
    );
}

#[test]
fn seed_is_deterministic() {
    let words = zero_phrase_12();
    let first = derive_seed(Language::English, &words, "pass").unwrap();
    let second = derive_seed(Language::English, &words, "pass").unwrap();
    assert_eq!(first, second);
}

#[test]
fn seed_is_passphrase_sensitive() {
    let words = zero_phrase_12();
    let empty = derive_seed(Language::English, &words, "").unwrap();
    let nonempty = derive_seed(Language::English, &words, "nonempty").unwrap();
    assert_ne!(empty, nonempty);
}

#[test]
fn derive_seed_rejects_bad_checksum() {
    let mut words: Vec<String> = Vec::new();
    for _ in 0..12 {
        words.push("abandon".to_string());
    }
    assert_eq!(
        derive_seed(Language::English, &words, "").unwrap_err(),
        Error::MnemonicEncodingFailure
    );
}

#[test]
fn confirm_passphrase_accepts_match() {
    let pass = String::from("hunter2");
    let confirm = String::from("hunter2");
    assert!(confirm_passphrase(&pass, &confirm).is_ok());
}

#[test]
fn confirm_passphrase_rejects_mismatch() {
    let pass = String::from("hunter2");
    let confirm = String::from("hunter3");
    assert_eq!(
        confirm_passphrase(&pass, &confirm).unwrap_err(),
        Error::PassphraseMismatch
    );
}

#[test]
fn generate_phrase_round_trip() {
    let (entropy, words) = generate_phrase(128, Language::English).unwrap();
    assert_eq!(entropy.len(), 16);
    assert_eq!(words.len(), 12);
    let again = encode(&entropy, Language::English).unwrap();
    assert_eq!(words, again);
    let seed = derive_seed(Language::English, &words, "");
    assert!(seed.is_ok());
}

#[test]
fn generate_phrase_rejects_bad_strength() {
    assert_eq!(
        generate_phrase(100, Language::English).unwrap_err(),
        Error::InvalidStrength
    );
}

#[test]
fn generate_entropy_lengths() {
    for bits in [128usize, 160, 192, 224, 256] {
        let entropy = generate_entropy(bits).unwrap();
        assert_eq!(entropy.len(), bits / 8);
    }
    assert_eq!(generate_entropy(0).unwrap_err(), Error::InvalidStrength);
    assert_eq!(generate_entropy(129).unwrap_err(), Error::InvalidStrength);
}

#[test]
fn wipe_bytes_zeroes_in_place() {
    let mut buf = vec![0xffu8, 1, 2, 3];
    wipe_bytes(&mut buf);
    assert_eq!(buf, vec![0u8, 0, 0, 0]);
}

#[test]
fn join_words_spaces() {
    let words = vec!["alpha".to_string(), "beta".to_string(), "gamma".to_string()];
    assert_eq!(join_words(&words), "alpha beta gamma");
    let one = vec!["solo".to_string()];
    assert_eq!(join_words(&one), "solo");
    let none: Vec<String> = Vec::new();
    assert_eq!(join_words(&none), "");
}
