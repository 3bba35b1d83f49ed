//! The engine's error kinds, their diagnostics and their process exit codes.

use vstd::prelude::*;

verus! {

/// Everything that can go wrong while producing a mnemonic or a seed. No
/// variant ever carries secret material.
#[derive(Clone, Copy, Debug, PartialEq, Eq, Structural)]
pub enum Error {
    /// The requested language is not one of the supported codes.
    UnsupportedLanguage,
    /// The requested bit strength is not one of 128, 160, 192, 224, 256.
    InvalidStrength,
    /// The requested word count is not one of 12, 24.
    InvalidWordCount,
    /// The entropy to encode is not 16, 20, 24, 28 or 32 bytes long.
    InvalidEntropyLength,
    /// The OS randomness source is unavailable.
    EntropySourceUnavailable,
    /// The mnemonic library rejected the phrase handed to it.
    MnemonicEncodingFailure,
    /// The passphrase confirmation differed from the first entry.
    PassphraseMismatch,
    /// The passphrase prompt could not be read.
    PassphrasePromptFailure,
}

impl Error {
    /// A single-line diagnostic; never includes entropy, phrase or seed
    /// material.
    pub fn message(&self) -> (r: String)
        ensures
            *self == Error::UnsupportedLanguage ==> r@ == "unsupported language. use --list to see available options."@,
            *self == Error::InvalidStrength ==> r@ == "Bits must be one of: 128, 160, 192, 224, or 256"@,
            *self == Error::InvalidWordCount ==> r@ == "word count must be either 12 or 24. use 12 for good security or 24 for maximum security."@,
            *self == Error::InvalidEntropyLength ==> r@ == "entropy length must be one of: 16, 20, 24, 28, or 32 bytes"@,
            *self == Error::EntropySourceUnavailable ==> r@ == "system entropy source is unavailable"@,
            *self == Error::MnemonicEncodingFailure ==> r@ == "the mnemonic library rejected the phrase"@,
            *self == Error::PassphraseMismatch ==> r@ == "passphrases do not match"@,
            *self == Error::PassphrasePromptFailure ==> r@ == "Failed to read passphrase"@,
    {
        match self {
            Error::UnsupportedLanguage => "unsupported language. use --list to see available options.".to_owned(),
            Error::InvalidStrength => "Bits must be one of: 128, 160, 192, 224, or 256".to_owned(),
            Error::InvalidWordCount => "word count must be either 12 or 24. use 12 for good security or 24 for maximum security.".to_owned(),
            Error::InvalidEntropyLength => "entropy length must be one of: 16, 20, 24, 28, or 32 bytes".to_owned(),
            Error::EntropySourceUnavailable => "system entropy source is unavailable".to_owned(),
            Error::MnemonicEncodingFailure => "the mnemonic library rejected the phrase".to_owned(),
            Error::PassphraseMismatch => "passphrases do not match".to_owned(),
            Error::PassphrasePromptFailure => "Failed to read passphrase".to_owned(),
        }
    }

    /// The process exit code for this error: 2 for a passphrase mismatch,
    /// 3 for an unreadable prompt, 1 for everything else.
    pub fn exit_code(&self) -> (r: i32)
        ensures
            *self == Error::PassphraseMismatch ==> r == 2,
            *self == Error::PassphrasePromptFailure ==> r == 3,
            (*self != Error::PassphraseMismatch && *self != Error::PassphrasePromptFailure) ==> r == 1,
    {
        match self {
            Error::PassphraseMismatch => 2,
            Error::PassphrasePromptFailure => 3,
            _ => 1,
        }
    }
}

} // verus!
