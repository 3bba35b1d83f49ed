//! BIP39 mnemonic engine: checksummed encoding of random entropy into
//! wordlist-indexed phrases, and PBKDF2-based seed derivation.

pub mod bits;
pub mod digest;
pub mod encode;
pub mod entropy;
pub mod error;
pub mod language;
pub mod mnemonic;
pub mod seed;
pub mod strength;
pub mod wordlist;
