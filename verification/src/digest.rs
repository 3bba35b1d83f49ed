//! The SHA-256 digest the BIP39 checksum is drawn from.

use vstd::prelude::*;

verus! {

/// The SHA-256 digest of a byte sequence.
pub uninterp spec fn sha256_of(bytes: Seq<u8>) -> Seq<u8>;

/// Relies on bitcoin_hashes::sha256::Hash::hash: the 32-byte SHA-256 digest
/// of the input, a function of the input bytes alone.
#[verifier::external_body]
pub(crate) fn sha256(bytes: &Vec<u8>) -> (digest: Vec<u8>)
    ensures
        digest@ == sha256_of(bytes@),
        digest@.len() == 32,
{
    bitcoin_hashes::sha256::Hash::hash(bytes.as_slice()).to_byte_array().to_vec()
}

} // verus!
