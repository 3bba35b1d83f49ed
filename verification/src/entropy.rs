//! Drawing entropy from the OS randomness source, the pre-draw quality
//! check, and explicit wiping of secret buffers.

use vstd::prelude::*;
use rand::RngCore;
use zeroize::Zeroize;
use crate::error::Error;
use crate::strength::valid_strength;

verus! {

/// Relies on rand::rngs::OsRng (the OS randomness source, via getrandom):
/// fills a fresh buffer of the requested length with random bytes. Nothing
/// can be promised of the bytes themselves; if the OS source is unavailable
/// the call panics rather than falling back to a weaker generator.
#[verifier::external_body]
fn os_random_bytes(count: usize) -> (r: Vec<u8>)
    ensures
        r@.len() == count,
{
    let mut buf = vec![0u8; count];
    rand::rngs::OsRng.fill_bytes(&mut buf);
    buf
}

/// Draws `bits / 8` bytes of OS entropy. The strength is validated first:
/// on an illegal strength no entropy is drawn at all.
pub fn generate_entropy(bits: usize) -> (r: Result<Vec<u8>, Error>)
    ensures
        r is Ok <==> valid_strength(bits as nat),
        r matches Ok(entropy) ==> entropy@.len() * 8 == bits,
        r is Err ==> r->Err_0 == Error::InvalidStrength,
{
    if bits == 128 || bits == 160 || bits == 192 || bits == 224 || bits == 256 {
        Ok(os_random_bytes(bits / 8))
    } else {
        Err(Error::InvalidStrength)
    }
}

/// What the system offers as randomness sources when the required
/// non-blocking source exists.
#[derive(Clone, Copy, Debug, PartialEq, Eq, Structural)]
pub enum EntropyQuality {
    /// Both the non-blocking and the blocking source exist.
    Strong,
    /// Only the non-blocking source exists.
    UrandomOnly,
}

/// Judges the entropy sources the system offers. A missing non-blocking
/// source is fatal: the run must abort before any mnemonic is produced,
/// never fall back to a weaker generator. A missing blocking source merely
/// earns a warning.
pub fn verify_entropy_quality(urandom_available: bool, random_available: bool) -> (r: Result<
    EntropyQuality,
    Error,
>)
    ensures
        r is Ok <==> urandom_available,
        urandom_available && random_available ==> r == Ok::<_, Error>(EntropyQuality::Strong),
        urandom_available && !random_available ==> r == Ok::<_, Error>(
            EntropyQuality::UrandomOnly,
        ),
        r is Err ==> r->Err_0 == Error::EntropySourceUnavailable,
{
    if !urandom_available {
        Err(Error::EntropySourceUnavailable)
    } else if random_available {
        Ok(EntropyQuality::Strong)
    } else {
        Ok(EntropyQuality::UrandomOnly)
    }
}

impl EntropyQuality {
    /// The warning owed for a degraded source; `None` exactly when both
    /// sources are present.
    pub fn warning(&self) -> (r: Option<String>)
        ensures
            r is None <==> *self == EntropyQuality::Strong,
            *self == EntropyQuality::UrandomOnly ==> (r matches Some(m) && m@
                == "high quality entropy source (/dev/random) not available, using /dev/urandom"@),
    {
        match self {
            EntropyQuality::Strong => None,
            EntropyQuality::UrandomOnly => Some(
                "high quality entropy source (/dev/random) not available, using /dev/urandom".to_owned(),
            ),
        }
    }
}

/// Overwrites every byte of a secret buffer with zero, in place.
pub fn wipe_bytes(buf: &mut Vec<u8>)
    ensures
        final(buf)@.len() == old(buf)@.len(),
        forall|i: int| 0 <= i < final(buf)@.len() ==> final(buf)@[i] == 0u8,
{
    let n = buf.len();
    let mut i: usize = 0;
    while i < n
        invariant
            n == buf@.len(),
            i <= n,
            forall|k: int| 0 <= k < i ==> buf@[k] == 0u8,
        decreases n - i,
    {
        buf[i] = 0;
        i = i + 1;
    }
}

/// Relies on zeroize::Zeroize for String: overwrites the string's buffer
/// with zeros before clearing it, so the secret does not linger in memory.
#[verifier::external_body]
pub fn wipe_string(s: &mut String)
    ensures
        final(s)@.len() == 0,
{
    s.zeroize();
}

} // verus!
