use vstd::prelude::*;

use crate::error::Error;

verus! {

/// The capability a concrete cipher supplies: key length, ciphertext
/// overhead, the authenticated seal/open transform, and secure
/// randomness. The vault is generic over this trait and never picks a
/// cipher itself; an implementation must prove (or, outside verified
/// code, honour) the contracts below, which model a perfectly
/// authenticated cipher: opening succeeds exactly on ciphertexts that
/// sealing produced under the same key and associated data. Seal and
/// open receive a key as its raw bytes, as `Key::bytes` hands them out.
pub trait BoxProvider: Sized {
    /// The fixed byte length of every key of this cipher.
    open spec fn spec_key_len() -> nat {
        arbitrary()
    }

    /// The fixed number of bytes a sealed ciphertext carries beyond the
    /// plaintext length (tag, nonce, and the like).
    open spec fn spec_overhead() -> nat {
        arbitrary()
    }

    /// The authenticity relation of this cipher: `sealed(key, ad, pt, ct)`
    /// holds exactly when `ct` is a ciphertext that sealing `pt` under
    /// `key` and associated data `ad` can produce. Sealing may be
    /// randomized, so one plaintext may stand in this relation with many
    /// ciphertexts.
    open spec fn sealed(key: Seq<u8>, ad: Seq<u8>, plaintext: Seq<u8>, ciphertext: Seq<u8>) -> bool {
        arbitrary()
    }

    /// The key length of the crypto box, in bytes; a cipher whose key
    /// length were zero would be a broken implementation, so a positive
    /// length is part of the contract.
    fn box_key_len() -> (r: usize)
        ensures
            r == Self::spec_key_len(),
            r > 0,
    ;

    /// The crypto box's ciphertext overhead, in bytes.
    fn box_overhead() -> (r: usize)
        ensures
            r == Self::spec_overhead(),
    ;

    /// Seals `data` under `key` and the associated data `ad`. On success
    /// the ciphertext is authentic for exactly these inputs and carries
    /// the fixed overhead.
    fn box_seal(key: &[u8], ad: &[u8], data: &[u8]) -> (r: Result<Vec<u8>, Error>)
        requires
            key@.len() == Self::spec_key_len(),
        ensures
            r matches Ok(ct) ==> Self::sealed(key@, ad@, data@, ct@) && ct@.len() == data@.len()
                + Self::spec_overhead(),
            r matches Err(e) ==> e == Error::ProviderError,
    ;

    /// Opens `data` under `key` and the associated data `ad`. Success
    /// yields the one plaintext the ciphertext is authentic for — opening
    /// is deterministic, so no ciphertext opens two ways under the same
    /// key and associated data. Failure means no plaintext at all seals
    /// to this ciphertext under these inputs, so tampered or mismatched
    /// ciphertexts are never silently accepted.
    fn box_open(key: &[u8], ad: &[u8], data: &[u8]) -> (r: Result<Vec<u8>, Error>)
        requires
            key@.len() == Self::spec_key_len(),
        ensures
            r matches Ok(pt) ==> Self::sealed(key@, ad@, pt@, data@) && forall|p2: Seq<u8>|
                #[trigger] Self::sealed(key@, ad@, p2, data@) ==> p2 == pt@,
            r matches Err(e) ==> e == Error::ProviderError && !(exists|pt: Seq<u8>|
                Self::sealed(key@, ad@, pt, data@)),
    ;

    /// Fills `buf` with cryptographically secure random bytes, keeping
    /// its length; an exhausted entropy source is reported, never papered
    /// over.
    fn random_buf(buf: &mut Vec<u8>) -> (r: Result<(), Error>)
        ensures
            final(buf)@.len() == old(buf)@.len(),
            r matches Err(e) ==> e == Error::ProviderError,
    ;

    /// A vector of `len` cryptographically secure random bytes, derived
    /// from `random_buf`.
    fn random_vec(len: usize) -> (r: Result<Vec<u8>, Error>)
        ensures
            r matches Ok(v) ==> v@.len() == len,
            r matches Err(e) ==> e == Error::ProviderError,
    {
        let mut buf: Vec<u8> = vec![0u8; len];
        match Self::random_buf(&mut buf) {
            Ok(()) => Ok(buf),
            Err(e) => Err(e),
        }
    }
}

} // verus!
