use vstd::prelude::*;

use crate::bytes::{ByteView, FromBytes, TryFromBytes};
use crate::error::Error;
use crate::key::{CleanupHook, Key};
use crate::provider::BoxProvider;

verus! {

/// Encryptable data: anything viewable as bytes can be sealed into a
/// ciphertext container `T`.
pub trait Encrypt<T: FromBytes>: ByteView {
    /// Seals this value under `key` and the associated data `ad`,
    /// building a `T` from the ciphertext bytes. A provider failure
    /// propagates unchanged; on success the ciphertext is authentic for
    /// exactly this value's bytes and carries the provider's fixed
    /// overhead.
    fn encrypt<B: BoxProvider, H: CleanupHook>(&self, key: &Key<B, H>, ad: &[u8]) -> (r: Result<
        T,
        Error,
    >)
        requires
            key.wf(),
        ensures
            r matches Ok(ct) ==> B::sealed(key@, ad@, self.bytes_view(), ct.bytes_view())
                && ct.bytes_view().len() == self.bytes_view().len() + B::spec_overhead(),
            r matches Err(e) ==> e == Error::ProviderError,
    {
        match B::box_seal(key.bytes(), ad, self.as_bytes()) {
            Ok(sealed) => Ok(T::from_bytes(sealed)),
            Err(e) => Err(e),
        }
    }
}

/// Decryptable data: a ciphertext container viewable as bytes can be
/// opened and decoded into a payload `T`.
pub trait Decrypt<T: TryFromBytes>: ByteView {
    /// Opens this ciphertext under `key` and the associated data `ad`
    /// and decodes the plaintext into a `T`. A ciphertext that is not
    /// authentic for this key and associated data fails with the
    /// provider's error; an authentic plaintext that does not decode
    /// into `T` fails with the distinct malformed-payload error; and
    /// success is owed exactly when a decodable plaintext seals to
    /// these bytes under these inputs.
    fn decrypt<B: BoxProvider, H: CleanupHook>(&self, key: &Key<B, H>, ad: &[u8]) -> (r: Result<
        T,
        Error,
    >)
        requires
            key.wf(),
        ensures
            r matches Ok(v) ==> B::sealed(key@, ad@, v.bytes_view(), self.bytes_view())
                && T::decodable(v.bytes_view()) && forall|p2: Seq<u8>|
                #[trigger] B::sealed(key@, ad@, p2, self.bytes_view()) ==> p2 == v.bytes_view(),
            r matches Err(e) ==> e == Error::ProviderError || e == Error::MalformedPayloadError,
            r matches Err(e) && e == Error::ProviderError ==> !(exists|pt: Seq<u8>|
                B::sealed(key@, ad@, pt, self.bytes_view())),
            r matches Err(e) && e == Error::MalformedPayloadError ==> exists|pt: Seq<u8>|
                #[trigger] B::sealed(key@, ad@, pt, self.bytes_view()) && !T::decodable(pt),
            (exists|pt: Seq<u8>| #[trigger] B::sealed(key@, ad@, pt, self.bytes_view())
                && T::decodable(pt)) ==> r is Ok,
    {
        match B::box_open(key.bytes(), ad, self.as_bytes()) {
            Ok(opened) => {
                let ghost opened_view = opened@;
                match T::try_from_bytes(opened) {
                    Some(v) => Ok(v),
                    None => {
                        proof {
                            assert forall|pt: Seq<u8>|
                                #[trigger] B::sealed(key@, ad@, pt, self.bytes_view())
                                    implies !T::decodable(pt) by {
                                assert(pt == opened_view);
                            }
                            assert(B::sealed(key@, ad@, opened_view, self.bytes_view())
                                && !T::decodable(opened_view));
                        }
                        Err(Error::MalformedPayloadError)
                    },
                }
            },
            Err(e) => Err(e),
        }
    }
}

} // verus!
