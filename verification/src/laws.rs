use vstd::prelude::*;

use std::collections::hash_map::DefaultHasher;
use vstd::std_specs::cmp::PartialEqSpec;
use vstd::std_specs::hash::DefaultHasherAdditionalSpecFns;

use crate::bytes::TryFromBytes;
use crate::error::Error;
use crate::key::{CleanupHook, Key};
use crate::provider::BoxProvider;

verus! {

/// The round-trip law: decrypting what encrypt produced, under the same
/// key and associated data, gives back exactly the payload that went
/// in. Here `m` is a well-formed payload — one whose own bytes decode
/// back, of a type whose values are determined by their bytes — `ct` is
/// the ciphertext of a successful `encrypt` of `m` (its ensures is this
/// lemma's first premise) and `r` is the outcome of a `decrypt` of `ct`
/// (whose ensures are the remaining premises): the outcome can only be
/// `Ok(m)` itself.
pub proof fn lemma_round_trip<B: BoxProvider, P: TryFromBytes>(
    key: Seq<u8>,
    ad: Seq<u8>,
    m: P,
    ct: Seq<u8>,
    r: Result<P, Error>,
)
    requires
        P::decodable(m.bytes_view()),
        forall|a: P, b: P| #[trigger] a.bytes_view() == #[trigger] b.bytes_view() ==> a == b,
        B::sealed(key, ad, m.bytes_view(), ct),
        r matches Ok(v) ==> forall|p2: Seq<u8>| #[trigger] B::sealed(key, ad, p2, ct) ==> p2
            == v.bytes_view(),
        (exists|pt: Seq<u8>| #[trigger] B::sealed(key, ad, pt, ct) && P::decodable(pt)) ==> r
            is Ok,
    ensures
        r matches Ok(v) && v == m,
{
    assert(B::sealed(key, ad, m.bytes_view(), ct) && P::decodable(m.bytes_view()));
    let v = r->Ok_0;
    assert(m.bytes_view() == v.bytes_view());
}

/// Associated-data mismatch: under a cipher that binds the associated
/// data — a ciphertext authentic for one associated data is authentic
/// for no other, which authenticated encryption demands — a ciphertext
/// sealed under `ad1` cannot be decrypted under different associated
/// data `ad2`. The outcome `r` of such a `decrypt` (its ensures are the
/// last three premises) is the provider's authentication error, never
/// success and never the malformed-payload error.
pub proof fn lemma_ad_mismatch<B: BoxProvider, P: TryFromBytes>(
    key: Seq<u8>,
    ad1: Seq<u8>,
    ad2: Seq<u8>,
    m: Seq<u8>,
    ct: Seq<u8>,
    r: Result<P, Error>,
)
    requires
        forall|a1: Seq<u8>, p1: Seq<u8>, a2: Seq<u8>, p2: Seq<u8>|
            #[trigger] B::sealed(key, a1, p1, ct) && #[trigger] B::sealed(key, a2, p2, ct)
                ==> a1 == a2,
        B::sealed(key, ad1, m, ct),
        ad1 != ad2,
        r matches Ok(v) ==> B::sealed(key, ad2, v.bytes_view(), ct),
        r matches Err(e) ==> e == Error::ProviderError || e == Error::MalformedPayloadError,
        r matches Err(e) && e == Error::MalformedPayloadError ==> exists|pt: Seq<u8>|
            #[trigger] B::sealed(key, ad2, pt, ct) && !P::decodable(pt),
    ensures
        r matches Err(e) && e == Error::ProviderError,
{
    assert forall|pt: Seq<u8>| !(#[trigger] B::sealed(key, ad2, pt, ct)) by {
        if B::sealed(key, ad2, pt, ct) {
            assert(B::sealed(key, ad1, m, ct) && B::sealed(key, ad2, pt, ct));
        }
    }
}

/// Cloning preserves equality and hashing: a key with the same secret
/// bytes as another (as `Key::clone` ensures of its result) is equal to
/// it in both directions, and `Key::key_hash` gives both the same hash.
pub proof fn lemma_clone_preserves_eq_and_hash<T: BoxProvider, H: CleanupHook>(
    k: Key<T, H>,
    c: Key<T, H>,
)
    requires
        c@ == k@,
    ensures
        c.eq_spec(&k),
        k.eq_spec(&c),
        DefaultHasher::spec_finish(seq![c@]) == DefaultHasher::spec_finish(seq![k@]),
{
}

} // verus!
