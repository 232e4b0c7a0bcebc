use vstd::prelude::*;

use core::hash::Hasher;
use core::marker::PhantomData;
use std::collections::hash_map::DefaultHasher;
use vstd::pervasive::cloned;
use vstd::std_specs::hash::DefaultHasherAdditionalSpecFns;

use crate::error::Error;
use crate::provider::BoxProvider;

verus! {

/// A cleanup action that a `Key` runs over its secret buffer when the
/// key is destroyed: scrubbing (zeroing) the bytes, or moving them
/// somewhere safe first. Destruction must not fail, so a hook may not
/// unwind. Cloning a key carries the hook along, so every copy runs its
/// own cleanup.
pub trait CleanupHook: Sized + Clone {
    /// Runs the cleanup over the secret buffer, exactly once per key,
    /// right before the buffer's storage is released.
    fn call(&self, buf: &mut Vec<u8>);
}

/// The default cleanup: no action; the buffer is released as any other
/// allocation, with no scrubbing guarantee.
#[derive(Clone, Copy)]
pub struct NoCleanup;

impl CleanupHook for NoCleanup {
    fn call(&self, _buf: &mut Vec<u8>)
        ensures
            final(_buf)@ == old(_buf)@,
    {
    }
}

/// A cleanup hook that scrubs the secret: every byte of the buffer is
/// overwritten with zero before the storage is released.
#[derive(Clone, Copy)]
pub struct ZeroCleanup;

impl CleanupHook for ZeroCleanup {
    fn call(&self, buf: &mut Vec<u8>)
        ensures
            final(buf)@.len() == old(buf)@.len(),
            forall|i: int| 0 <= i < final(buf)@.len() ==> final(buf)@[i] == 0,
    {
        let n = buf.len();
        let mut i: usize = 0;
        while i < n
            invariant
                n == buf@.len(),
                0 <= i <= n,
                forall|j: int| 0 <= j < i ==> buf@[j] == 0,
            decreases n - i,
        {
            buf[i] = 0;
            i = i + 1;
        }
    }
}

/// A key to the crypto box. The secret bytes live on the heap; the
/// binding to the provider `T` is compile-time metadata only, so a key
/// of one cipher can never be handed to another. `H` is the type of the
/// cleanup hook that may run over the buffer on destruction.
pub struct Key<T: BoxProvider, H: CleanupHook = NoCleanup> {
    /// The raw bytes that make up the key.
    key: Vec<u8>,
    /// Cleanup invoked on drop, to scrub the secret or move it elsewhere.
    drop_fn: Option<H>,
    /// The provider binding.
    _box_provider: PhantomData<T>,
}

impl<T: BoxProvider, H: CleanupHook> View for Key<T, H> {
    type V = Seq<u8>;

    closed spec fn view(&self) -> Seq<u8> {
        self.key@
    }
}

impl<T: BoxProvider, H: CleanupHook> Key<T, H> {
    /// A well-formed key holds exactly the provider's key length of
    /// bytes; every constructor establishes this and nothing disturbs it.
    pub open spec fn wf(&self) -> bool {
        self@.len() == T::spec_key_len()
    }

    /// The cleanup hook now attached, if any; at most one is active at
    /// a time.
    pub closed spec fn attached_hook(&self) -> Option<H> {
        self.drop_fn
    }

    /// Whether a cleanup hook is attached.
    pub open spec fn has_hook(&self) -> bool {
        self.attached_hook() is Some
    }

    /// Generates a key of secure random bytes, with no hook attached.
    pub fn random() -> (r: Result<Self, Error>)
        ensures
            r matches Ok(k) ==> k.wf() && !k.has_hook(),
            r matches Err(e) ==> e == Error::ProviderError,
    {
        match T::random_vec(T::box_key_len()) {
            Ok(key) => Ok(Self { key, drop_fn: None, _box_provider: PhantomData }),
            Err(e) => Err(e),
        }
    }

    /// Takes ownership of externally supplied bytes as a key. This
    /// succeeds exactly when the byte count matches the provider's key
    /// length; otherwise the bytes are rejected as invalid.
    pub fn load(key: Vec<u8>) -> (r: Result<Self, Error>)
        ensures
            r matches Ok(k) ==> key@.len() == T::spec_key_len() && k@ == key@ && k.wf()
                && !k.has_hook(),
            r matches Err(e) ==> key@.len() != T::spec_key_len() && e == Error::ValidationError,
    {
        if key.len() != T::box_key_len() {
            Err(Error::ValidationError)
        } else {
            Ok(Self { key, drop_fn: None, _box_provider: PhantomData })
        }
    }

    /// Attaches the cleanup hook that `release` will run, replacing any
    /// hook attached before — afterwards the given hook is the one
    /// attached, and the only one; the secret bytes stay as they are.
    pub fn on_drop(&mut self, hook: H)
        ensures
            final(self)@ == old(self)@,
            final(self).attached_hook() == Some(hook),
    {
        self.drop_fn = Some(hook);
    }

    /// A read-only view of the key's bytes.
    pub fn bytes(&self) -> (r: &[u8])
        ensures
            r@ == self@,
    {
        self.key.as_slice()
    }

    /// Hashes the key. The result depends on the secret bytes alone, so
    /// equal keys hash equally no matter how they were constructed and
    /// whether a hook is attached.
    pub fn key_hash(&self) -> (r: u64)
        ensures
            r == DefaultHasher::spec_finish(seq![self@]),
    {
        let mut h = DefaultHasher::new();
        h.write(self.key.as_slice());
        h.finish()
    }
}

impl<T: BoxProvider, H: CleanupHook> Key<T, H> {
    /// Destroys the key: the attached cleanup hook, if any, runs exactly
    /// once over the still-populated secret buffer, synchronously, before
    /// the buffer's storage is released. A key on which no hook was ever
    /// attached is released without any special action.
    ///
    /// A key that merely falls out of scope skips its hook, so pair
    /// every key with one `release` (or hold it in a guard whose
    /// destructor calls this) to get the scrub-on-destruction
    /// discipline.
    pub fn release(self) {
        let Key { mut key, drop_fn, _box_provider } = self;
        if let Some(h) = drop_fn {
            h.call(&mut key);
        }
    }
}

/// Cloning copies the secret bytes into an independent buffer and
/// carries the cleanup hook along: the clone does not run the hook now,
/// but both copies will each run their own cleanup when released.
impl<T: BoxProvider, H: CleanupHook> Clone for Key<T, H> {
    fn clone(&self) -> (r: Self)
        ensures
            r@ == self@,
            r.has_hook() == self.has_hook(),
            self.attached_hook() matches Some(h) ==> r.attached_hook() matches Some(c)
                && cloned::<H>(h, c),
    {
        let key = self.key.clone();
        assert(key@ =~= self.key@);
        let drop_fn = match &self.drop_fn {
            Some(h) => Some(h.clone()),
            None => None,
        };
        Key { key, drop_fn, _box_provider: PhantomData }
    }
}

/// Two keys of the same provider binding are equal exactly when their
/// secret bytes are equal, no matter how they were constructed and
/// which hooks are attached.
impl<T: BoxProvider, H: CleanupHook> PartialEq for Key<T, H> {
    fn eq(&self, other: &Self) -> (r: bool) {
        if self.key.len() != other.key.len() {
            return false;
        }
        let n = self.key.len();
        let mut i: usize = 0;
        while i < n
            invariant
                n == self.key@.len(),
                n == other.key@.len(),
                0 <= i <= n,
                forall|j: int| 0 <= j < i ==> self.key@[j] == other.key@[j],
            decreases n - i,
        {
            if self.key[i] != other.key[i] {
                return false;
            }
            i = i + 1;
        }
        proof {
            assert(self.key@ =~= other.key@);
        }
        true
    }
}

impl<T: BoxProvider, H: CleanupHook> vstd::std_specs::cmp::PartialEqSpecImpl for Key<T, H> {
    open spec fn obeys_eq_spec() -> bool {
        true
    }

    open spec fn eq_spec(&self, other: &Self) -> bool {
        self@ == other@
    }
}

impl<T: BoxProvider, H: CleanupHook> Eq for Key<T, H> {}

} // verus!
