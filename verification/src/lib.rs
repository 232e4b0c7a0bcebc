//! A provider-agnostic crypto box: authenticated symmetric encryption
//! behind a capability trait, a secret-key container bound to one
//! provider at compile time, and generic encrypt/decrypt operations
//! that round-trip typed payloads through the provider's byte-level
//! seal and open. Keys carry an optional cleanup hook that scrubs or
//! relocates the secret bytes exactly once when the key is released.

mod bytes;
mod cryptobox;
mod error;
mod key;
mod laws;
mod provider;

pub use bytes::{ByteView, FromBytes, TryFromBytes};
pub use cryptobox::{Decrypt, Encrypt};
pub use error::Error;
pub use key::{CleanupHook, Key, NoCleanup, ZeroCleanup};
pub use laws::{lemma_ad_mismatch, lemma_clone_preserves_eq_and_hash, lemma_round_trip};
pub use provider::BoxProvider;
