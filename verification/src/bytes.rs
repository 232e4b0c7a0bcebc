use vstd::prelude::*;

verus! {

/// A value with a byte-sequence meaning: the bytes that sealing and
/// opening operate on.
pub trait ByteView {
    /// The byte-sequence meaning of the value.
    open spec fn bytes_view(&self) -> Seq<u8> {
        arbitrary()
    }

    /// Read-only access to the bytes.
    fn as_bytes(&self) -> (r: &[u8])
        ensures
            r@ == self.bytes_view(),
    ;
}

/// A container that can be built from any byte string without failing;
/// ciphertext holders implement this.
pub trait FromBytes: ByteView + Sized {
    fn from_bytes(bytes: Vec<u8>) -> (r: Self)
        ensures
            r.bytes_view() == bytes@,
    ;
}

/// A payload type that decodes from some byte strings and rejects the
/// rest; decryption targets implement this.
pub trait TryFromBytes: ByteView + Sized {
    /// The byte strings that decode into a payload value.
    open spec fn decodable(bytes: Seq<u8>) -> bool {
        arbitrary()
    }

    fn try_from_bytes(bytes: Vec<u8>) -> (r: Option<Self>)
        ensures
            r matches Some(v) ==> Self::decodable(bytes@) && v.bytes_view() == bytes@,
            r is None ==> !Self::decodable(bytes@),
    ;
}

} // verus!
