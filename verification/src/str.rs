use vstd::prelude::*;

verus! {

/// An owned sequence of bytes that its creator asserts to be valid UTF-8
/// text. The type itself performs no validation and only hands the bytes
/// back out for reading.
pub struct String {
    vec: Vec<u8>,
}

impl View for String {
    type V = Seq<u8>;

    closed spec fn view(&self) -> Seq<u8> {
        self.vec@
    }
}

impl String {
    /// Read-only view of the wrapped bytes.
    pub fn as_bytes(&self) -> (r: &[u8])
        ensures
            r@ == self@,
    {
        self.vec.as_slice()
    }

    /// Wraps `bytes` without any check. That the bytes form valid UTF-8
    /// text is a caller-asserted precondition, never verified here: callers
    /// must only hand in bytes they have already validated.
    pub fn from_utf8_unchecked(bytes: Vec<u8>) -> (r: String)
        ensures
            r@ == bytes@,
    {
        String { vec: bytes }
    }
}

} // verus!
