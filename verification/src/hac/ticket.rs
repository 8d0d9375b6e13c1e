//! The title key that a ticket holds.
use vstd::prelude::*;

verus! {

/// The key material of a title, as it was read from a ticket. The library
/// carries it and never looks inside.
#[derive(Debug, PartialEq, Eq)]
pub struct TitleKey {
    bytes: Vec<u8>,
}

impl View for TitleKey {
    type V = Seq<u8>;

    closed spec fn view(&self) -> Seq<u8> {
        self.bytes@
    }
}

impl Clone for TitleKey {
    fn clone(&self) -> (copy: TitleKey)
        ensures
            copy@ == self@,
    {
        TitleKey { bytes: self.bytes.clone() }
    }
}

impl TitleKey {
    /// Wraps the bytes of a key.
    pub fn new(bytes: Vec<u8>) -> (key: TitleKey)
        ensures
            key@ == bytes@,
    {
        TitleKey { bytes }
    }

    /// The bytes of the key.
    pub fn as_bytes(&self) -> (bytes: &[u8])
        ensures
            bytes@ == self@,
    {
        self.bytes.as_slice()
    }
}

} // verus!
