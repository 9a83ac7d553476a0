//! The materialized window a completed read hands back: it owns its bytes,
//! and its length reflects only what the engine actually filled, never the
//! requested size.

use vstd::prelude::*;

verus! {

pub struct ReadResult {
    bytes: Vec<u8>,
}

impl View for ReadResult {
    type V = Seq<u8>;

    closed spec fn view(&self) -> Seq<u8> {
        self.bytes@
    }
}

impl ReadResult {
    pub fn new(bytes: Vec<u8>) -> (r: ReadResult)
        ensures
            r@ == bytes@,
    {
        ReadResult { bytes }
    }

    /// How many bytes the engine filled.
    pub fn len(&self) -> (r: usize)
        ensures
            r == self@.len(),
    {
        self.bytes.len()
    }

    pub fn is_empty(&self) -> (r: bool)
        ensures
            r == (self@.len() == 0),
    {
        self.bytes.len() == 0
    }

    /// A read-only view of the filled bytes.
    pub fn bytes(&self) -> (r: &Vec<u8>)
        ensures
            r@ == self@,
    {
        &self.bytes
    }

    /// Consumes the window, handing the buffer to the caller.
    pub fn into_bytes(self) -> (r: Vec<u8>)
        ensures
            r@ == self@,
    {
        self.bytes
    }
}

} // verus!
