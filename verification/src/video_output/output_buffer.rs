//! One piece of encoded data.

use vstd::prelude::*;
use vstd::slice::slice_to_vec;

verus! {

/// A copy of the payload of one buffer that the encoder filled. It owns its
/// bytes and outlives the buffer.
#[derive(Debug)]
pub struct OutputBuffer {
    vec_data: Vec<u8>,
}

impl View for OutputBuffer {
    type V = Seq<u8>;

    closed spec fn view(&self) -> Seq<u8> {
        self.vec_data@
    }
}

impl OutputBuffer {
    /// Copies the bytes.
    pub fn new(raw_data: &[u8]) -> (buffer: OutputBuffer)
        ensures
            buffer@ == raw_data@,
    {
        OutputBuffer { vec_data: slice_to_vec(raw_data) }
    }

    /// The bytes.
    pub fn raw_data(&self) -> (raw_data: &[u8])
        ensures
            raw_data@ == self@,
    {
        self.vec_data.as_slice()
    }
}

} // verus!
