//! Result handles.
//!
//! The storage engine answers a point lookup with a handle onto the bytes of
//! the stored value. A handle owns its bytes, so it stays readable after the
//! worker that produced it has moved on to another command, and it may be
//! dropped at any time before the pool is torn down.

use vstd::prelude::*;

verus! {

/// A view onto the bytes a lookup returned.
#[derive(Debug)]
pub struct Handle {
    data: Vec<u8>,
}

impl View for Handle {
    type V = Seq<u8>;

    closed spec fn view(&self) -> Seq<u8> {
        self.data@
    }
}

impl Handle {
    /// Wrap the value bytes a lookup produced.
    pub fn new(data: Vec<u8>) -> (h: Handle)
        ensures
            h@ == data@,
    {
        Handle { data }
    }

    /// Read access to the carried bytes.
    pub fn bytes(&self) -> (r: &Vec<u8>)
        ensures
            r@ == self@,
    {
        &self.data
    }

    /// Number of bytes carried.
    pub fn len(&self) -> (n: usize)
        ensures
            n == self@.len(),
    {
        self.data.len()
    }
}

} // verus!
