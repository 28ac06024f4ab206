//! Access to a request body as a byte slice.

use vstd::prelude::*;

verus! {

/// Bodies that can be read as a byte slice.
pub trait GetAsSlice {
    /// The bytes of the body.
    spec fn slice_view(&self) -> Seq<u8>;

    fn get_as_slice(&self) -> (r: &[u8])
        ensures
            r@ == self.slice_view(),
    ;
}

impl GetAsSlice for Vec<u8> {
    open spec fn slice_view(&self) -> Seq<u8> {
        self@
    }

    /// The bytes of the vector.
    fn get_as_slice(&self) -> (r: &[u8]) {
        self.as_slice()
    }
}

} // verus!
