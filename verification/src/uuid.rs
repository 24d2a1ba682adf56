//! A universally-unique-identifier value, carried as its sixteen bytes in
//! slice order: the form the relational layer reads and writes.

use vstd::prelude::*;
use vstd::slice::slice_to_vec;

verus! {

/// A universally unique identifier: exactly sixteen bytes, in slice order.
pub struct Uuid {
    bytes: Vec<u8>,
}

impl View for Uuid {
    type V = Seq<u8>;

    closed spec fn view(&self) -> Seq<u8> {
        self.bytes@
    }
}

impl Uuid {
    /// Decodes an identifier from the relational layer's byte
    /// representation: present and exactly sixteen bytes wide, else nothing.
    pub fn from_sql(bytes: Option<&[u8]>) -> (r: Option<Uuid>)
        ensures
            r is Some <==> (bytes matches Some(b) && b@.len() == 16),
            r matches Some(u) ==> (bytes matches Some(b) && u@ == b@),
    {
        match bytes {
            Some(b) => {
                if b.len() == 16 {
                    Some(Uuid { bytes: slice_to_vec(b) })
                } else {
                    None
                }
            },
            None => None,
        }
    }

    /// The sixteen bytes, in order, for the relational layer to write.
    pub fn to_sql(&self) -> (r: &[u8])
        ensures
            r@ == self@,
    {
        self.bytes.as_slice()
    }
}

} // verus!
