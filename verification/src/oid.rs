//! Object ids.
use vstd::prelude::*;

verus! {

/// The SHA-1 name of an object.
#[derive(Clone, Copy, Debug, PartialEq, Eq, Hash)]
pub struct Oid {
    pub id: [u8; 20],
}

impl View for Oid {
    type V = Seq<u8>;

    open spec fn view(&self) -> Seq<u8> {
        self.id@
    }
}

impl Oid {
    /// Twenty zero bytes.
    pub open spec fn zero_bytes() -> Seq<u8> {
        Seq::new(20, |i: int| 0u8)
    }

    /// The id that names no object.
    pub fn zero() -> (oid: Oid)
        ensures
            oid@ == Oid::zero_bytes(),
    {
        let oid = Oid { id: [0u8; 20] };
        assert(oid@ =~= Oid::zero_bytes());
        oid
    }
}

} // verus!
