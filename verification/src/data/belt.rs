//! The label of a conveyor belt.

use crate::error::Error;
use crate::serialize::{
    Deser, get_u32, lemma_u32_placed, lemma_u32_roundtrip, Record, Ser, u32_at, u32_bytes,
};
use vstd::prelude::*;

verus! {

/// What a conveyor belt carries as its label: an icon and a number.
#[derive(Clone, Copy, Debug, PartialEq, Eq)]
pub struct Belt {
    /// The icon, as an icon number.
    pub label: u32,
    /// The number shown beside the icon.
    pub count: u32,
}

/// The number of bytes that one [`Belt`] takes.
pub const BELT_SIZE: usize = 8;

impl Belt {
    /// Reads the record from a slice of exactly its size.
    pub fn from_bytes(b: &[u8]) -> (r: Self)
        requires
            b.len() == BELT_SIZE,
        ensures
            r == Self::parse(b@),
    {
        reveal(<Belt as Record>::parse);
        Belt {
            label: get_u32(b, 0),
            count: get_u32(b, 4),
        }
    }
}

impl Record for Belt {
    open spec fn size() -> nat {
        8
    }

    #[verifier::opaque]
    open spec fn parse(b: Seq<u8>) -> Self {
        Belt {
            label: u32_at(b, 0),
            count: u32_at(b, 4),
        }
    }

    #[verifier::opaque]
    open spec fn encoding(self) -> Seq<u8> {
        u32_bytes(self.label) + u32_bytes(self.count)
    }

    fn byte_len() -> (n: usize) {
        BELT_SIZE
    }

    fn read(d: &mut Deser) -> (r: Result<Self, Error>) {
        reveal(<Belt as Record>::parse);
        let b = d.read_exact(BELT_SIZE)?;
        Ok(Self::from_bytes(b))
    }

    fn write(&self, s: &mut Ser) {
        reveal(<Belt as Record>::encoding);
        s.write_u32(self.label);
        s.write_u32(self.count);
        assert(s@ =~= old(s)@ + self.encoding());
    }

    proof fn lemma_roundtrip(v: Self) {
        reveal(<Belt as Record>::encoding);
        reveal(<Belt as Record>::parse);
        let e = v.encoding();
        lemma_u32_placed(e, 0, v.label);
        lemma_u32_placed(e, 4, v.count);
    }

    proof fn lemma_parse(b: Seq<u8>) {
        reveal(<Belt as Record>::encoding);
        reveal(<Belt as Record>::parse);
        lemma_u32_roundtrip(0, b, 0);
        lemma_u32_roundtrip(0, b, 4);
        assert(Self::parse(b).encoding() =~= b.take(8));
    }
}

} // verus!
