//! The regions of a blueprint.

use crate::error::Error;
use crate::serialize::{
    Deser, get_i8, get_u16, i8_byte, i8_of, lemma_i8_roundtrip, lemma_u16_placed,
    lemma_u16_roundtrip, Record, Ser, u16_at, u16_bytes,
};
use vstd::prelude::*;

verus! {

/// One region of the grid that a blueprint covers: its number, the number of
/// the region that holds it, and twelve bytes of anchor and size.
#[derive(Clone, Copy, Debug, PartialEq, Eq)]
pub struct Area {
    /// The number of the region.
    pub index: i8,
    /// The number of the region that holds this one, or -1.
    pub parent_index: i8,
    /// Where the region is anchored between the tropics.
    pub tropic_anchor: u16,
    /// How many segments the grid has at the latitude of the region.
    pub area_segments: u16,
    /// Where the anchor stands within the region.
    pub anchor_local_offset_x: u16,
    pub anchor_local_offset_y: u16,
    /// The size of the region.
    pub width: u16,
    pub height: u16,
}

/// The number of bytes that one [`Area`] takes.
pub const AREA_SIZE: usize = 14;

impl Area {
    /// Reads the record from a slice of exactly its size.
    pub fn from_bytes(b: &[u8]) -> (r: Self)
        requires
            b.len() == AREA_SIZE,
        ensures
            r == Self::parse(b@),
    {
        reveal(<Area as Record>::parse);
        Area {
            index: get_i8(b, 0),
            parent_index: get_i8(b, 1),
            tropic_anchor: get_u16(b, 2),
            area_segments: get_u16(b, 4),
            anchor_local_offset_x: get_u16(b, 6),
            anchor_local_offset_y: get_u16(b, 8),
            width: get_u16(b, 10),
            height: get_u16(b, 12),
        }
    }
}

impl Record for Area {
    open spec fn size() -> nat {
        14
    }

    #[verifier::opaque]
    open spec fn parse(b: Seq<u8>) -> Self {
        Area {
            index: i8_of(b[0]),
            parent_index: i8_of(b[1]),
            tropic_anchor: u16_at(b, 2),
            area_segments: u16_at(b, 4),
            anchor_local_offset_x: u16_at(b, 6),
            anchor_local_offset_y: u16_at(b, 8),
            width: u16_at(b, 10),
            height: u16_at(b, 12),
        }
    }

    #[verifier::opaque]
    open spec fn encoding(self) -> Seq<u8> {
        seq![i8_byte(self.index)] + seq![i8_byte(self.parent_index)]
            + u16_bytes(self.tropic_anchor) + u16_bytes(self.area_segments)
            + u16_bytes(self.anchor_local_offset_x) + u16_bytes(self.anchor_local_offset_y)
            + u16_bytes(self.width) + u16_bytes(self.height)
    }

    fn byte_len() -> (n: usize) {
        AREA_SIZE
    }

    fn read(d: &mut Deser) -> (r: Result<Self, Error>) {
        reveal(<Area as Record>::parse);
        let b = d.read_exact(AREA_SIZE)?;
        Ok(Self::from_bytes(b))
    }

    fn write(&self, s: &mut Ser) {
        reveal(<Area as Record>::encoding);
        s.write_i8(self.index);
        let ghost upto0 = seq![i8_byte(self.index)];
        assert(s@ =~= old(s)@ + upto0);
        s.write_i8(self.parent_index);
        let ghost upto1 = upto0 + seq![i8_byte(self.parent_index)];
        assert(s@ =~= old(s)@ + upto1);
        s.write_u16(self.tropic_anchor);
        let ghost upto2 = upto1 + u16_bytes(self.tropic_anchor);
        assert(s@ =~= old(s)@ + upto2);
        s.write_u16(self.area_segments);
        let ghost upto3 = upto2 + u16_bytes(self.area_segments);
        assert(s@ =~= old(s)@ + upto3);
        s.write_u16(self.anchor_local_offset_x);
        let ghost upto4 = upto3 + u16_bytes(self.anchor_local_offset_x);
        assert(s@ =~= old(s)@ + upto4);
        s.write_u16(self.anchor_local_offset_y);
        let ghost upto5 = upto4 + u16_bytes(self.anchor_local_offset_y);
        assert(s@ =~= old(s)@ + upto5);
        s.write_u16(self.width);
        let ghost upto6 = upto5 + u16_bytes(self.width);
        assert(s@ =~= old(s)@ + upto6);
        s.write_u16(self.height);
        let ghost upto7 = upto6 + u16_bytes(self.height);
        assert(s@ =~= old(s)@ + upto7);
    }

    proof fn lemma_roundtrip(v: Self) {
        reveal(<Area as Record>::encoding);
        reveal(<Area as Record>::parse);
        let e = v.encoding();
        lemma_i8_roundtrip(v.index, 0);
        lemma_i8_roundtrip(v.parent_index, 0);
        lemma_u16_placed(e, 2, v.tropic_anchor);
        lemma_u16_placed(e, 4, v.area_segments);
        lemma_u16_placed(e, 6, v.anchor_local_offset_x);
        lemma_u16_placed(e, 8, v.anchor_local_offset_y);
        lemma_u16_placed(e, 10, v.width);
        lemma_u16_placed(e, 12, v.height);
    }

    proof fn lemma_parse(b: Seq<u8>) {
        reveal(<Area as Record>::encoding);
        reveal(<Area as Record>::parse);
        lemma_i8_roundtrip(0, b[0]);
        lemma_i8_roundtrip(0, b[1]);
        lemma_u16_roundtrip(0, b, 2);
        lemma_u16_roundtrip(0, b, 4);
        lemma_u16_roundtrip(0, b, 6);
        lemma_u16_roundtrip(0, b, 8);
        lemma_u16_roundtrip(0, b, 10);
        lemma_u16_roundtrip(0, b, 12);
        assert(Self::parse(b).encoding() =~= b.take(14));
    }
}

} // verus!
