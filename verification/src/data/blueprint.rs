//! The binary payload as a whole.

use crate::data::area::Area;
use crate::data::building::{Building, BuildingView};
use crate::error::Error;
use crate::serialize::{
    Deser, get_u32, lemma_parse_records_bytes, lemma_records_bytes_parse, lemma_records_len,
    lemma_u32_placed, lemma_u32_roundtrip, parse_records, read_records, Record, records_bytes,
    Ser, u32_at, u32_bytes, write_records,
};
use vstd::prelude::*;

verus! {

/// The head of the binary payload.
#[derive(Clone, Copy, Debug, PartialEq, Eq)]
pub struct Header {
    /// The version of the layout. Only version 1 is known.
    pub version: u32,
    pub cursor_offset_x: u32,
    pub cursor_offset_y: u32,
    pub cursor_target_area: u32,
    pub dragbox_size_x: u32,
    pub dragbox_size_y: u32,
    pub primary_area_index: u32,
    /// How many regions follow the head.
    pub area_count: u8,
}

/// The number of bytes that one [`Header`] takes.
pub const HEADER_SIZE: usize = 29;

impl Header {
    /// Reads the record from a slice of exactly its size.
    pub fn from_bytes(b: &[u8]) -> (r: Self)
        requires
            b.len() == HEADER_SIZE,
        ensures
            r == Self::parse(b@),
    {
        reveal(<Header as Record>::parse);
        Header {
            version: get_u32(b, 0),
            cursor_offset_x: get_u32(b, 4),
            cursor_offset_y: get_u32(b, 8),
            cursor_target_area: get_u32(b, 12),
            dragbox_size_x: get_u32(b, 16),
            dragbox_size_y: get_u32(b, 20),
            primary_area_index: get_u32(b, 24),
            area_count: b[28],
        }
    }
}

impl Record for Header {
    open spec fn size() -> nat {
        29
    }

    #[verifier::opaque]
    open spec fn parse(b: Seq<u8>) -> Self {
        Header {
            version: u32_at(b, 0),
            cursor_offset_x: u32_at(b, 4),
            cursor_offset_y: u32_at(b, 8),
            cursor_target_area: u32_at(b, 12),
            dragbox_size_x: u32_at(b, 16),
            dragbox_size_y: u32_at(b, 20),
            primary_area_index: u32_at(b, 24),
            area_count: b[28],
        }
    }

    #[verifier::opaque]
    open spec fn encoding(self) -> Seq<u8> {
        u32_bytes(self.version) + u32_bytes(self.cursor_offset_x)
            + u32_bytes(self.cursor_offset_y) + u32_bytes(self.cursor_target_area)
            + u32_bytes(self.dragbox_size_x) + u32_bytes(self.dragbox_size_y)
            + u32_bytes(self.primary_area_index) + seq![self.area_count]
    }

    fn byte_len() -> (n: usize) {
        HEADER_SIZE
    }

    fn read(d: &mut Deser) -> (r: Result<Self, Error>) {
        reveal(<Header as Record>::parse);
        let b = d.read_exact(HEADER_SIZE)?;
        Ok(Self::from_bytes(b))
    }

    fn write(&self, s: &mut Ser) {
        reveal(<Header as Record>::encoding);
        s.write_u32(self.version);
        let ghost upto0 = u32_bytes(self.version);
        assert(s@ =~= old(s)@ + upto0);
        s.write_u32(self.cursor_offset_x);
        let ghost upto1 = upto0 + u32_bytes(self.cursor_offset_x);
        assert(s@ =~= old(s)@ + upto1);
        s.write_u32(self.cursor_offset_y);
        let ghost upto2 = upto1 + u32_bytes(self.cursor_offset_y);
        assert(s@ =~= old(s)@ + upto2);
        s.write_u32(self.cursor_target_area);
        let ghost upto3 = upto2 + u32_bytes(self.cursor_target_area);
        assert(s@ =~= old(s)@ + upto3);
        s.write_u32(self.dragbox_size_x);
        let ghost upto4 = upto3 + u32_bytes(self.dragbox_size_x);
        assert(s@ =~= old(s)@ + upto4);
        s.write_u32(self.dragbox_size_y);
        let ghost upto5 = upto4 + u32_bytes(self.dragbox_size_y);
        assert(s@ =~= old(s)@ + upto5);
        s.write_u32(self.primary_area_index);
        let ghost upto6 = upto5 + u32_bytes(self.primary_area_index);
        assert(s@ =~= old(s)@ + upto6);
        s.write_u8(self.area_count);
        let ghost upto7 = upto6 + seq![self.area_count];
        assert(s@ =~= old(s)@ + upto7);
    }

    proof fn lemma_roundtrip(v: Self) {
        reveal(<Header as Record>::encoding);
        reveal(<Header as Record>::parse);
        let e = v.encoding();
        lemma_u32_placed(e, 0, v.version);
        lemma_u32_placed(e, 4, v.cursor_offset_x);
        lemma_u32_placed(e, 8, v.cursor_offset_y);
        lemma_u32_placed(e, 12, v.cursor_target_area);
        lemma_u32_placed(e, 16, v.dragbox_size_x);
        lemma_u32_placed(e, 20, v.dragbox_size_y);
        lemma_u32_placed(e, 24, v.primary_area_index);
    }

    proof fn lemma_parse(b: Seq<u8>) {
        reveal(<Header as Record>::encoding);
        reveal(<Header as Record>::parse);
        lemma_u32_roundtrip(0, b, 0);
        lemma_u32_roundtrip(0, b, 4);
        lemma_u32_roundtrip(0, b, 8);
        lemma_u32_roundtrip(0, b, 12);
        lemma_u32_roundtrip(0, b, 16);
        lemma_u32_roundtrip(0, b, 20);
        lemma_u32_roundtrip(0, b, 24);
        assert(Self::parse(b).encoding() =~= b.take(29));
    }
}

/// The number of buildings, as the payload states it.
#[derive(Clone, Copy, Debug, PartialEq, Eq)]
pub struct BuildingCount {
    pub count: u32,
}

/// The number of bytes that one [`BuildingCount`] takes.
pub const BUILDING_COUNT_SIZE: usize = 4;

impl BuildingCount {
    /// Reads the record from a slice of exactly its size.
    pub fn from_bytes(b: &[u8]) -> (r: Self)
        requires
            b.len() == BUILDING_COUNT_SIZE,
        ensures
            r == Self::parse(b@),
    {
        reveal(<BuildingCount as Record>::parse);
        BuildingCount {
            count: get_u32(b, 0),
        }
    }
}

impl Record for BuildingCount {
    open spec fn size() -> nat {
        4
    }

    #[verifier::opaque]
    open spec fn parse(b: Seq<u8>) -> Self {
        BuildingCount {
            count: u32_at(b, 0),
        }
    }

    #[verifier::opaque]
    open spec fn encoding(self) -> Seq<u8> {
        u32_bytes(self.count)
    }

    fn byte_len() -> (n: usize) {
        BUILDING_COUNT_SIZE
    }

    fn read(d: &mut Deser) -> (r: Result<Self, Error>) {
        reveal(<BuildingCount as Record>::parse);
        let b = d.read_exact(BUILDING_COUNT_SIZE)?;
        Ok(Self::from_bytes(b))
    }

    fn write(&self, s: &mut Ser) {
        reveal(<BuildingCount as Record>::encoding);
        s.write_u32(self.count);
        assert(s@ =~= old(s)@ + self.encoding());
    }

    proof fn lemma_roundtrip(v: Self) {
        reveal(<BuildingCount as Record>::encoding);
        reveal(<BuildingCount as Record>::parse);
        let e = v.encoding();
        lemma_u32_placed(e, 0, v.count);
    }

    proof fn lemma_parse(b: Seq<u8>) {
        reveal(<BuildingCount as Record>::encoding);
        reveal(<BuildingCount as Record>::parse);
        lemma_u32_roundtrip(0, b, 0);
        assert(Self::parse(b).encoding() =~= b.take(4));
    }
}

/// The binary payload of a blueprint.
#[derive(Clone, Debug, PartialEq, Eq)]
pub struct BlueprintData {
    /// The head.
    pub header: Header,
    /// The regions, as many as the head announces.
    pub areas: Vec<Area>,
    /// The number of buildings, as the payload states it.
    pub building_count: BuildingCount,
    /// The buildings.
    pub buildings: Vec<Building>,
}

/// The binary payload as a mathematical value.
pub struct BlueprintDataView {
    pub header: Header,
    pub areas: Seq<Area>,
    pub building_count: BuildingCount,
    pub buildings: Seq<BuildingView>,
}

/// The buildings of a vector as mathematical values.
pub open spec fn building_views(v: Seq<Building>) -> Seq<BuildingView> {
    Seq::new(v.len(), |i: int| v[i]@)
}

impl View for BlueprintData {
    type V = BlueprintDataView;

    open spec fn view(&self) -> BlueprintDataView {
        BlueprintDataView {
            header: self.header,
            areas: self.areas@,
            building_count: self.building_count,
            buildings: building_views(self.buildings@),
        }
    }
}

/// What reading `n` buildings from `b` gives, after the buildings `done`:
/// all the buildings, and the bytes that follow the last.
pub open spec fn decode_buildings(b: Seq<u8>, n: nat, done: Seq<BuildingView>) -> Result<
    (Seq<BuildingView>, Seq<u8>),
    Error,
>
    decreases n,
{
    if n == 0 {
        Ok((done, b))
    } else {
        match BuildingView::decode(b) {
            Ok(v) => decode_buildings(b.skip(v.len() as int), (n - 1) as nat, done.push(v)),
            Err(e) => Err(e),
        }
    }
}

/// The bytes that hold a sequence of buildings. Where several buildings
/// cannot be written, the failure is that of the first.
pub open spec fn encode_buildings(s: Seq<BuildingView>) -> Result<Seq<u8>, Error>
    decreases s.len(),
{
    if s.len() == 0 {
        Ok(Seq::empty())
    } else {
        match s[0].encoding() {
            Ok(first) => match encode_buildings(s.skip(1)) {
                Ok(others) => Ok(first + others),
                Err(e) => Err(e),
            },
            Err(e) => Err(e),
        }
    }
}

/// Buildings that are read are well formed, stand behind those that were
/// read before them, and are written as the bytes that they were read from.
pub proof fn lemma_decode_buildings(b: Seq<u8>, n: nat, done: Seq<BuildingView>)
    requires
        decode_buildings(b, n, done) is Ok,
    ensures
        ({
            let (all, rest) = decode_buildings(b, n, done)->Ok_0;
            &&& all.len() == done.len() + n
            &&& all.take(done.len() as int) == done
            &&& forall|i: int| done.len() <= i < all.len() ==> (#[trigger] all[i]).wf()
            &&& encode_buildings(all.skip(done.len() as int)) matches Ok(e)
            &&& e.len() <= b.len()
            &&& e == b.take(e.len() as int)
            &&& rest == b.skip(e.len() as int)
        }),
    decreases n,
{
    let (all, rest) = decode_buildings(b, n, done)->Ok_0;
    if n > 0 {
        let v = BuildingView::decode(b)->Ok_0;
        let next = b.skip(v.len() as int);
        BuildingView::lemma_decode_encoding(b);
        lemma_decode_buildings(next, (n - 1) as nat, done.push(v));
        let new = all.skip(done.len() as int);
        let later = all.skip(done.len() as int + 1);
        assert(all[done.len() as int] == v) by {
            assert(all.take(done.len() as int + 1)[done.len() as int] == v);
        }
        assert(all.take(done.len() as int) =~= done) by {
            assert forall|i: int| 0 <= i < done.len() implies all[i] == done[i] by {
                assert(all.take(done.len() as int + 1)[i] == done.push(v)[i]);
            }
        }
        assert(new.skip(1) =~= later);
    }
}

/// Well-formed buildings are read again as they were written, whatever
/// follows them.
pub proof fn lemma_encode_buildings(s: Seq<BuildingView>, rest: Seq<u8>, done: Seq<BuildingView>)
    requires
        forall|i: int| 0 <= i < s.len() ==> (#[trigger] s[i]).wf(),
    ensures
        encode_buildings(s) is Ok,
        decode_buildings(encode_buildings(s)->Ok_0 + rest, s.len(), done) == Ok::<
            (Seq<BuildingView>, Seq<u8>),
            Error,
        >((done + s, rest)),
    decreases s.len(),
{
    if s.len() > 0 {
        let v = s[0];
        let later = s.skip(1);
        assert forall|i: int| 0 <= i < later.len() implies (#[trigger] later[i]).wf() by {}
        lemma_encode_buildings(later, rest, done.push(v));
        let first = v.encoding()->Ok_0;
        let others = encode_buildings(later)->Ok_0;
        v.lemma_encoding_decode(others + rest);
        v.lemma_encoding_decode(Seq::empty());
        let all = first + others + rest;
        assert(all =~= first + (others + rest));
        assert(all.skip(v.len() as int) =~= others + rest);
        assert(done.push(v) + later =~= done + s);
    }
}

impl BlueprintDataView {
    /// What reading a payload from `b` gives: the payload, and the bytes that
    /// follow it.
    pub open spec fn decode(b: Seq<u8>) -> Result<(BlueprintDataView, Seq<u8>), Error> {
        if b.len() < 29 {
            Err(Error::TruncatedInput)
        } else {
            let header = Header::parse(b);
            let after_header = b.skip(29);
            let after_areas = after_header.skip(14 * header.area_count);
            if header.version != 1 {
                Err(Error::UnsupportedVersion)
            } else if after_header.len() < 14 * header.area_count {
                Err(Error::TruncatedInput)
            } else if after_areas.len() < 4 {
                Err(Error::TruncatedInput)
            } else {
                let building_count = BuildingCount::parse(after_areas);
                match decode_buildings(
                    after_areas.skip(4),
                    building_count.count as nat,
                    Seq::empty(),
                ) {
                    Ok((buildings, rest)) => Ok(
                        (
                            BlueprintDataView {
                                header,
                                areas: parse_records::<Area>(
                                    after_header,
                                    header.area_count as nat,
                                ),
                                building_count,
                                buildings,
                            },
                            rest,
                        ),
                    ),
                    Err(e) => Err(e),
                }
            }
        }
    }

    /// The bytes that hold the payload.
    pub open spec fn encoding(self) -> Result<Seq<u8>, Error> {
        match encode_buildings(self.buildings) {
            Ok(b) => Ok(
                self.header.encoding() + records_bytes(self.areas)
                    + self.building_count.encoding() + b,
            ),
            Err(e) => Err(e),
        }
    }

    /// Whether the payload is one that can be read: its version is 1, it
    /// holds as many regions and buildings as it states, and each building
    /// is well formed.
    pub open spec fn wf(self) -> bool {
        &&& self.header.version == 1
        &&& self.areas.len() == self.header.area_count
        &&& self.buildings.len() == self.building_count.count
        &&& forall|i: int| 0 <= i < self.buildings.len() ==> (#[trigger] self.buildings[i]).wf()
    }

    /// A payload that is read is well formed, and is written as the bytes
    /// that it was read from.
    pub proof fn lemma_decode_encoding(b: Seq<u8>)
        requires
            Self::decode(b) is Ok,
        ensures
            ({
                let (v, rest) = Self::decode(b)->Ok_0;
                &&& v.wf()
                &&& v.encoding() matches Ok(e)
                &&& b == e + rest
            }),
    {
        let (v, rest) = Self::decode(b)->Ok_0;
        let after_header = b.skip(29);
        let after_areas = after_header.skip(14 * v.header.area_count);
        Header::lemma_parse(b);
        lemma_records_bytes_parse::<Area>(after_header, v.header.area_count as nat);
        BuildingCount::lemma_parse(after_areas);
        lemma_decode_buildings(after_areas.skip(4), v.building_count.count as nat, Seq::empty());
        assert(v.buildings.skip(0) =~= v.buildings);
    }

    /// A well-formed payload is read again as it was written, whatever
    /// follows it.
    pub proof fn lemma_encoding_decode(self, rest: Seq<u8>)
        requires
            self.wf(),
        ensures
            self.encoding() is Ok,
            Self::decode(self.encoding()->Ok_0 + rest) == Ok::<
                (BlueprintDataView, Seq<u8>),
                Error,
            >((self, rest)),
    {
        lemma_encode_buildings(self.buildings, rest, Seq::empty());
        let buildings = encode_buildings(self.buildings)->Ok_0;
        let head = self.header.encoding();
        let areas = records_bytes(self.areas);
        let count = self.building_count.encoding();
        let all = head + areas + count + buildings + rest;
        Header::lemma_roundtrip(self.header);
        Header::lemma_parse(all);
        assert(all.take(29) =~= head);
        lemma_records_len(self.areas);
        lemma_parse_records_bytes(self.areas, count + buildings + rest);
        assert(all.skip(29) =~= areas + (count + buildings + rest));
        let after_areas = all.skip(29).skip(14 * self.header.area_count);
        BuildingCount::lemma_roundtrip(self.building_count);
        BuildingCount::lemma_parse(after_areas);
        assert(after_areas.take(4) =~= count);
        assert(after_areas.skip(4) =~= buildings + rest);
    }
}

impl BlueprintData {
    /// Reads a payload.
    pub fn from_bp(d: &mut Deser) -> (r: Result<Self, Error>)
        ensures
            match r {
                Ok(v) => BlueprintDataView::decode(old(d).remaining()) == Ok::<
                    (BlueprintDataView, Seq<u8>),
                    Error,
                >((v@, final(d).remaining())),
                Err(e) => BlueprintDataView::decode(old(d).remaining()) == Err::<
                    (BlueprintDataView, Seq<u8>),
                    Error,
                >(e),
            },
    {
        let header = Header::read(d)?;
        if header.version != 1 {
            return Err(Error::UnsupportedVersion);
        }
        let areas = read_records::<Area>(d, header.area_count as usize)?;
        let building_count = BuildingCount::read(d)?;
        let ghost start = d.remaining();
        let ghost input = old(d).remaining();
        let count = building_count.count;
        let mut buildings: Vec<Building> = Vec::new();
        let mut i: u32 = 0;
        assert(building_views(buildings@) =~= Seq::<BuildingView>::empty());
        while i < count
            invariant
                i <= count,
                count == building_count.count,
                input == old(d).remaining(),
                BlueprintDataView::decode(input) == match decode_buildings(
                    start,
                    count as nat,
                    Seq::empty(),
                ) {
                    Ok((all, rest)) => Ok::<(BlueprintDataView, Seq<u8>), Error>(
                        (
                            BlueprintDataView {
                                header,
                                areas: areas@,
                                building_count,
                                buildings: all,
                            },
                            rest,
                        ),
                    ),
                    Err(e) => Err::<(BlueprintDataView, Seq<u8>), Error>(e),
                },
                decode_buildings(start, count as nat, Seq::empty()) == decode_buildings(
                    d.remaining(),
                    (count - i) as nat,
                    building_views(buildings@),
                ),
            decreases count - i,
        {
            let ghost before = building_views(buildings@);
            let b = Building::from_bp(d)?;
            buildings.push(b);
            assert(building_views(buildings@) =~= before.push(b@));
            i += 1;
        }
        Ok(BlueprintData { header, areas, building_count, buildings })
    }

    /// Writes a payload. Fails, and writes nothing, where a station does not
    /// go into the block that its building declares.
    pub fn to_bp(&self, s: &mut Ser) -> (r: Result<(), Error>)
        ensures
            match r {
                Ok(()) => {
                    &&& self@.encoding() matches Ok(enc)
                    &&& final(s)@ == old(s)@ + enc
                },
                Err(e) => {
                    &&& self@.encoding() == Err::<Seq<u8>, Error>(e)
                    &&& final(s)@ == old(s)@
                },
            },
    {
        let mut block = Ser::new();
        self.header.write(&mut block);
        write_records(self.areas.as_slice(), &mut block);
        self.building_count.write(&mut block);
        let ghost head = block@;
        let ghost all = building_views(self.buildings@);
        let n = self.buildings.len();
        let mut i: usize = 0;
        assert(all.skip(0) =~= all);
        while i < n
            invariant
                i <= n,
                n == self.buildings@.len(),
                all == building_views(self.buildings@),
                block@.len() >= head.len(),
                block@.take(head.len() as int) == head,
                match encode_buildings(all.skip(i as int)) {
                    Ok(others) => encode_buildings(all) == Ok::<Seq<u8>, Error>(
                        block@.skip(head.len() as int) + others,
                    ),
                    Err(e) => encode_buildings(all) == Err::<Seq<u8>, Error>(e),
                },
            decreases n - i,
        {
            let ghost before = block@;
            proof {
                assert(all.skip(i as int).skip(1) =~= all.skip(i + 1));
            }
            self.buildings[i].to_bp(&mut block)?;
            proof {
                let first = self.buildings@[i as int]@.encoding()->Ok_0;
                match encode_buildings(all.skip(i + 1)) {
                    Ok(others) => {
                        assert(before.skip(head.len() as int) + (first + others) =~= block@.skip(
                            head.len() as int,
                        ) + others);
                    },
                    Err(_) => {},
                }
            }
            i += 1;
        }
        let bytes = block.data();
        s.append(bytes.as_slice());
        Ok(())
    }

    /// Reads a payload from the start of a buffer. What follows the payload
    /// is passed over. A payload that is read is well formed.
    pub fn new_from_buf(b: &[u8]) -> (r: Result<Self, Error>)
        ensures
            match r {
                Ok(v) => BlueprintDataView::decode(b@) matches Ok((w, _)) && w == v@ && v@.wf(),
                Err(e) => BlueprintDataView::decode(b@) == Err::<
                    (BlueprintDataView, Seq<u8>),
                    Error,
                >(e),
            },
    {
        proof {
            if BlueprintDataView::decode(b@) is Ok {
                BlueprintDataView::lemma_decode_encoding(b@);
            }
        }
        let mut d = Deser::new(b);
        Self::from_bp(&mut d)
    }

    /// The bytes that hold the payload. Fails where a station does not go
    /// into the block that its building declares. A well-formed payload is
    /// written, and is read again from its bytes as it is.
    pub fn write(&self) -> (r: Result<Vec<u8>, Error>)
        ensures
            match r {
                Ok(v) => self@.encoding() == Ok::<Seq<u8>, Error>(v@),
                Err(e) => self@.encoding() == Err::<Seq<u8>, Error>(e),
            },
            self@.wf() ==> r is Ok && BlueprintDataView::decode(r->Ok_0@) == Ok::<
                (BlueprintDataView, Seq<u8>),
                Error,
            >((self@, Seq::empty())),
    {
        proof {
            if self@.wf() {
                self@.lemma_encoding_decode(Seq::empty());
            }
        }
        let mut w = Ser::new();
        self.to_bp(&mut w)?;
        Ok(w.data())
    }
}

} // verus!
