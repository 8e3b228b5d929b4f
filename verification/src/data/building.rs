//! Buildings.

use crate::data::belt::Belt;
use crate::data::enums::DSPItem;
use crate::data::station::{Station, StationView};
use crate::error::Error;
use crate::serialize::{
    Deser, get_i8, get_u16, get_u32, i8_byte, i8_of, lemma_i8_roundtrip,
    lemma_parse_records_bytes, lemma_records_bytes_parse, lemma_records_len, lemma_u16_placed,
    lemma_u16_roundtrip, lemma_u32_placed, lemma_u32_roundtrip, parse_records, read_records,
    Record, records_bytes, Ser, u16_at, u16_bytes, u32_at, u32_bytes, write_records,
};
use vstd::prelude::*;

verus! {

/// The fixed part of a building.
///
/// Positions and angles are 32-bit floats. They are held as their bits, which
/// this library carries through and never interprets.
#[derive(Clone, Copy, Debug, PartialEq, Eq)]
pub struct BuildingHeader {
    /// The number of the building within the blueprint.
    pub index: u32,
    /// The region that the building stands in.
    pub area_index: i8,
    /// The bits of the first position.
    pub local_offset_x: u32,
    pub local_offset_y: u32,
    pub local_offset_z: u32,
    /// The bits of the second position.
    pub local_offset_x2: u32,
    pub local_offset_y2: u32,
    pub local_offset_z2: u32,
    /// The bits of the first angle, in degrees.
    pub yaw: u32,
    /// The bits of the second angle, in degrees.
    pub yaw2: u32,
    /// Which building this is, as an item number.
    pub item_id: u16,
    /// Which model draws the building.
    pub model_index: u16,
    pub output_object_index: u32,
    pub input_object_index: u32,
    pub output_to_slot: i8,
    pub input_from_slot: i8,
    pub output_from_slot: i8,
    pub input_to_slot: i8,
    pub output_offset: i8,
    pub input_offset: i8,
    /// What the building makes, as a recipe number.
    pub recipe_id: u16,
    /// What the building lets pass, as an item number.
    pub filter_id: u16,
    /// How many 32-bit words of parameters follow.
    pub parameter_count: u16,
}

/// The number of bytes that one [`BuildingHeader`] takes.
pub const BUILDING_HEADER_SIZE: usize = 61;

impl BuildingHeader {
    /// Reads the record from a slice of exactly its size.
    pub fn from_bytes(b: &[u8]) -> (r: Self)
        requires
            b.len() == BUILDING_HEADER_SIZE,
        ensures
            r == Self::parse(b@),
    {
        reveal(<BuildingHeader as Record>::parse);
        BuildingHeader {
            index: get_u32(b, 0),
            area_index: get_i8(b, 4),
            local_offset_x: get_u32(b, 5),
            local_offset_y: get_u32(b, 9),
            local_offset_z: get_u32(b, 13),
            local_offset_x2: get_u32(b, 17),
            local_offset_y2: get_u32(b, 21),
            local_offset_z2: get_u32(b, 25),
            yaw: get_u32(b, 29),
            yaw2: get_u32(b, 33),
            item_id: get_u16(b, 37),
            model_index: get_u16(b, 39),
            output_object_index: get_u32(b, 41),
            input_object_index: get_u32(b, 45),
            output_to_slot: get_i8(b, 49),
            input_from_slot: get_i8(b, 50),
            output_from_slot: get_i8(b, 51),
            input_to_slot: get_i8(b, 52),
            output_offset: get_i8(b, 53),
            input_offset: get_i8(b, 54),
            recipe_id: get_u16(b, 55),
            filter_id: get_u16(b, 57),
            parameter_count: get_u16(b, 59),
        }
    }
}

impl Record for BuildingHeader {
    open spec fn size() -> nat {
        61
    }

    #[verifier::opaque]
    open spec fn parse(b: Seq<u8>) -> Self {
        BuildingHeader {
            index: u32_at(b, 0),
            area_index: i8_of(b[4]),
            local_offset_x: u32_at(b, 5),
            local_offset_y: u32_at(b, 9),
            local_offset_z: u32_at(b, 13),
            local_offset_x2: u32_at(b, 17),
            local_offset_y2: u32_at(b, 21),
            local_offset_z2: u32_at(b, 25),
            yaw: u32_at(b, 29),
            yaw2: u32_at(b, 33),
            item_id: u16_at(b, 37),
            model_index: u16_at(b, 39),
            output_object_index: u32_at(b, 41),
            input_object_index: u32_at(b, 45),
            output_to_slot: i8_of(b[49]),
            input_from_slot: i8_of(b[50]),
            output_from_slot: i8_of(b[51]),
            input_to_slot: i8_of(b[52]),
            output_offset: i8_of(b[53]),
            input_offset: i8_of(b[54]),
            recipe_id: u16_at(b, 55),
            filter_id: u16_at(b, 57),
            parameter_count: u16_at(b, 59),
        }
    }

    #[verifier::opaque]
    open spec fn encoding(self) -> Seq<u8> {
        u32_bytes(self.index) + seq![i8_byte(self.area_index)] + u32_bytes(self.local_offset_x)
            + u32_bytes(self.local_offset_y) + u32_bytes(self.local_offset_z)
            + u32_bytes(self.local_offset_x2) + u32_bytes(self.local_offset_y2)
            + u32_bytes(self.local_offset_z2) + u32_bytes(self.yaw) + u32_bytes(self.yaw2)
            + u16_bytes(self.item_id) + u16_bytes(self.model_index)
            + u32_bytes(self.output_object_index) + u32_bytes(self.input_object_index)
            + seq![i8_byte(self.output_to_slot)] + seq![i8_byte(self.input_from_slot)]
            + seq![i8_byte(self.output_from_slot)] + seq![i8_byte(self.input_to_slot)]
            + seq![i8_byte(self.output_offset)] + seq![i8_byte(self.input_offset)]
            + u16_bytes(self.recipe_id) + u16_bytes(self.filter_id)
            + u16_bytes(self.parameter_count)
    }

    fn byte_len() -> (n: usize) {
        BUILDING_HEADER_SIZE
    }

    fn read(d: &mut Deser) -> (r: Result<Self, Error>) {
        reveal(<BuildingHeader as Record>::parse);
        let b = d.read_exact(BUILDING_HEADER_SIZE)?;
        Ok(Self::from_bytes(b))
    }

    fn write(&self, s: &mut Ser) {
        reveal(<BuildingHeader as Record>::encoding);
        s.write_u32(self.index);
        let ghost upto0 = u32_bytes(self.index);
        assert(s@ =~= old(s)@ + upto0);
        s.write_i8(self.area_index);
        let ghost upto1 = upto0 + seq![i8_byte(self.area_index)];
        assert(s@ =~= old(s)@ + upto1);
        s.write_u32(self.local_offset_x);
        let ghost upto2 = upto1 + u32_bytes(self.local_offset_x);
        assert(s@ =~= old(s)@ + upto2);
        s.write_u32(self.local_offset_y);
        let ghost upto3 = upto2 + u32_bytes(self.local_offset_y);
        assert(s@ =~= old(s)@ + upto3);
        s.write_u32(self.local_offset_z);
        let ghost upto4 = upto3 + u32_bytes(self.local_offset_z);
        assert(s@ =~= old(s)@ + upto4);
        s.write_u32(self.local_offset_x2);
        let ghost upto5 = upto4 + u32_bytes(self.local_offset_x2);
        assert(s@ =~= old(s)@ + upto5);
        s.write_u32(self.local_offset_y2);
        let ghost upto6 = upto5 + u32_bytes(self.local_offset_y2);
        assert(s@ =~= old(s)@ + upto6);
        s.write_u32(self.local_offset_z2);
        let ghost upto7 = upto6 + u32_bytes(self.local_offset_z2);
        assert(s@ =~= old(s)@ + upto7);
        s.write_u32(self.yaw);
        let ghost upto8 = upto7 + u32_bytes(self.yaw);
        assert(s@ =~= old(s)@ + upto8);
        s.write_u32(self.yaw2);
        let ghost upto9 = upto8 + u32_bytes(self.yaw2);
        assert(s@ =~= old(s)@ + upto9);
        s.write_u16(self.item_id);
        let ghost upto10 = upto9 + u16_bytes(self.item_id);
        assert(s@ =~= old(s)@ + upto10);
        s.write_u16(self.model_index);
        let ghost upto11 = upto10 + u16_bytes(self.model_index);
        assert(s@ =~= old(s)@ + upto11);
        s.write_u32(self.output_object_index);
        let ghost upto12 = upto11 + u32_bytes(self.output_object_index);
        assert(s@ =~= old(s)@ + upto12);
        s.write_u32(self.input_object_index);
        let ghost upto13 = upto12 + u32_bytes(self.input_object_index);
        assert(s@ =~= old(s)@ + upto13);
        s.write_i8(self.output_to_slot);
        let ghost upto14 = upto13 + seq![i8_byte(self.output_to_slot)];
        assert(s@ =~= old(s)@ + upto14);
        s.write_i8(self.input_from_slot);
        let ghost upto15 = upto14 + seq![i8_byte(self.input_from_slot)];
        assert(s@ =~= old(s)@ + upto15);
        s.write_i8(self.output_from_slot);
        let ghost upto16 = upto15 + seq![i8_byte(self.output_from_slot)];
        assert(s@ =~= old(s)@ + upto16);
        s.write_i8(self.input_to_slot);
        let ghost upto17 = upto16 + seq![i8_byte(self.input_to_slot)];
        assert(s@ =~= old(s)@ + upto17);
        s.write_i8(self.output_offset);
        let ghost upto18 = upto17 + seq![i8_byte(self.output_offset)];
        assert(s@ =~= old(s)@ + upto18);
        s.write_i8(self.input_offset);
        let ghost upto19 = upto18 + seq![i8_byte(self.input_offset)];
        assert(s@ =~= old(s)@ + upto19);
        s.write_u16(self.recipe_id);
        let ghost upto20 = upto19 + u16_bytes(self.recipe_id);
        assert(s@ =~= old(s)@ + upto20);
        s.write_u16(self.filter_id);
        let ghost upto21 = upto20 + u16_bytes(self.filter_id);
        assert(s@ =~= old(s)@ + upto21);
        s.write_u16(self.parameter_count);
        let ghost upto22 = upto21 + u16_bytes(self.parameter_count);
        assert(s@ =~= old(s)@ + upto22);
    }

    proof fn lemma_roundtrip(v: Self) {
        reveal(<BuildingHeader as Record>::encoding);
        reveal(<BuildingHeader as Record>::parse);
        let upto0 = u32_bytes(v.index);
        assert(upto0.len() == 4);
        let upto1 = upto0 + seq![i8_byte(v.area_index)];
        assert(upto1.len() == 5);
        let upto2 = upto1 + u32_bytes(v.local_offset_x);
        assert(upto2.len() == 9);
        let upto3 = upto2 + u32_bytes(v.local_offset_y);
        assert(upto3.len() == 13);
        let upto4 = upto3 + u32_bytes(v.local_offset_z);
        assert(upto4.len() == 17);
        let upto5 = upto4 + u32_bytes(v.local_offset_x2);
        assert(upto5.len() == 21);
        let upto6 = upto5 + u32_bytes(v.local_offset_y2);
        assert(upto6.len() == 25);
        let upto7 = upto6 + u32_bytes(v.local_offset_z2);
        assert(upto7.len() == 29);
        let upto8 = upto7 + u32_bytes(v.yaw);
        assert(upto8.len() == 33);
        let upto9 = upto8 + u32_bytes(v.yaw2);
        assert(upto9.len() == 37);
        let upto10 = upto9 + u16_bytes(v.item_id);
        assert(upto10.len() == 39);
        let upto11 = upto10 + u16_bytes(v.model_index);
        assert(upto11.len() == 41);
        let upto12 = upto11 + u32_bytes(v.output_object_index);
        assert(upto12.len() == 45);
        let upto13 = upto12 + u32_bytes(v.input_object_index);
        assert(upto13.len() == 49);
        let upto14 = upto13 + seq![i8_byte(v.output_to_slot)];
        assert(upto14.len() == 50);
        let upto15 = upto14 + seq![i8_byte(v.input_from_slot)];
        assert(upto15.len() == 51);
        let upto16 = upto15 + seq![i8_byte(v.output_from_slot)];
        assert(upto16.len() == 52);
        let upto17 = upto16 + seq![i8_byte(v.input_to_slot)];
        assert(upto17.len() == 53);
        let upto18 = upto17 + seq![i8_byte(v.output_offset)];
        assert(upto18.len() == 54);
        let upto19 = upto18 + seq![i8_byte(v.input_offset)];
        assert(upto19.len() == 55);
        let upto20 = upto19 + u16_bytes(v.recipe_id);
        assert(upto20.len() == 57);
        let upto21 = upto20 + u16_bytes(v.filter_id);
        assert(upto21.len() == 59);
        let upto22 = upto21 + u16_bytes(v.parameter_count);
        assert(upto22.len() == 61);
        let e = v.encoding();
        assert(e == upto22);
        lemma_u32_placed(e, 0, v.index);
        lemma_i8_roundtrip(v.area_index, 0);
        lemma_u32_placed(e, 5, v.local_offset_x);
        lemma_u32_placed(e, 9, v.local_offset_y);
        lemma_u32_placed(e, 13, v.local_offset_z);
        lemma_u32_placed(e, 17, v.local_offset_x2);
        lemma_u32_placed(e, 21, v.local_offset_y2);
        lemma_u32_placed(e, 25, v.local_offset_z2);
        lemma_u32_placed(e, 29, v.yaw);
        lemma_u32_placed(e, 33, v.yaw2);
        lemma_u16_placed(e, 37, v.item_id);
        lemma_u16_placed(e, 39, v.model_index);
        lemma_u32_placed(e, 41, v.output_object_index);
        lemma_u32_placed(e, 45, v.input_object_index);
        lemma_i8_roundtrip(v.output_to_slot, 0);
        lemma_i8_roundtrip(v.input_from_slot, 0);
        lemma_i8_roundtrip(v.output_from_slot, 0);
        lemma_i8_roundtrip(v.input_to_slot, 0);
        lemma_i8_roundtrip(v.output_offset, 0);
        lemma_i8_roundtrip(v.input_offset, 0);
        lemma_u16_placed(e, 55, v.recipe_id);
        lemma_u16_placed(e, 57, v.filter_id);
        lemma_u16_placed(e, 59, v.parameter_count);
    }

    proof fn lemma_parse(b: Seq<u8>) {
        reveal(<BuildingHeader as Record>::encoding);
        reveal(<BuildingHeader as Record>::parse);
        lemma_u32_roundtrip(0, b, 0);
        lemma_i8_roundtrip(0, b[4]);
        lemma_u32_roundtrip(0, b, 5);
        lemma_u32_roundtrip(0, b, 9);
        lemma_u32_roundtrip(0, b, 13);
        lemma_u32_roundtrip(0, b, 17);
        lemma_u32_roundtrip(0, b, 21);
        lemma_u32_roundtrip(0, b, 25);
        lemma_u32_roundtrip(0, b, 29);
        lemma_u32_roundtrip(0, b, 33);
        lemma_u16_roundtrip(0, b, 37);
        lemma_u16_roundtrip(0, b, 39);
        lemma_u32_roundtrip(0, b, 41);
        lemma_u32_roundtrip(0, b, 45);
        lemma_i8_roundtrip(0, b[49]);
        lemma_i8_roundtrip(0, b[50]);
        lemma_i8_roundtrip(0, b[51]);
        lemma_i8_roundtrip(0, b[52]);
        lemma_i8_roundtrip(0, b[53]);
        lemma_i8_roundtrip(0, b[54]);
        lemma_u16_roundtrip(0, b, 55);
        lemma_u16_roundtrip(0, b, 57);
        lemma_u16_roundtrip(0, b, 59);
        assert(Self::parse(b).encoding() =~= b.take(61));
    }
}

/// The most parameter words that a building is taken to have.
pub const MAX_PARAMETER_COUNT: usize = 32768;

/// Whether `id` is the number of a logistics station.
pub open spec fn is_station_id(id: u16) -> bool {
    match DSPItem::of_id(id) {
        Some(i) => i == DSPItem::PlanetaryLogisticsStation || i
            == DSPItem::InterstellarLogisticsStation,
        None => false,
    }
}

/// Whether `id` is the number of a logistics station that trades between
/// planets.
pub open spec fn is_interstellar_id(id: u16) -> bool {
    match DSPItem::of_id(id) {
        Some(i) => i == DSPItem::InterstellarLogisticsStation,
        None => false,
    }
}

/// Whether `id` is the number of a conveyor belt.
pub open spec fn is_belt_id(id: u16) -> bool {
    match DSPItem::of_id(id) {
        Some(i) => i == DSPItem::ConveyorBeltMKI || i == DSPItem::ConveyorBeltMKII || i
            == DSPItem::ConveyorBeltMKIII,
        None => false,
    }
}

/// Whether the number `i` is that of an item of which `f` holds. Of a number
/// that the catalog does not hold, nothing holds.
pub fn b_is<F: Fn(&DSPItem) -> bool>(i: u16, f: F) -> (r: bool)
    requires
        forall|x: DSPItem| call_requires(f, (&x,)),
    ensures
        match DSPItem::of_id(i) {
            Some(x) => call_ensures(f, (&x,), r),
            None => !r,
        },
{
    match DSPItem::try_from(i) {
        Ok(x) => f(&x),
        Err(_) => false,
    }
}

impl BuildingHeader {
    /// Whether the building is a logistics station.
    pub fn has_station(&self) -> (r: bool)
        ensures
            r == is_station_id(self.item_id),
    {
        b_is(self.item_id, DSPItem::is_station)
    }

    /// Whether the building is a logistics station that trades between
    /// planets.
    pub fn has_interstellar(&self) -> (r: bool)
        ensures
            r == is_interstellar_id(self.item_id),
    {
        b_is(self.item_id, DSPItem::is_interstellar_station)
    }
}

/// The parameters of a building. Which shape they have follows from the
/// building's item number and from how many words it declares, never from
/// the parameters themselves.
#[derive(Clone, Debug, PartialEq, Eq)]
pub enum BuildingParam {
    /// The parameters of a logistics station.
    Station(Station),
    /// The parameters of a conveyor belt: its label, or nothing.
    Belt(Option<Belt>),
    /// The parameters of any other building, as the words that were read.
    Unknown(Vec<u32>),
}

/// The parameters of a building as a mathematical value.
pub enum BuildingParamView {
    Station(StationView),
    Belt(Option<Belt>),
    Unknown(Seq<u32>),
}

impl View for BuildingParam {
    type V = BuildingParamView;

    open spec fn view(&self) -> BuildingParamView {
        match self {
            BuildingParam::Station(s) => BuildingParamView::Station(s@),
            BuildingParam::Belt(b) => BuildingParamView::Belt(*b),
            BuildingParam::Unknown(w) => BuildingParamView::Unknown(w@),
        }
    }
}

impl BuildingParamView {
    /// What reading the parameters of a building from `b` gives, where the
    /// building has the item number `item_id` and declares `count` words.
    pub open spec fn decode(b: Seq<u8>, item_id: u16, count: nat) -> Result<
        BuildingParamView,
        Error,
    > {
        if count > 32768 {
            Err(Error::OversizedParameterBlock)
        } else if is_station_id(item_id) {
            match StationView::decode(b, is_interstellar_id(item_id), 4 * count) {
                Ok(s) => Ok(BuildingParamView::Station(s)),
                Err(e) => Err(e),
            }
        } else if b.len() < 4 * count {
            Err(Error::TruncatedInput)
        } else if is_belt_id(item_id) && count == 2 {
            Ok(BuildingParamView::Belt(Some(Belt::parse(b))))
        } else if is_belt_id(item_id) && count == 0 {
            Ok(BuildingParamView::Belt(None))
        } else {
            Ok(BuildingParamView::Unknown(parse_records::<u32>(b, count)))
        }
    }

    /// The bytes that hold the parameters of a building that declares `count`
    /// words. Only a station can fail to have any.
    pub open spec fn encoding(self, count: nat) -> Result<Seq<u8>, Error> {
        match self {
            BuildingParamView::Station(s) => s.encoding(4 * count),
            BuildingParamView::Belt(Some(b)) => Ok(b.encoding()),
            BuildingParamView::Belt(None) => Ok(Seq::empty()),
            BuildingParamView::Unknown(w) => Ok(records_bytes(w)),
        }
    }

    /// Whether the parameters are those of a building with the item number
    /// `item_id` that declares `count` words: of the shape that such a
    /// building has, and as long as it declares.
    pub open spec fn fits(self, item_id: u16, count: nat) -> bool {
        &&& count <= 32768
        &&& match self {
            BuildingParamView::Station(s) => {
                &&& is_station_id(item_id)
                &&& s.is_interstellar == is_interstellar_id(item_id)
                &&& s.fits(4 * count)
            },
            BuildingParamView::Belt(Some(_)) => {
                &&& !is_station_id(item_id)
                &&& is_belt_id(item_id)
                &&& count == 2
            },
            BuildingParamView::Belt(None) => {
                &&& !is_station_id(item_id)
                &&& is_belt_id(item_id)
                &&& count == 0
            },
            BuildingParamView::Unknown(w) => {
                &&& !is_station_id(item_id)
                &&& !(is_belt_id(item_id) && (count == 2 || count == 0))
                &&& w.len() == count
            },
        }
    }

    /// **A belt that declares two words holds a label, and a belt that
    /// declares none holds none.**
    pub proof fn lemma_belt_arity(b: Seq<u8>, item_id: u16)
        requires
            is_belt_id(item_id),
        ensures
            b.len() >= 8 ==> Self::decode(b, item_id, 2) == Ok::<BuildingParamView, Error>(
                BuildingParamView::Belt(Some(Belt::parse(b))),
            ),
            Self::decode(b, item_id, 0) == Ok::<BuildingParamView, Error>(
                BuildingParamView::Belt(None),
            ),
    {
    }

    /// **A station that is read has the number of wares of its kind**: five
    /// where it trades between planets, else three.
    pub proof fn lemma_station_arity(b: Seq<u8>, item_id: u16, count: nat)
        requires
            Self::decode(b, item_id, count) matches Ok(BuildingParamView::Station(_)),
        ensures
            Self::decode(b, item_id, count)->Ok_0->Station_0.storage.len() == if is_interstellar_id(
                item_id,
            ) {
                5nat
            } else {
                3nat
            },
    {
    }

    /// Parameters that are read fit their building, and are written as the
    /// bytes that they were read from.
    pub proof fn lemma_decode_encoding(b: Seq<u8>, item_id: u16, count: nat)
        requires
            Self::decode(b, item_id, count) is Ok,
        ensures
            b.len() >= 4 * count,
            Self::decode(b, item_id, count)->Ok_0.fits(item_id, count),
            Self::decode(b, item_id, count)->Ok_0.encoding(count) == Ok::<Seq<u8>, Error>(
                b.take(4 * (count as int)),
            ),
    {
        let p = Self::decode(b, item_id, count)->Ok_0;
        match p {
            BuildingParamView::Station(s) => {
                StationView::lemma_parse_encoding(
                    b.take(4 * (count as int)),
                    is_interstellar_id(item_id),
                );
            },
            BuildingParamView::Belt(Some(belt)) => {
                Belt::lemma_parse(b);
            },
            BuildingParamView::Belt(None) => {
                assert(b.take(0) =~= Seq::<u8>::empty());
            },
            BuildingParamView::Unknown(w) => {
                lemma_records_bytes_parse::<u32>(b, count);
            },
        }
    }

    /// Parameters that fit their building are written as four bytes for
    /// every word that the building declares, and are read again as they
    /// were, whatever follows them.
    pub proof fn lemma_encoding_decode(self, item_id: u16, count: nat, rest: Seq<u8>)
        requires
            self.fits(item_id, count),
        ensures
            self.encoding(count) is Ok,
            self.encoding(count)->Ok_0.len() == 4 * count,
            Self::decode(self.encoding(count)->Ok_0 + rest, item_id, count) == Ok::<
                BuildingParamView,
                Error,
            >(self),
    {
        match self {
            BuildingParamView::Station(s) => {
                s.lemma_encoding_parse(4 * count);
                let e = s.encoding(4 * count)->Ok_0;
                assert((e + rest).take(4 * (count as int)) =~= e);
            },
            BuildingParamView::Belt(Some(belt)) => {
                Belt::lemma_roundtrip(belt);
                Belt::lemma_parse(belt.encoding() + rest);
                assert((belt.encoding() + rest).take(8) =~= belt.encoding());
            },
            BuildingParamView::Belt(None) => {},
            BuildingParamView::Unknown(w) => {
                lemma_records_len(w);
                lemma_parse_records_bytes(w, rest);
            },
        }
    }
}

impl BuildingParam {
    /// Reads the parameters of a building with the item number `item_id`
    /// that declares `param_count` words. Where it fails, it reads nothing.
    pub fn from_bp(d: &mut Deser, item_id: u16, param_count: u16) -> (r: Result<Self, Error>)
        ensures
            match r {
                Ok(v) => {
                    &&& BuildingParamView::decode(
                        old(d).remaining(),
                        item_id,
                        param_count as nat,
                    ) == Ok::<BuildingParamView, Error>(v@)
                    &&& final(d).remaining() == old(d).remaining().skip(4 * param_count)
                },
                Err(e) => {
                    &&& BuildingParamView::decode(
                        old(d).remaining(),
                        item_id,
                        param_count as nat,
                    ) == Err::<BuildingParamView, Error>(e)
                    &&& final(d).remaining() == old(d).remaining()
                },
            },
    {
        let param_count = param_count as usize;
        if param_count > MAX_PARAMETER_COUNT {
            return Err(Error::OversizedParameterBlock);
        }
        if b_is(item_id, DSPItem::is_station) {
            let is_interstellar = b_is(item_id, DSPItem::is_interstellar_station);
            let station = Station::from_bp(d, is_interstellar, 4 * param_count)?;
            Ok(BuildingParam::Station(station))
        } else if b_is(item_id, DSPItem::is_belt) && param_count == 2 {
            let belt = Belt::read(d)?;
            Ok(BuildingParam::Belt(Some(belt)))
        } else if b_is(item_id, DSPItem::is_belt) && param_count == 0 {
            Ok(BuildingParam::Belt(None))
        } else {
            let words = read_records::<u32>(d, param_count)?;
            Ok(BuildingParam::Unknown(words))
        }
    }

    /// Writes the parameters of a building that declares `param_count`
    /// words. Only a station can fail to be written; nothing is written then.
    pub fn to_bp(&self, s: &mut Ser, param_count: u16) -> (r: Result<(), Error>)
        ensures
            match r {
                Ok(()) => {
                    &&& self@.encoding(param_count as nat) matches Ok(enc)
                    &&& final(s)@ == old(s)@ + enc
                },
                Err(e) => {
                    &&& self@.encoding(param_count as nat) == Err::<Seq<u8>, Error>(e)
                    &&& final(s)@ == old(s)@
                },
            },
    {
        match self {
            BuildingParam::Station(station) => station.to_bp(s, 4 * (param_count as usize)),
            BuildingParam::Belt(Some(belt)) => {
                belt.write(s);
                Ok(())
            },
            BuildingParam::Belt(None) => {
                Ok(())
            },
            BuildingParam::Unknown(words) => {
                write_records(words.as_slice(), s);
                Ok(())
            },
        }
    }
}

/// One building of a blueprint.
#[derive(Clone, Debug, PartialEq, Eq)]
pub struct Building {
    /// The fixed part.
    pub header: BuildingHeader,
    /// The parameters.
    pub param: BuildingParam,
}

/// A building as a mathematical value.
pub struct BuildingView {
    pub header: BuildingHeader,
    pub param: BuildingParamView,
}

impl View for Building {
    type V = BuildingView;

    open spec fn view(&self) -> BuildingView {
        BuildingView { header: self.header, param: self.param@ }
    }
}

impl BuildingView {
    /// How many bytes the building takes.
    pub open spec fn len(self) -> nat {
        (61 + 4 * self.header.parameter_count) as nat
    }

    /// What reading a building from `b` gives.
    pub open spec fn decode(b: Seq<u8>) -> Result<BuildingView, Error> {
        if b.len() < 61 {
            Err(Error::TruncatedInput)
        } else {
            let header = BuildingHeader::parse(b);
            match BuildingParamView::decode(
                b.skip(61),
                header.item_id,
                header.parameter_count as nat,
            ) {
                Ok(param) => Ok(BuildingView { header, param }),
                Err(e) => Err(e),
            }
        }
    }

    /// The bytes that hold the building.
    pub open spec fn encoding(self) -> Result<Seq<u8>, Error> {
        match self.param.encoding(self.header.parameter_count as nat) {
            Ok(p) => Ok(self.header.encoding() + p),
            Err(e) => Err(e),
        }
    }

    /// Whether the parameters of the building are those that its fixed part
    /// announces.
    pub open spec fn wf(self) -> bool {
        self.param.fits(self.header.item_id, self.header.parameter_count as nat)
    }

    /// A building that is read is well formed, and is written as the bytes
    /// that it was read from.
    pub proof fn lemma_decode_encoding(b: Seq<u8>)
        requires
            Self::decode(b) is Ok,
        ensures
            Self::decode(b)->Ok_0.wf(),
            b.len() >= Self::decode(b)->Ok_0.len(),
            Self::decode(b)->Ok_0.encoding() == Ok::<Seq<u8>, Error>(
                b.take(Self::decode(b)->Ok_0.len() as int),
            ),
    {
        let v = Self::decode(b)->Ok_0;
        let count = v.header.parameter_count as nat;
        BuildingHeader::lemma_parse(b);
        BuildingParamView::lemma_decode_encoding(b.skip(61), v.header.item_id, count);
        assert(b.take(61) + b.skip(61).take(4 * (count as int)) =~= b.take(61 + 4 * (count as int)));
    }

    /// A well-formed building is read again as it was written, whatever
    /// follows it.
    pub proof fn lemma_encoding_decode(self, rest: Seq<u8>)
        requires
            self.wf(),
        ensures
            self.encoding() is Ok,
            self.encoding()->Ok_0.len() == self.len(),
            Self::decode(self.encoding()->Ok_0 + rest) == Ok::<BuildingView, Error>(self),
    {
        let count = self.header.parameter_count as nat;
        self.param.lemma_encoding_decode(self.header.item_id, count, rest);
        BuildingHeader::lemma_roundtrip(self.header);
        let p = self.param.encoding(count)->Ok_0;
        let all = self.header.encoding() + p + rest;
        BuildingHeader::lemma_parse(all);
        assert(all.take(61) =~= self.header.encoding());
        assert(all.skip(61) =~= p + rest);
    }
}

impl Building {
    /// The item that the building is. Fails where the catalog does not hold
    /// the building's item number.
    pub fn kind(&self) -> (r: Result<DSPItem, Error>)
        ensures
            match r {
                Ok(x) => DSPItem::of_id(self.header.item_id) == Some(x),
                Err(e) => DSPItem::of_id(self.header.item_id) is None && e
                    == Error::UnknownIdentifier,
            },
    {
        DSPItem::try_from(self.header.item_id)
    }

    /// Reads a building. Where the parameters cannot be read, the fixed part
    /// has been read all the same.
    pub fn from_bp(d: &mut Deser) -> (r: Result<Self, Error>)
        ensures
            match r {
                Ok(v) => {
                    &&& BuildingView::decode(old(d).remaining()) == Ok::<BuildingView, Error>(v@)
                    &&& v@.wf()
                    &&& final(d).remaining() == old(d).remaining().skip(v@.len() as int)
                },
                Err(e) => {
                    &&& BuildingView::decode(old(d).remaining()) == Err::<BuildingView, Error>(e)
                    &&& final(d).remaining() == if old(d).remaining().len() < 61 {
                        old(d).remaining()
                    } else {
                        old(d).remaining().skip(61)
                    }
                },
            },
    {
        proof {
            if BuildingView::decode(d.remaining()) is Ok {
                BuildingView::lemma_decode_encoding(d.remaining());
            }
        }
        let header = BuildingHeader::read(d)?;
        let param = BuildingParam::from_bp(d, header.item_id, header.parameter_count)?;
        assert(old(d).remaining().skip(61).skip(4 * header.parameter_count) =~= old(
            d,
        ).remaining().skip(61 + 4 * header.parameter_count));
        Ok(Building { header, param })
    }

    /// Writes a building. Fails, and writes nothing, where the building is a
    /// station that does not go into the block that it declares.
    pub fn to_bp(&self, s: &mut Ser) -> (r: Result<(), Error>)
        ensures
            match r {
                Ok(()) => {
                    &&& self@.encoding() matches Ok(enc)
                    &&& final(s)@ == old(s)@ + enc
                },
                Err(e) => {
                    &&& self@.encoding() == Err::<Seq<u8>, Error>(e)
                    &&& final(s)@ == old(s)@
                },
            },
    {
        let mut block = Ser::new();
        self.header.write(&mut block);
        self.param.to_bp(&mut block, self.header.parameter_count)?;
        let bytes = block.data();
        s.append(bytes.as_slice());
        Ok(())
    }
}

} // verus!
