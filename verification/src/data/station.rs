//! Logistics stations.

use crate::error::Error;
use crate::serialize::{
    Deser, get_u32, lemma_parse_records_bytes, lemma_records_bytes_parse, lemma_records_len,
    lemma_u32_placed, lemma_u32_roundtrip, parse_records, read_records, Record, records_bytes,
    Ser, u32_at, u32_bytes, write_records, zeros,
};
use vstd::prelude::*;
use vstd::slice::{slice_subrange, slice_to_vec};

verus! {

/// The settings of a logistics station.
#[derive(Clone, Copy, Debug, PartialEq, Eq)]
pub struct StationHeader {
    /// The charging power, in watts per tick.
    pub work_energy_per_tick: u32,
    /// The cosine of the range of the drones, times 10^8.
    pub drone_range: u32,
    /// The range of the vessels; a light year is 24000.
    pub vessel_range: u32,
    /// 1 where the station takes from orbital collectors.
    pub orbital_collector: u32,
    /// From where on vessels warp; an astronomical unit is 40000.
    pub warp_distance: u32,
    /// 1 where vessels must carry warpers.
    pub equip_warper: u32,
    /// The least load of a drone, in percent.
    pub drone_min_capacity: u32,
    /// The least load of a vessel, in percent.
    pub vessel_min_capacity: u32,
}

/// The number of bytes that one [`StationHeader`] takes.
pub const STATION_HEADER_SIZE: usize = 32;

impl StationHeader {
    /// Reads the record from a slice of exactly its size.
    pub fn from_bytes(b: &[u8]) -> (r: Self)
        requires
            b.len() == STATION_HEADER_SIZE,
        ensures
            r == Self::parse(b@),
    {
        reveal(<StationHeader as Record>::parse);
        StationHeader {
            work_energy_per_tick: get_u32(b, 0),
            drone_range: get_u32(b, 4),
            vessel_range: get_u32(b, 8),
            orbital_collector: get_u32(b, 12),
            warp_distance: get_u32(b, 16),
            equip_warper: get_u32(b, 20),
            drone_min_capacity: get_u32(b, 24),
            vessel_min_capacity: get_u32(b, 28),
        }
    }
}

impl Record for StationHeader {
    open spec fn size() -> nat {
        32
    }

    #[verifier::opaque]
    open spec fn parse(b: Seq<u8>) -> Self {
        StationHeader {
            work_energy_per_tick: u32_at(b, 0),
            drone_range: u32_at(b, 4),
            vessel_range: u32_at(b, 8),
            orbital_collector: u32_at(b, 12),
            warp_distance: u32_at(b, 16),
            equip_warper: u32_at(b, 20),
            drone_min_capacity: u32_at(b, 24),
            vessel_min_capacity: u32_at(b, 28),
        }
    }

    #[verifier::opaque]
    open spec fn encoding(self) -> Seq<u8> {
        u32_bytes(self.work_energy_per_tick) + u32_bytes(self.drone_range)
            + u32_bytes(self.vessel_range) + u32_bytes(self.orbital_collector)
            + u32_bytes(self.warp_distance) + u32_bytes(self.equip_warper)
            + u32_bytes(self.drone_min_capacity) + u32_bytes(self.vessel_min_capacity)
    }

    fn byte_len() -> (n: usize) {
        STATION_HEADER_SIZE
    }

    fn read(d: &mut Deser) -> (r: Result<Self, Error>) {
        reveal(<StationHeader as Record>::parse);
        let b = d.read_exact(STATION_HEADER_SIZE)?;
        Ok(Self::from_bytes(b))
    }

    fn write(&self, s: &mut Ser) {
        reveal(<StationHeader as Record>::encoding);
        s.write_u32(self.work_energy_per_tick);
        let ghost upto0 = u32_bytes(self.work_energy_per_tick);
        assert(s@ =~= old(s)@ + upto0);
        s.write_u32(self.drone_range);
        let ghost upto1 = upto0 + u32_bytes(self.drone_range);
        assert(s@ =~= old(s)@ + upto1);
        s.write_u32(self.vessel_range);
        let ghost upto2 = upto1 + u32_bytes(self.vessel_range);
        assert(s@ =~= old(s)@ + upto2);
        s.write_u32(self.orbital_collector);
        let ghost upto3 = upto2 + u32_bytes(self.orbital_collector);
        assert(s@ =~= old(s)@ + upto3);
        s.write_u32(self.warp_distance);
        let ghost upto4 = upto3 + u32_bytes(self.warp_distance);
        assert(s@ =~= old(s)@ + upto4);
        s.write_u32(self.equip_warper);
        let ghost upto5 = upto4 + u32_bytes(self.equip_warper);
        assert(s@ =~= old(s)@ + upto5);
        s.write_u32(self.drone_min_capacity);
        let ghost upto6 = upto5 + u32_bytes(self.drone_min_capacity);
        assert(s@ =~= old(s)@ + upto6);
        s.write_u32(self.vessel_min_capacity);
        let ghost upto7 = upto6 + u32_bytes(self.vessel_min_capacity);
        assert(s@ =~= old(s)@ + upto7);
    }

    proof fn lemma_roundtrip(v: Self) {
        reveal(<StationHeader as Record>::encoding);
        reveal(<StationHeader as Record>::parse);
        let e = v.encoding();
        lemma_u32_placed(e, 0, v.work_energy_per_tick);
        lemma_u32_placed(e, 4, v.drone_range);
        lemma_u32_placed(e, 8, v.vessel_range);
        lemma_u32_placed(e, 12, v.orbital_collector);
        lemma_u32_placed(e, 16, v.warp_distance);
        lemma_u32_placed(e, 20, v.equip_warper);
        lemma_u32_placed(e, 24, v.drone_min_capacity);
        lemma_u32_placed(e, 28, v.vessel_min_capacity);
    }

    proof fn lemma_parse(b: Seq<u8>) {
        reveal(<StationHeader as Record>::encoding);
        reveal(<StationHeader as Record>::parse);
        lemma_u32_roundtrip(0, b, 0);
        lemma_u32_roundtrip(0, b, 4);
        lemma_u32_roundtrip(0, b, 8);
        lemma_u32_roundtrip(0, b, 12);
        lemma_u32_roundtrip(0, b, 16);
        lemma_u32_roundtrip(0, b, 20);
        lemma_u32_roundtrip(0, b, 24);
        lemma_u32_roundtrip(0, b, 28);
        assert(Self::parse(b).encoding() =~= b.take(32));
    }
}

/// One of the twelve belt connections of a logistics station.
#[derive(Clone, Copy, Debug, PartialEq, Eq)]
pub struct StationSlots {
    /// Whether the connection takes in or gives out.
    pub direction: u32,
    /// The storage record that the connection serves, counted from 1.
    pub storage_index: u32,
    pub unused1: u32,
    pub unused2: u32,
}

/// The number of bytes that one [`StationSlots`] takes.
pub const STATION_SLOTS_SIZE: usize = 16;

impl StationSlots {
    /// Reads the record from a slice of exactly its size.
    pub fn from_bytes(b: &[u8]) -> (r: Self)
        requires
            b.len() == STATION_SLOTS_SIZE,
        ensures
            r == Self::parse(b@),
    {
        reveal(<StationSlots as Record>::parse);
        StationSlots {
            direction: get_u32(b, 0),
            storage_index: get_u32(b, 4),
            unused1: get_u32(b, 8),
            unused2: get_u32(b, 12),
        }
    }
}

impl Record for StationSlots {
    open spec fn size() -> nat {
        16
    }

    #[verifier::opaque]
    open spec fn parse(b: Seq<u8>) -> Self {
        StationSlots {
            direction: u32_at(b, 0),
            storage_index: u32_at(b, 4),
            unused1: u32_at(b, 8),
            unused2: u32_at(b, 12),
        }
    }

    #[verifier::opaque]
    open spec fn encoding(self) -> Seq<u8> {
        u32_bytes(self.direction) + u32_bytes(self.storage_index) + u32_bytes(self.unused1)
            + u32_bytes(self.unused2)
    }

    fn byte_len() -> (n: usize) {
        STATION_SLOTS_SIZE
    }

    fn read(d: &mut Deser) -> (r: Result<Self, Error>) {
        reveal(<StationSlots as Record>::parse);
        let b = d.read_exact(STATION_SLOTS_SIZE)?;
        Ok(Self::from_bytes(b))
    }

    fn write(&self, s: &mut Ser) {
        reveal(<StationSlots as Record>::encoding);
        s.write_u32(self.direction);
        let ghost upto0 = u32_bytes(self.direction);
        assert(s@ =~= old(s)@ + upto0);
        s.write_u32(self.storage_index);
        let ghost upto1 = upto0 + u32_bytes(self.storage_index);
        assert(s@ =~= old(s)@ + upto1);
        s.write_u32(self.unused1);
        let ghost upto2 = upto1 + u32_bytes(self.unused1);
        assert(s@ =~= old(s)@ + upto2);
        s.write_u32(self.unused2);
        let ghost upto3 = upto2 + u32_bytes(self.unused2);
        assert(s@ =~= old(s)@ + upto3);
    }

    proof fn lemma_roundtrip(v: Self) {
        reveal(<StationSlots as Record>::encoding);
        reveal(<StationSlots as Record>::parse);
        let e = v.encoding();
        lemma_u32_placed(e, 0, v.direction);
        lemma_u32_placed(e, 4, v.storage_index);
        lemma_u32_placed(e, 8, v.unused1);
        lemma_u32_placed(e, 12, v.unused2);
    }

    proof fn lemma_parse(b: Seq<u8>) {
        reveal(<StationSlots as Record>::encoding);
        reveal(<StationSlots as Record>::parse);
        lemma_u32_roundtrip(0, b, 0);
        lemma_u32_roundtrip(0, b, 4);
        lemma_u32_roundtrip(0, b, 8);
        lemma_u32_roundtrip(0, b, 12);
        assert(Self::parse(b).encoding() =~= b.take(16));
    }
}

/// One of the wares that a logistics station holds.
#[derive(Clone, Copy, Debug, PartialEq, Eq)]
pub struct StationStorage {
    /// The ware, as an item number.
    pub item_id: u32,
    /// What the station does with the ware on its planet.
    pub local_logic: u32,
    /// What the station does with the ware between planets.
    pub remote_logic: u32,
    /// How much of the ware the station holds at most.
    pub max_count: u32,
    pub unused1: u32,
    pub unused2: u32,
}

/// The number of bytes that one [`StationStorage`] takes.
pub const STATION_STORAGE_SIZE: usize = 24;

impl StationStorage {
    /// Reads the record from a slice of exactly its size.
    pub fn from_bytes(b: &[u8]) -> (r: Self)
        requires
            b.len() == STATION_STORAGE_SIZE,
        ensures
            r == Self::parse(b@),
    {
        reveal(<StationStorage as Record>::parse);
        StationStorage {
            item_id: get_u32(b, 0),
            local_logic: get_u32(b, 4),
            remote_logic: get_u32(b, 8),
            max_count: get_u32(b, 12),
            unused1: get_u32(b, 16),
            unused2: get_u32(b, 20),
        }
    }
}

impl Record for StationStorage {
    open spec fn size() -> nat {
        24
    }

    #[verifier::opaque]
    open spec fn parse(b: Seq<u8>) -> Self {
        StationStorage {
            item_id: u32_at(b, 0),
            local_logic: u32_at(b, 4),
            remote_logic: u32_at(b, 8),
            max_count: u32_at(b, 12),
            unused1: u32_at(b, 16),
            unused2: u32_at(b, 20),
        }
    }

    #[verifier::opaque]
    open spec fn encoding(self) -> Seq<u8> {
        u32_bytes(self.item_id) + u32_bytes(self.local_logic) + u32_bytes(self.remote_logic)
            + u32_bytes(self.max_count) + u32_bytes(self.unused1) + u32_bytes(self.unused2)
    }

    fn byte_len() -> (n: usize) {
        STATION_STORAGE_SIZE
    }

    fn read(d: &mut Deser) -> (r: Result<Self, Error>) {
        reveal(<StationStorage as Record>::parse);
        let b = d.read_exact(STATION_STORAGE_SIZE)?;
        Ok(Self::from_bytes(b))
    }

    fn write(&self, s: &mut Ser) {
        reveal(<StationStorage as Record>::encoding);
        s.write_u32(self.item_id);
        let ghost upto0 = u32_bytes(self.item_id);
        assert(s@ =~= old(s)@ + upto0);
        s.write_u32(self.local_logic);
        let ghost upto1 = upto0 + u32_bytes(self.local_logic);
        assert(s@ =~= old(s)@ + upto1);
        s.write_u32(self.remote_logic);
        let ghost upto2 = upto1 + u32_bytes(self.remote_logic);
        assert(s@ =~= old(s)@ + upto2);
        s.write_u32(self.max_count);
        let ghost upto3 = upto2 + u32_bytes(self.max_count);
        assert(s@ =~= old(s)@ + upto3);
        s.write_u32(self.unused1);
        let ghost upto4 = upto3 + u32_bytes(self.unused1);
        assert(s@ =~= old(s)@ + upto4);
        s.write_u32(self.unused2);
        let ghost upto5 = upto4 + u32_bytes(self.unused2);
        assert(s@ =~= old(s)@ + upto5);
    }

    proof fn lemma_roundtrip(v: Self) {
        reveal(<StationStorage as Record>::encoding);
        reveal(<StationStorage as Record>::parse);
        let e = v.encoding();
        lemma_u32_placed(e, 0, v.item_id);
        lemma_u32_placed(e, 4, v.local_logic);
        lemma_u32_placed(e, 8, v.remote_logic);
        lemma_u32_placed(e, 12, v.max_count);
        lemma_u32_placed(e, 16, v.unused1);
        lemma_u32_placed(e, 20, v.unused2);
    }

    proof fn lemma_parse(b: Seq<u8>) {
        reveal(<StationStorage as Record>::encoding);
        reveal(<StationStorage as Record>::parse);
        lemma_u32_roundtrip(0, b, 0);
        lemma_u32_roundtrip(0, b, 4);
        lemma_u32_roundtrip(0, b, 8);
        lemma_u32_roundtrip(0, b, 12);
        lemma_u32_roundtrip(0, b, 16);
        lemma_u32_roundtrip(0, b, 20);
        assert(Self::parse(b).encoding() =~= b.take(24));
    }
}

/// Where the settings of a station start in its block of parameters, in
/// version 1 of the payload.
pub const STATION_HEADER_OFFSET: usize = 128;

/// Where the belt connections of a station start in its block of parameters,
/// in version 1 of the payload.
pub const STATION_SLOTS_OFFSET: usize = 192;

/// How many belt connections a station has.
pub const STATION_SLOTS_LEN: usize = 12;

/// Where the belt connections of a station end: no block of parameters of a
/// station is shorter than this.
pub const STATION_FIXED_LEN: usize = 384;

/// A logistics station, as its block of parameters holds it.
///
/// The block is laid out by offsets: the wares stand at its start, the
/// settings at byte 128 and the belt connections at byte 192. What the bytes
/// between and behind these mean is not known. They are kept as they are read,
/// so that they can be written again.
#[derive(Clone, Debug, PartialEq, Eq)]
pub struct Station {
    /// Whether the station trades between planets.
    pub is_interstellar: bool,
    /// The wares: five for a station that trades between planets, else three.
    pub storage: Vec<StationStorage>,
    /// The bytes between the wares and the settings.
    pub unknown1: Vec<u8>,
    /// The settings.
    pub header: StationHeader,
    /// The bytes between the settings and the belt connections.
    pub unknown2: Vec<u8>,
    /// The belt connections, counter-clockwise.
    pub slots: Vec<StationSlots>,
    /// The bytes behind the belt connections.
    pub unknown3: Vec<u8>,
}

/// A station as a mathematical value.
pub struct StationView {
    pub is_interstellar: bool,
    pub storage: Seq<StationStorage>,
    pub unknown1: Seq<u8>,
    pub header: StationHeader,
    pub unknown2: Seq<u8>,
    pub slots: Seq<StationSlots>,
    pub unknown3: Seq<u8>,
}

impl View for Station {
    type V = StationView;

    open spec fn view(&self) -> StationView {
        StationView {
            is_interstellar: self.is_interstellar,
            storage: self.storage@,
            unknown1: self.unknown1@,
            header: self.header,
            unknown2: self.unknown2@,
            slots: self.slots@,
            unknown3: self.unknown3@,
        }
    }
}

/// How many wares a station has.
pub open spec fn storage_count_of(is_interstellar: bool) -> nat {
    if is_interstellar {
        5
    } else {
        3
    }
}

impl StationView {
    /// How many wares the station has.
    pub open spec fn storage_count(self) -> nat {
        storage_count_of(self.is_interstellar)
    }

    /// The station that a block of parameters of at least 384 bytes holds.
    pub open spec fn parse(b: Seq<u8>, is_interstellar: bool) -> StationView {
        let n = storage_count_of(is_interstellar);
        StationView {
            is_interstellar,
            storage: parse_records::<StationStorage>(b, n),
            unknown1: b.subrange(24 * (n as int), 128),
            header: StationHeader::parse(b.skip(128)),
            unknown2: b.subrange(160, 192),
            slots: parse_records::<StationSlots>(b.skip(192), 12),
            unknown3: b.skip(384),
        }
    }

    /// What reading a station from `input` gives, where the building declares
    /// `len` bytes of parameters.
    pub open spec fn decode(input: Seq<u8>, is_interstellar: bool, len: nat) -> Result<
        StationView,
        Error,
    > {
        if len < 384 {
            Err(Error::StationLengthMismatch)
        } else if input.len() < len {
            Err(Error::TruncatedInput)
        } else {
            Ok(Self::parse(input.take(len as int), is_interstellar))
        }
    }

    /// The wares with the unknown bytes behind them.
    pub open spec fn first_part(self) -> Seq<u8> {
        records_bytes(self.storage) + self.unknown1
    }

    /// The settings with the unknown bytes behind them.
    pub open spec fn second_part(self) -> Seq<u8> {
        self.header.encoding() + self.unknown2
    }

    /// The belt connections with the unknown bytes behind them.
    pub open spec fn third_part(self) -> Seq<u8> {
        records_bytes(self.slots) + self.unknown3
    }

    /// The block of `len` bytes that holds the station. Each part is followed
    /// by zero bytes up to the offset of the next part. There is no such
    /// block where a part reaches beyond the offset of the next, or the last
    /// part beyond `len`.
    pub open spec fn encoding(self, len: nat) -> Result<Seq<u8>, Error> {
        let first = self.first_part();
        let second = self.second_part();
        let third = self.third_part();
        if first.len() > 128 || second.len() > 64 || 192 + third.len() > len {
            Err(Error::StationLengthMismatch)
        } else {
            Ok(
                first + zeros((128 - first.len()) as nat) + second + zeros(
                    (64 - second.len()) as nat,
                ) + third + zeros((len - 192 - third.len()) as nat),
            )
        }
    }

    /// Whether the station fills a block of `len` bytes exactly, with the
    /// number of wares of its kind and twelve belt connections. Every station
    /// that is read from a block does.
    pub open spec fn fits(self, len: nat) -> bool {
        &&& self.storage.len() == self.storage_count()
        &&& 24 * self.storage.len() + self.unknown1.len() == 128
        &&& self.unknown2.len() == 32
        &&& self.slots.len() == 12
        &&& 384 + self.unknown3.len() == len
    }

    /// A station that is read from a block fills the block, and is written
    /// as the block that it was read from.
    pub proof fn lemma_parse_encoding(b: Seq<u8>, is_interstellar: bool)
        requires
            b.len() >= 384,
        ensures
            Self::parse(b, is_interstellar).fits(b.len()),
            Self::parse(b, is_interstellar).encoding(b.len()) == Ok::<Seq<u8>, Error>(b),
    {
        let v = Self::parse(b, is_interstellar);
        let n = storage_count_of(is_interstellar);
        lemma_records_bytes_parse::<StationStorage>(b, n);
        lemma_records_bytes_parse::<StationSlots>(b.skip(192), 12);
        StationHeader::lemma_parse(b.skip(128));
        assert(v.encoding(b.len())->Ok_0 =~= b);
    }

    /// A station that fills a block of `len` bytes is written as a block of
    /// `len` bytes, and is read again from that block as it was.
    pub proof fn lemma_encoding_parse(self, len: nat)
        requires
            self.fits(len),
        ensures
            self.encoding(len) is Ok,
            self.encoding(len)->Ok_0.len() == len,
            Self::parse(self.encoding(len)->Ok_0, self.is_interstellar) == self,
    {
        lemma_records_len(self.storage);
        lemma_records_len(self.slots);
        self.header.lemma_roundtrip_of();
        let second = self.second_part();
        let third = self.third_part();
        let e = self.encoding(len)->Ok_0;
        let back = Self::parse(e, self.is_interstellar);
        lemma_parse_records_bytes(self.storage, self.unknown1 + second + third);
        assert(e =~= records_bytes(self.storage) + (self.unknown1 + second + third));
        assert(back.unknown1 =~= self.unknown1);
        StationHeader::lemma_parse(e.skip(128));
        assert(e.skip(128).take(32) =~= self.header.encoding());
        assert(back.unknown2 =~= self.unknown2);
        lemma_parse_records_bytes(self.slots, self.unknown3);
        assert(e.skip(192) =~= records_bytes(self.slots) + self.unknown3);
        assert(back.unknown3 =~= self.unknown3);
    }
}

/// A light year, in the unit of the range of vessels.
pub const LY: usize = 24000;

/// An astronomical unit, in the unit of the distance from which vessels warp.
pub const AU: usize = 40000;

impl StationHeader {
    /// The settings take 32 bytes, and are read again as they were written.
    pub proof fn lemma_roundtrip_of(self)
        ensures
            self.encoding().len() == 32,
            Self::parse(self.encoding()) == self,
    {
        Self::lemma_roundtrip(self);
    }
}

/// How many of the records of wares that a station holds are its wares: as
/// many as a station of its kind has, or all where it holds fewer.
pub open spec fn walked_count(v: StationView) -> int {
    if v.storage.len() < v.storage_count() {
        v.storage.len() as int
    } else {
        v.storage_count() as int
    }
}

impl Station {
    /// How many wares the station has: five where it trades between planets,
    /// else three.
    pub fn storage_count(&self) -> (n: usize)
        ensures
            n == self@.storage_count(),
    {
        if self.is_interstellar {
            5
        } else {
            3
        }
    }

    /// The wares of the station: the first records of `storage`, as many as
    /// a station of its kind has, and never more, however many records
    /// `storage` holds. Where it holds fewer, they are all there are.
    pub fn valid_storage(&self) -> (r: &[StationStorage])
        ensures
            r@ == self@.storage.take(walked_count(self@)),
            r@.len() <= self@.storage_count(),
    {
        let count = self.storage_count();
        let all = self.storage.as_slice();
        if all.len() < count {
            all
        } else {
            slice_subrange(all, 0, count)
        }
    }

    /// The wares of the station, to be changed: the first records of
    /// `storage`, as many as a station of its kind has, and never more.
    /// Nothing else of the station can be changed through them.
    pub fn valid_storage_mut(&mut self) -> (r: &mut [StationStorage])
        ensures
            r@ == old(self)@.storage.take(walked_count(old(self)@)),
            final(self)@ == (StationView {
                storage: final(r)@ + old(self)@.storage.skip(walked_count(old(self)@)),
                ..old(self)@
            }),
    {
        let count = self.storage_count();
        let len = self.storage.len();
        let mid = if len < count {
            len
        } else {
            count
        };
        let all = self.storage.as_mut_slice();
        let (head, _) = all.split_at_mut(mid);
        head
    }

    /// Reads a station from a block of `struct_len` bytes. Fails, and reads
    /// nothing, where the block is too short for a station or more than is
    /// left to read.
    pub fn from_bp(d: &mut Deser, is_interstellar: bool, struct_len: usize) -> (r: Result<
        Self,
        Error,
    >)
        ensures
            match r {
                Ok(v) => {
                    &&& StationView::decode(
                        old(d).remaining(),
                        is_interstellar,
                        struct_len as nat,
                    ) == Ok::<StationView, Error>(v@)
                    &&& v@.fits(struct_len as nat)
                    &&& final(d).remaining() == old(d).remaining().skip(struct_len as int)
                },
                Err(e) => {
                    &&& StationView::decode(
                        old(d).remaining(),
                        is_interstellar,
                        struct_len as nat,
                    ) == Err::<StationView, Error>(e)
                    &&& final(d).remaining() == old(d).remaining()
                },
            },
    {
        if struct_len < STATION_FIXED_LEN {
            return Err(Error::StationLengthMismatch);
        }
        let block = d.read_exact(struct_len)?;
        let count: usize = if is_interstellar {
            5
        } else {
            3
        };
        let mut b = Deser::new(block);
        let storage = read_records::<StationStorage>(&mut b, count)?;
        let unknown1 = slice_to_vec(b.read_exact(STATION_HEADER_OFFSET - 24 * count)?);
        let header = StationHeader::read(&mut b)?;
        let unknown2 = slice_to_vec(b.read_exact(32)?);
        let slots = read_records::<StationSlots>(&mut b, STATION_SLOTS_LEN)?;
        let unknown3 = slice_to_vec(b.read_exact(struct_len - STATION_FIXED_LEN)?);
        let v = Station { is_interstellar, storage, unknown1, header, unknown2, slots, unknown3 };
        proof {
            let all = block@;
            let want = StationView::parse(all, is_interstellar);
            assert(all.skip(24 * count).take(128 - 24 * count) =~= want.unknown1);
            assert(all.skip(24 * count).skip(128 - 24 * count) =~= all.skip(128));
            assert(all.skip(128).skip(32).take(32) =~= want.unknown2);
            assert(all.skip(128).skip(32).skip(32) =~= all.skip(192));
            assert(all.skip(192).skip(192).take(struct_len - 384) =~= want.unknown3);
            StationView::lemma_parse_encoding(all, is_interstellar);
        }
        Ok(v)
    }

    /// Writes the station as a block of `struct_len` bytes. Fails, and writes
    /// nothing, where the station does not go into such a block.
    pub fn to_bp(&self, s: &mut Ser, struct_len: usize) -> (r: Result<(), Error>)
        ensures
            match r {
                Ok(()) => {
                    &&& self@.encoding(struct_len as nat) matches Ok(enc)
                    &&& final(s)@ == old(s)@ + enc
                },
                Err(e) => {
                    &&& self@.encoding(struct_len as nat) == Err::<Seq<u8>, Error>(e)
                    &&& final(s)@ == old(s)@
                },
            },
    {
        let mut block = Ser::new();
        write_records(self.storage.as_slice(), &mut block);
        block.append(self.unknown1.as_slice());
        if block.pad_to(STATION_HEADER_OFFSET).is_err() {
            return Err(Error::StationLengthMismatch);
        }
        self.header.write(&mut block);
        block.append(self.unknown2.as_slice());
        proof {
            self.header.lemma_roundtrip_of();
        }
        if block.pad_to(STATION_SLOTS_OFFSET).is_err() {
            return Err(Error::StationLengthMismatch);
        }
        write_records(self.slots.as_slice(), &mut block);
        block.append(self.unknown3.as_slice());
        if block.pad_to(struct_len).is_err() {
            return Err(Error::StationLengthMismatch);
        }
        let bytes = block.data();
        s.append(bytes.as_slice());
        Ok(())
    }
}

} // verus!
