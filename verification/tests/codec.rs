use dspbp::data::area::Area;
use dspbp::data::belt::Belt;
use dspbp::data::blueprint::{BlueprintData, BuildingCount, Header};
use dspbp::data::building::{Building, BuildingHeader, BuildingParam};
use dspbp::data::station::{Station, StationHeader, StationSlots, StationStorage};
use dspbp::error::Error;
use dspbp::serialize::{Deser, Record, Ser};

fn building_header(item_id: u16, parameter_count: u16) -> BuildingHeader {
    BuildingHeader {
        index: 7,
        area_index: 0,
        local_offset_x: 1,
        local_offset_y: 2,
        local_offset_z: 3,
        local_offset_x2: 4,
        local_offset_y2: 5,
        local_offset_z2: 6,
        yaw: 7,
        yaw2: 8,
        item_id,
        model_index: 9,
        output_object_index: 10,
        input_object_index: 11,
        output_to_slot: -1,
        input_from_slot: -2,
        output_from_slot: -3,
        input_to_slot: -4,
        output_offset: -5,
        input_offset: -6,
        recipe_id: 12,
        filter_id: 13,
        parameter_count,
    }
}

fn building_bytes(item_id: u16, parameter_count: u16, params: &[u8]) -> Vec<u8> {
    let mut s = Ser::new();
    building_header(item_id, parameter_count).write(&mut s);
    s.append(params);
    s.data()
}

fn storage(item_id: u32) -> StationStorage {
    StationStorage {
        item_id,
        local_logic: 1,
        remote_logic: 2,
        max_count: 3,
        unused1: 4,
        unused2: 5,
    }
}

fn station(is_interstellar: bool, tail: usize) -> Station {
    let count = if is_interstellar { 5 } else { 3 };
    Station {
        is_interstellar,
        storage: (0..count).map(|i| storage(1001 + i)).collect(),
        unknown1: (0..(128 - 24 * count as usize)).map(|i| i as u8 + 1).collect(),
        header: StationHeader {
            work_energy_per_tick: 1,
            drone_range: 2,
            vessel_range: 3,
            orbital_collector: 4,
            warp_distance: 5,
            equip_warper: 6,
            drone_min_capacity: 7,
            vessel_min_capacity: 8,
        },
        unknown2: vec![0xee; 32],
        slots: (0..12)
            .map(|i| StationSlots { direction: i, storage_index: i + 1, unused1: 0, unused2: 0 })
            .collect(),
        unknown3: vec![0xdd; tail],
    }
}

fn station_bytes(s: &Station, len: usize) -> Vec<u8> {
    let mut out = Ser::new();
    s.to_bp(&mut out, len).unwrap();
    out.data()
}

#[test]
fn the_fixed_part_of_a_building_takes_61_bytes() {
    let bytes = building_bytes(2001, 0, &[]);
    assert_eq!(bytes.len(), 61);
    assert_eq!(BuildingHeader::byte_len(), 61);
    assert_eq!(&bytes[0..5], &[7, 0, 0, 0, 0]);
    assert_eq!(&bytes[5..9], &[1, 0, 0, 0]);
    assert_eq!(&bytes[37..41], &[0xd1, 0x07, 9, 0]);
    assert_eq!(&bytes[49..55], &[0xff, 0xfe, 0xfd, 0xfc, 0xfb, 0xfa]);
    assert_eq!(&bytes[55..61], &[12, 0, 13, 0, 0, 0]);
    assert_eq!(BuildingHeader::from_bytes(&bytes), building_header(2001, 0));
}

#[test]
fn a_building_knows_whether_it_is_a_station() {
    assert!(building_header(2103, 0).has_station());
    assert!(building_header(2104, 0).has_station());
    assert!(!building_header(2105, 0).has_station());
    assert!(!building_header(9999, 0).has_station());
    assert!(building_header(2104, 0).has_interstellar());
    assert!(!building_header(2103, 0).has_interstellar());
    assert!(!building_header(0, 0).has_interstellar());
}

#[test]
fn the_sizes_of_the_records() {
    assert_eq!(Header::byte_len(), 29);
    assert_eq!(Area::byte_len(), 14);
    assert_eq!(BuildingCount::byte_len(), 4);
    assert_eq!(StationHeader::byte_len(), 32);
    assert_eq!(StationSlots::byte_len(), 16);
    assert_eq!(StationStorage::byte_len(), 24);
    assert_eq!(Belt::byte_len(), 8);
    assert_eq!(u32::byte_len(), 4);
}

#[test]
fn a_belt_with_two_words_has_a_label() {
    for belt in [2001u16, 2002, 2003] {
        let bytes = building_bytes(belt, 2, &[0xe9, 3, 0, 0, 5, 0, 0, 0, 0xaa]);
        let mut d = Deser::new(&bytes);
        let b = Building::from_bp(&mut d).unwrap();
        assert_eq!(b.param, BuildingParam::Belt(Some(Belt { label: 1001, count: 5 })));
        assert_eq!(d.len(), 1);
    }
}

#[test]
fn a_belt_with_no_words_has_no_label() {
    let bytes = building_bytes(2002, 0, &[0xaa]);
    let mut d = Deser::new(&bytes);
    let b = Building::from_bp(&mut d).unwrap();
    assert_eq!(b.param, BuildingParam::Belt(None));
    assert_eq!(d.len(), 1);
}

#[test]
fn a_belt_with_another_number_of_words_holds_words() {
    let bytes = building_bytes(2001, 1, &[1, 0, 0, 0]);
    let b = Building::from_bp(&mut Deser::new(&bytes)).unwrap();
    assert_eq!(b.param, BuildingParam::Unknown(vec![1]));
    let bytes = building_bytes(2001, 3, &[1, 0, 0, 0, 2, 0, 0, 0, 3, 0, 0, 0]);
    let b = Building::from_bp(&mut Deser::new(&bytes)).unwrap();
    assert_eq!(b.param, BuildingParam::Unknown(vec![1, 2, 3]));
}

#[test]
fn any_other_building_holds_words() {
    let bytes = building_bytes(2303, 2, &[1, 0, 0, 0, 2, 0, 0, 0]);
    let b = Building::from_bp(&mut Deser::new(&bytes)).unwrap();
    assert_eq!(b.header, building_header(2303, 2));
    assert_eq!(b.param, BuildingParam::Unknown(vec![1, 2]));
    // A number that the catalog does not hold is no error.
    let bytes = building_bytes(60000, 0, &[]);
    let b = Building::from_bp(&mut Deser::new(&bytes)).unwrap();
    assert_eq!(b.param, BuildingParam::Unknown(vec![]));
}

#[test]
fn each_failure_of_a_building() {
    let bytes = building_bytes(2303, 0, &[]);
    assert_eq!(Building::from_bp(&mut Deser::new(&bytes[..60])), Err(Error::TruncatedInput));
    let bytes = building_bytes(2303, 2, &[1, 0, 0, 0, 2, 0, 0]);
    assert_eq!(Building::from_bp(&mut Deser::new(&bytes)), Err(Error::TruncatedInput));
    let bytes = building_bytes(2001, 2, &[1, 0, 0, 0, 2, 0, 0]);
    assert_eq!(Building::from_bp(&mut Deser::new(&bytes)), Err(Error::TruncatedInput));
    let bytes = building_bytes(2303, 32769, &[]);
    assert_eq!(Building::from_bp(&mut Deser::new(&bytes)), Err(Error::OversizedParameterBlock));
    let bytes = building_bytes(2104, 32769, &[]);
    assert_eq!(Building::from_bp(&mut Deser::new(&bytes)), Err(Error::OversizedParameterBlock));
    let bytes = building_bytes(2303, 32768, &[]);
    assert_eq!(Building::from_bp(&mut Deser::new(&bytes)), Err(Error::TruncatedInput));
    let bytes = building_bytes(2104, 95, &[0; 380]);
    assert_eq!(Building::from_bp(&mut Deser::new(&bytes)), Err(Error::StationLengthMismatch));
    let bytes = building_bytes(2103, 0, &[]);
    assert_eq!(Building::from_bp(&mut Deser::new(&bytes)), Err(Error::StationLengthMismatch));
    let bytes = building_bytes(2104, 96, &[0; 383]);
    assert_eq!(Building::from_bp(&mut Deser::new(&bytes)), Err(Error::TruncatedInput));
}

#[test]
fn a_station_between_planets_has_five_wares() {
    let bytes = station_bytes(&station(true, 16), 400);
    assert_eq!(bytes.len(), 400);
    let mut d = Deser::new(&bytes);
    let s = Station::from_bp(&mut d, true, 400).unwrap();
    assert_eq!(s.storage.len(), 5);
    assert_eq!(s.storage_count(), 5);
    assert_eq!(s.valid_storage().len(), 5);
    assert_eq!(s.unknown1.len(), 8);
    assert_eq!(s, station(true, 16));
    assert_eq!(d.len(), 0);
}

#[test]
fn a_station_on_a_planet_has_three_wares() {
    let bytes = station_bytes(&station(false, 0), 384);
    let s = Station::from_bp(&mut Deser::new(&bytes), false, 384).unwrap();
    assert_eq!(s.storage.len(), 3);
    assert_eq!(s.storage_count(), 3);
    assert_eq!(s.valid_storage().len(), 3);
    assert_eq!(s.unknown1.len(), 56);
    assert_eq!(s, station(false, 0));
    // The same bytes, read as a station between planets, give five wares:
    // which kind it is does not stand in the bytes.
    let s = Station::from_bp(&mut Deser::new(&bytes), true, 384).unwrap();
    assert_eq!(s.storage.len(), 5);
    assert_eq!(s.storage[3].item_id, 0x04030201);
    assert_eq!(station_bytes(&s, 384), bytes);
}

#[test]
fn the_wares_of_a_station_are_never_more_than_its_kind_has() {
    let mut s = station(false, 0);
    s.storage.push(storage(1));
    s.storage.push(storage(2));
    assert_eq!(s.valid_storage().len(), 3);
    assert_eq!(s.valid_storage()[2], storage(1003));
    s.storage.truncate(1);
    assert_eq!(s.valid_storage().len(), 1);
    s.is_interstellar = true;
    s.storage = (0..9).map(storage).collect();
    assert_eq!(s.valid_storage().len(), 5);
}

#[test]
fn the_wares_of_a_station_can_be_changed() {
    let mut s = station(false, 0);
    s.storage.push(storage(1));
    {
        let wares = s.valid_storage_mut();
        assert_eq!(wares.len(), 3);
        wares[0].item_id = 7;
        wares[2].max_count = 9;
    }
    assert_eq!(s.storage.len(), 4);
    assert_eq!(s.storage[0].item_id, 7);
    assert_eq!(s.storage[1], storage(1002));
    assert_eq!(s.storage[2].max_count, 9);
    assert_eq!(s.storage[3], storage(1));
    s.storage.truncate(2);
    assert_eq!(s.valid_storage_mut().len(), 2);
}

#[test]
fn the_parts_of_a_station_stand_at_their_offsets() {
    let bytes = station_bytes(&station(true, 16), 400);
    assert_eq!(&bytes[0..4], &[0xe9, 3, 0, 0]);
    assert_eq!(&bytes[24..28], &[0xea, 3, 0, 0]);
    assert_eq!(&bytes[120..128], &[1, 2, 3, 4, 5, 6, 7, 8]);
    assert_eq!(&bytes[128..136], &[1, 0, 0, 0, 2, 0, 0, 0]);
    assert_eq!(&bytes[160..192], &[0xee; 32]);
    assert_eq!(&bytes[192..200], &[0, 0, 0, 0, 1, 0, 0, 0]);
    assert_eq!(&bytes[368..376], &[11, 0, 0, 0, 12, 0, 0, 0]);
    assert_eq!(&bytes[384..400], &[0xdd; 16]);
}

#[test]
fn a_station_with_short_parts_is_filled_with_zeros() {
    let mut s = station(true, 0);
    s.unknown1.clear();
    s.unknown2.truncate(1);
    s.storage.truncate(1);
    s.slots.truncate(2);
    let bytes = station_bytes(&s, 400);
    assert_eq!(bytes.len(), 400);
    assert_eq!(&bytes[0..4], &[0xe9, 3, 0, 0]);
    assert_eq!(&bytes[24..128], &[0; 104]);
    assert_eq!(bytes[160], 0xee);
    assert_eq!(&bytes[161..192], &[0; 31]);
    assert_eq!(&bytes[224..400], &[0; 176]);
}

#[test]
fn a_station_that_does_not_fit_is_not_written() {
    let mut out = Ser::new();
    out.write_u8(1);
    assert_eq!(station(true, 16).to_bp(&mut out, 399), Err(Error::StationLengthMismatch));
    let mut long = station(true, 0);
    long.unknown1.push(0);
    assert_eq!(long.to_bp(&mut out, 400), Err(Error::StationLengthMismatch));
    let mut long = station(true, 0);
    long.unknown2.push(0);
    assert_eq!(long.to_bp(&mut out, 400), Err(Error::StationLengthMismatch));
    let mut long = station(false, 0);
    long.storage = (0..6).map(storage).collect();
    assert_eq!(long.to_bp(&mut out, 400), Err(Error::StationLengthMismatch));
    assert_eq!(out.data(), vec![1]);
}

#[test]
fn each_failure_of_a_station() {
    let bytes = station_bytes(&station(true, 0), 384);
    let mut d = Deser::new(&bytes);
    assert_eq!(Station::from_bp(&mut d, true, 383), Err(Error::StationLengthMismatch));
    assert_eq!(Station::from_bp(&mut d, true, 385), Err(Error::TruncatedInput));
    assert_eq!(d.len(), 384);
}

fn payload() -> BlueprintData {
    BlueprintData {
        header: Header {
            version: 1,
            cursor_offset_x: 2,
            cursor_offset_y: 3,
            cursor_target_area: 4,
            dragbox_size_x: 5,
            dragbox_size_y: 6,
            primary_area_index: 7,
            area_count: 2,
        },
        areas: vec![
            Area {
                index: 0,
                parent_index: -1,
                tropic_anchor: 0,
                area_segments: 200,
                anchor_local_offset_x: 0,
                anchor_local_offset_y: 0,
                width: 10,
                height: 10,
            },
            Area {
                index: 1,
                parent_index: 0,
                tropic_anchor: 1,
                area_segments: 100,
                anchor_local_offset_x: 2,
                anchor_local_offset_y: 3,
                width: 4,
                height: 5,
            },
        ],
        building_count: BuildingCount { count: 3 },
        buildings: vec![
            Building {
                header: building_header(2001, 2),
                param: BuildingParam::Belt(Some(Belt { label: 1001, count: 5 })),
            },
            Building {
                header: building_header(2104, 100),
                param: BuildingParam::Station(station(true, 16)),
            },
            Building { header: building_header(2303, 1), param: BuildingParam::Unknown(vec![9]) },
        ],
    }
}

#[test]
fn a_payload_is_written_and_read() {
    let bytes = payload().write().unwrap();
    assert_eq!(bytes.len(), 29 + 2 * 14 + 4 + (61 + 8) + (61 + 400) + (61 + 4));
    assert_eq!(&bytes[0..4], &[1, 0, 0, 0]);
    assert_eq!(bytes[28], 2);
    assert_eq!(&bytes[57..61], &[3, 0, 0, 0]);
    assert_eq!(BlueprintData::new_from_buf(&bytes), Ok(payload()));
    // What follows the payload is passed over.
    let mut longer = bytes.clone();
    longer.extend_from_slice(&[1, 2, 3]);
    assert_eq!(BlueprintData::new_from_buf(&longer), Ok(payload()));
    let mut d = Deser::new(&longer);
    assert_eq!(BlueprintData::from_bp(&mut d), Ok(payload()));
    assert_eq!(d.len(), 3);
    let mut s = Ser::new();
    s.write_u8(0xaa);
    assert_eq!(payload().to_bp(&mut s), Ok(()));
    assert_eq!(&s.data()[1..], &bytes[..]);
}

#[test]
fn each_failure_of_a_payload() {
    let bytes = payload().write().unwrap();
    let mut wrong = bytes.clone();
    wrong[0] = 2;
    assert_eq!(BlueprintData::new_from_buf(&wrong), Err(Error::UnsupportedVersion));
    wrong[0] = 0;
    assert_eq!(BlueprintData::new_from_buf(&wrong), Err(Error::UnsupportedVersion));
    assert_eq!(BlueprintData::new_from_buf(&[]), Err(Error::TruncatedInput));
    assert_eq!(BlueprintData::new_from_buf(&bytes[..28]), Err(Error::TruncatedInput));
    assert_eq!(BlueprintData::new_from_buf(&bytes[..56]), Err(Error::TruncatedInput));
    assert_eq!(BlueprintData::new_from_buf(&bytes[..60]), Err(Error::TruncatedInput));
    assert_eq!(BlueprintData::new_from_buf(&bytes[..61]), Err(Error::TruncatedInput));
    assert_eq!(
        BlueprintData::new_from_buf(&bytes[..bytes.len() - 1]),
        Err(Error::TruncatedInput)
    );
    // The version is looked at before the rest is read.
    assert_eq!(BlueprintData::new_from_buf(&wrong[..29]), Err(Error::UnsupportedVersion));
    let mut more = bytes.clone();
    more[57] = 4;
    assert_eq!(BlueprintData::new_from_buf(&more), Err(Error::TruncatedInput));
    let mut broken = payload();
    broken.buildings[1].header.parameter_count = 99;
    assert_eq!(broken.write(), Err(Error::StationLengthMismatch));
    let mut s = Ser::new();
    s.write_u8(0xaa);
    assert_eq!(broken.to_bp(&mut s), Err(Error::StationLengthMismatch));
    assert_eq!(s.data(), vec![0xaa]);
}

#[test]
fn a_payload_is_written_as_it_is_held() {
    // Writing does not look at the counts: what is held is written.
    let mut p = payload();
    p.building_count.count = 1;
    p.buildings.truncate(2);
    p.buildings[0].param = BuildingParam::Unknown(vec![1, 2, 3]);
    let bytes = p.write().unwrap();
    assert_eq!(bytes.len(), 29 + 2 * 14 + 4 + (61 + 12) + (61 + 400));
    assert_eq!(&bytes[57..61], &[1, 0, 0, 0]);
}
