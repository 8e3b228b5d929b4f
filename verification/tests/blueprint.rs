use dspbp::blueprint::{compression_level, payload_text, Blueprint, Frame};
use dspbp::data::belt::Belt;
use dspbp::data::building::BuildingParam;
use dspbp::data::enums::DSPItem;
use dspbp::data::station::{AU, LY};
use dspbp::error::Error;

// A blueprint with one region and five buildings: a belt with a label, a belt
// without one, an assembler, a station that trades between planets, and a
// building whose number the catalog does not hold.
const PIECES: [&str; 12] = [
    "BLUEPRINT:0,10,1001,20005,500,45000,70000,0,637000000000000000,0.9.27.15466,Hi%20there,E",
    "xample%20station%201.%0A%2A%20Wares%3A%20blue%2Fred%2Fyellow%2Fpurple%2Fgreen%20cubes.%0",
    "A%2A%203%20drones%2C%202%20ships%2C%201%20warper.%0A%2A%2060MW%20charging%20power.%2050%",
    "20degrees%20drone%20range.%206%20ly%20vessel%20range.%202AU%20warp%20activation.%2020%25",
    "%20min%20drone%20load.%2040%25%20min%20vessel%20load.%20Orbital%20collector%20on.%20Warp",
    "ers%20required%20on.%0A%2A%20Slots%20all%20out.%20From%20north%20leftmost%20clockwise%3A",
    "%20blue-red-red%2C%20blue-yellow-yellow%2C%20blue-purple-purple%2C%20blue-green-green.\"H",
    "4sIAAAAAAACA2NkYGBgAmJmBghgAWJWKJuR4T8DwwkGLgYRBnYGDrgwEBywZ2AQcMBkb3EC4Yvsygz/gYAdbMh/J",
    "ogcE8NLZojZjMQYcoldBYshEMcS1PyfwxFNMyuDLwsz2GaYb5mJMciCwwiLK1IYCsUZ4Ia9YEYETBEO8WIc4iU4x",
    "EtxiDMyMbOwsrFzODjxM7y8cIW5wYgJrK7BghFMiwCxBkghO5+ojLKWoYW9m29IdFJmQXlda8/kWQtXrN+298jpS",
    "zcZESEJjWpMPiMan5UAH109CwE+unpmAnxk9SmpaekZmVnZObl5+QWFRcUsxEQmvzoDWmTyq/OrMzJoAbkAxSu2B",
    "wgDAAA=\"CBD3C1198B1902C1F604DF6DF66FAA32",
];

fn example() -> String {
    PIECES.concat()
}

fn angle_to_drone_range(angle: usize) -> u32 {
    let angle = f64::cos((angle as f64) / 180.0 * std::f64::consts::PI);
    (angle * 100_000_000.0).round() as u32
}

#[test]
fn example_station_1() {
    let text = example();
    let (bp, raw) = Blueprint::new_with_raw_bp(&text).unwrap();
    // Drones / ships / warpers part is irrelevant, not kept in blueprint.
    let description = "Example station 1.\n\
        * Wares: blue/red/yellow/purple/green cubes.\n\
        * 3 drones, 2 ships, 1 warper.\n\
        * 60MW charging power. 50 degrees drone range. 6 ly vessel range. 2AU warp activation. \
        20% min drone load. 40% min vessel load. Orbital collector on. Warpers required on.\n\
        * Slots all out. From north leftmost clockwise: blue-red-red, \
        blue-yellow-yellow, blue-purple-purple, blue-green-green.";
    assert_eq!(&bp.get_description().unwrap(), description);

    let station = bp
        .data
        .buildings
        .iter()
        .find(|b| b.kind() == Ok(DSPItem::InterstellarLogisticsStation))
        .unwrap();
    let station = match &station.param {
        BuildingParam::Station(s) => s,
        _ => panic!(),
    };

    let sto = &station.storage;
    assert_eq!(sto[0].item_id, DSPItem::ElectromagneticMatrix.to_u16() as u32);
    assert_eq!(sto[1].item_id, DSPItem::EnergyMatrix.to_u16() as u32);
    assert_eq!(sto[2].item_id, DSPItem::StructureMatrix.to_u16() as u32);
    assert_eq!(sto[3].item_id, DSPItem::InformationMatrix.to_u16() as u32);
    assert_eq!(sto[4].item_id, DSPItem::GravityMatrix.to_u16() as u32);

    let h = &station.header;
    assert_eq!(h.work_energy_per_tick, 1000_000); // 1 MW per tick, 60 MW per second
    assert_eq!(h.drone_range, angle_to_drone_range(50));
    assert_eq!(h.vessel_range, (LY * 6) as u32);
    assert_eq!(h.orbital_collector, 1);
    assert_eq!(h.warp_distance, (AU * 2) as u32);
    assert_eq!(h.equip_warper, 1);
    assert_eq!(h.drone_min_capacity, 20);
    assert_eq!(h.vessel_min_capacity, 40);

    let s = &station.slots;
    let idx: Vec<u32> = s.iter().map(|x| x.storage_index).collect();
    assert_eq!(&idx, &[2, 2, 1, 5, 5, 1, 4, 4, 1, 3, 3, 1]);

    // Can't compare whole blueprints since gzip isn't really reproducible.
    let back = bp.data.write().unwrap();
    assert_eq!(raw, back);
}

#[test]
fn decodes_the_fields_of_the_frame() {
    let bp = Blueprint::new(&example()).unwrap();
    assert_eq!(bp.layout, 10);
    assert_eq!(bp.icons, [1001, 20005, 500, 45000, 70000]);
    assert_eq!(bp.timestamp, 637000000000000000);
    assert_eq!(bp.game_version, "0.9.27.15466");
    assert_eq!(bp.icon_text, "Hi%20there");
    assert_eq!(bp.get_icon_text().unwrap(), "Hi there");
    assert_eq!(bp.data.header.version, 1);
    assert_eq!(bp.data.header.area_count, 1);
    assert_eq!(bp.data.areas.len(), 1);
    assert_eq!(bp.data.areas[0].parent_index, -1);
    assert_eq!(bp.data.areas[0].area_segments, 200);
    assert_eq!(bp.data.building_count.count, 5);
    assert_eq!(bp.data.buildings.len(), 5);
}

#[test]
fn decodes_each_shape_of_parameters() {
    let bp = Blueprint::new(&example()).unwrap();
    let b = &bp.data.buildings;
    assert_eq!(b[0].param, BuildingParam::Belt(Some(Belt { label: 1001, count: 5 })));
    assert_eq!(b[1].param, BuildingParam::Belt(None));
    assert_eq!(b[2].param, BuildingParam::Unknown(vec![1, 2, 3]));
    assert!(matches!(b[3].param, BuildingParam::Station(_)));
    assert_eq!(b[4].param, BuildingParam::Unknown(vec![42]));
    assert_eq!(b[4].kind(), Err(Error::UnknownIdentifier));
    // Positions are kept as the bits of their floats.
    assert_eq!(b[0].header.local_offset_x, 1.5f32.to_bits());
    assert_eq!(b[0].header.yaw, 90.0f32.to_bits());
    assert_eq!(b[0].header.output_object_index, 0xffff_ffff);
    assert_eq!(b[0].header.output_from_slot, -1);
}

#[test]
fn keeps_the_unknown_bytes_of_a_station() {
    let bp = Blueprint::new(&example()).unwrap();
    let station = match &bp.data.buildings[3].param {
        BuildingParam::Station(s) => s,
        _ => panic!(),
    };
    assert!(station.is_interstellar);
    assert_eq!(station.storage.len(), 5);
    assert_eq!(station.valid_storage().len(), 5);
    assert_eq!(station.unknown1, vec![1, 2, 3, 4, 5, 6, 7, 8]);
    assert_eq!(station.unknown2.len(), 32);
    assert_eq!(station.unknown2[1], 7);
    assert_eq!(station.slots.len(), 12);
    assert_eq!(station.unknown3, (100u8..116).collect::<Vec<u8>>());
}

#[test]
fn reading_writing_and_reading_gives_the_same() {
    let first = Blueprint::new(&example()).unwrap();
    let text = first.into_bp_string().unwrap();
    let second = Blueprint::new(&text).unwrap();
    assert_eq!(first, second);
    let best = first.into_bp_string_level(9).unwrap();
    let none = first.into_bp_string_level(0).unwrap();
    assert_ne!(best, none);
    assert_eq!(Blueprint::new(&best).unwrap(), first);
    assert_eq!(Blueprint::new(&none).unwrap(), first);
    // A level above 9 counts as 9.
    assert_eq!(first.into_bp_string_level(1000).unwrap(), best);
}

#[test]
fn the_text_of_a_frame_is_exact() {
    let frame = Frame {
        layout: 1,
        icons: [0, 0, 0, 0, 0],
        timestamp: 0,
        game_version: "v".to_string(),
        icon_text: String::new(),
        desc: String::new(),
        payload: String::new(),
    };
    assert_eq!(
        frame.into_text(),
        "BLUEPRINT:0,1,0,0,0,0,0,0,0,v,,\"\"A3E9504E47FBE1FB4473C0DF3E1F8C4E"
    );
    assert_eq!(Frame::parse(&frame.into_text()), Ok(frame));
}

#[test]
fn a_small_blueprint_is_read() {
    let text = "BLUEPRINT:0,1,0,0,0,0,0,0,0,v,,\"H4sIAAAAAAACA2NkYGBgAmJmBghgAWJWBiQAALk6S9EhAAAA\"\
        F20E2593889AEFC5837BBF0A77024319";
    let (bp, raw) = Blueprint::new_with_raw_bp(text).unwrap();
    assert_eq!(bp.layout, 1);
    assert_eq!(bp.game_version, "v");
    assert_eq!(bp.desc, "");
    assert_eq!(bp.data.buildings.len(), 0);
    assert_eq!(bp.data.header.cursor_offset_x, 2);
    assert_eq!(bp.data.header.dragbox_size_y, 5);
    assert_eq!(raw.len(), 33);
    assert_eq!(raw[0], 1);
    // Space around the text and around the checksum does not count; small
    // letters in the checksum are as good as capitals.
    let loose = "  BLUEPRINT:0,+1,0,0,0,0,0,00,0,v,,\"H4sIAAAAAAACA2NkYGBgAmJmBghgAWJWBiQAALk6S9EhAAAA\" \
        \tf20e2593889aefc5837bbf0a77024319\n";
    assert_eq!(Blueprint::new(loose).unwrap_err(), Error::ChecksumMismatch);
    let spaced = format!("\n {}\n", text);
    assert_eq!(Blueprint::new(&spaced).unwrap(), bp);
    let lower = text.replace("F20E2593889AEFC5837BBF0A77024319", "f20e2593889aefc5837bbf0a77024319");
    assert_eq!(Blueprint::new(&lower).unwrap(), bp);
}

#[test]
fn a_changed_checksum_is_not_accepted() {
    let text = example();
    let cut = text.len() - 32;
    for at in 0..32 {
        let mut bytes = text.clone().into_bytes();
        bytes[cut + at] = if bytes[cut + at] == b'0' { b'1' } else { b'0' };
        let changed = String::from_utf8(bytes).unwrap();
        assert_eq!(Blueprint::new(&changed).unwrap_err(), Error::ChecksumMismatch);
    }
    // The checksum is looked at before the payload: a text with a broken
    // payload and a wrong checksum fails for its checksum.
    let broken = text.replace("H4sI", "!!!!");
    assert_eq!(Blueprint::new(&broken).unwrap_err(), Error::ChecksumMismatch);
}

fn signed(body: &str) -> String {
    let hash = Blueprint::hash(body);
    let hex: String = hash.iter().map(|b| format!("{:02X}", b)).collect();
    format!("{}\"{}", body, hex)
}

#[test]
fn each_failure_of_the_frame() {
    assert_eq!(Frame::parse("no quote at all").unwrap_err(), Error::MissingHashDelimiter);
    assert_eq!(Frame::parse("BLUEPRINT:\"1234").unwrap_err(), Error::BadHashFormat);
    assert_eq!(
        Frame::parse("x\"0123456789ABCDEF0123456789ABCDEG").unwrap_err(),
        Error::BadHashFormat
    );
    assert_eq!(
        Frame::parse("x\"+123456789ABCDEF0123456789ABCDEF").unwrap_err(),
        Error::BadHashFormat
    );
    assert_eq!(
        Frame::parse("x\"00000000000000000000000000000000").unwrap_err(),
        Error::ChecksumMismatch
    );
    assert_eq!(Frame::parse(&signed("BLUEPRINT")).unwrap_err(), Error::BadPrefix);
    assert_eq!(Frame::parse(&signed("blueprint:0,1")).unwrap_err(), Error::BadPrefix);
    assert_eq!(Frame::parse(&signed("BLUEPRINT:0,1,2")).unwrap_err(), Error::BadFieldCount);
    assert_eq!(
        Frame::parse(&signed("BLUEPRINT:0,1,0,0,0,0,0,0,0,v,t,d\"p,more")).unwrap_err(),
        Error::BadFieldCount
    );
    assert_eq!(
        Frame::parse(&signed("BLUEPRINT:0,1,0,0,0,0,0,0,0,v,t,no payload")).unwrap_err(),
        Error::BadFieldCount
    );
    assert_eq!(
        Frame::parse(&signed("BLUEPRINT:0,1,0,0,0,0,0,0,0,v,t,d\"p\"q")).unwrap_err(),
        Error::BadFieldCount
    );
    assert_eq!(
        Frame::parse(&signed("BLUEPRINT:0,x,0,0,0,0,0,0,0,v,t,d\"p")).unwrap_err(),
        Error::BadNumber
    );
    assert_eq!(
        Frame::parse(&signed("BLUEPRINT:0,4294967296,0,0,0,0,0,0,0,v,t,d\"p")).unwrap_err(),
        Error::BadNumber
    );
    assert_eq!(
        Frame::parse(&signed("BLUEPRINT:0,1,0,0,0,0,0,0,18446744073709551616,v,t,d\"p"))
            .unwrap_err(),
        Error::BadNumber
    );
    assert_eq!(
        Frame::parse(&signed("BLUEPRINT:0,1,0,0,-1,0,0,0,0,v,t,d\"p")).unwrap_err(),
        Error::BadNumber
    );
    assert_eq!(
        Frame::parse(&signed("BLUEPRINT:0,1,0,0,,0,0,0,0,v,t,d\"p")).unwrap_err(),
        Error::BadNumber
    );
    assert_eq!(
        Frame::parse(&signed("BLUEPRINT:1,1,0,0,0,0,0,0,0,v,t,d\"p")).unwrap_err(),
        Error::NonZeroSentinel
    );
    assert_eq!(
        Frame::parse(&signed("BLUEPRINT:0,1,0,0,0,0,0,7,0,v,t,d\"p")).unwrap_err(),
        Error::NonZeroSentinel
    );
    // A number that does not parse comes before a field that is not zero.
    assert_eq!(
        Frame::parse(&signed("BLUEPRINT:1,1,0,0,0,0,0,0,x,v,t,d\"p")).unwrap_err(),
        Error::BadNumber
    );
}

#[test]
fn a_frame_is_taken_apart() {
    let text = signed("BLUEPRINT:0,4294967295,1,2,3,4,5,0,18446744073709551615,1.0,a\"b c,d e\"cGF5");
    let frame = Frame::parse(&text).unwrap();
    assert_eq!(frame.layout, u32::MAX);
    assert_eq!(frame.icons, [1, 2, 3, 4, 5]);
    assert_eq!(frame.timestamp, u64::MAX);
    assert_eq!(frame.game_version, "1.0");
    // Only the last field is cut at its quote.
    assert_eq!(frame.icon_text, "a\"b c");
    assert_eq!(frame.desc, "d e");
    assert_eq!(frame.payload, "cGF5");
    assert_eq!(frame.into_text(), text);
    // Text beyond ASCII is taken as it is.
    let text = signed("BLUEPRINT:0,1,1,2,3,4,5,0,6,é,ü,ø\"cGF5");
    let frame = Frame::parse(&text).unwrap();
    assert_eq!(frame.game_version, "é");
    assert_eq!(frame.desc, "ø");
    assert_eq!(frame.into_text(), text);
}

#[test]
fn each_failure_of_the_payload() {
    let head = "BLUEPRINT:0,1,0,0,0,0,0,0,0,v,t,d\"";
    assert_eq!(Blueprint::new(&signed(&format!("{}%%%", head))).unwrap_err(), Error::BadBase64);
    assert_eq!(Blueprint::new(&signed(&format!("{}QUJD", head))).unwrap_err(), Error::Decompression);
    assert_eq!(Blueprint::unpack_data("A").unwrap_err(), Error::BadBase64);
    assert_eq!(Blueprint::unpack_data("QUJD").unwrap_err(), Error::Decompression);
    // A gzip stream of nothing holds no payload.
    assert_eq!(
        Blueprint::unpack_data("H4sIAAAAAAACAwMAAAAAAAAAAAA=").unwrap_err(),
        Error::TruncatedInput
    );
}

#[test]
fn the_payload_goes_through_gzip_and_base64() {
    let bp = Blueprint::new(&example()).unwrap();
    let packed = bp.pack_data(6).unwrap();
    assert!(packed.starts_with("H4sI"));
    assert!(packed.bytes().all(|b| b.is_ascii_alphanumeric() || b == b'+' || b == b'/' || b == b'='));
    let (data, raw) = Blueprint::unpack_data(&packed).unwrap();
    assert_eq!(data, bp.data);
    assert_eq!(raw, bp.data.write().unwrap());
    assert_eq!(raw.len(), 776);
}

#[test]
fn the_checksum_of_a_text() {
    assert_eq!(
        Blueprint::hash(""),
        [
            0x84, 0xd1, 0xce, 0x3b, 0xd6, 0x8f, 0x49, 0xab, 0x26, 0xeb, 0x0f, 0x96, 0x41, 0x66,
            0x17, 0xcf
        ]
    );
    assert_eq!(
        Blueprint::hash_str_to_hash("84D1CE3BD68F49AB26EB0F96416617cf"),
        Ok(Blueprint::hash(""))
    );
    assert_eq!(Blueprint::hash_str_to_hash(""), Err(Error::BadHashFormat));
    assert_eq!(
        Blueprint::hash_str_to_hash("84D1CE3BD68F49AB26EB0F96416617c"),
        Err(Error::BadHashFormat)
    );
    assert_eq!(
        Blueprint::hash_str_to_hash("84D1CE3BD68F49AB26EB0F96416617cfa"),
        Err(Error::BadHashFormat)
    );
    assert_eq!(
        Blueprint::hash_str_to_hash("84D1CE3BD68F49AB26EB0F96416617cx"),
        Err(Error::BadHashFormat)
    );
}

#[test]
fn texts_are_kept_with_percent_escapes() {
    let mut bp = Blueprint::new(&example()).unwrap();
    bp.set_icon_text("50% of a+b, \"né\"~");
    assert_eq!(bp.icon_text, "50%25%20of%20a%2Bb%2C%20%22n%C3%A9%22~");
    assert_eq!(bp.get_icon_text().unwrap(), "50% of a+b, \"né\"~");
    bp.desc = "plain-text_1.0".to_string();
    assert_eq!(bp.get_description().unwrap(), "plain-text_1.0");
    bp.desc = "%FF".to_string();
    assert_eq!(bp.get_description(), Err(Error::BadEscape));
    // A text with escapes can be written and read again.
    bp.desc = "a%2Cb".to_string();
    let again = Blueprint::new(&bp.into_bp_string().unwrap()).unwrap();
    assert_eq!(again.get_description().unwrap(), "a,b");
    assert_eq!(again, bp);
}

#[test]
fn a_changed_digit_behind_the_quote_is_not_accepted() {
    // White space around the checksum and small letters in it are accepted;
    // a digit that then stands for another number is not.
    let text = example();
    let cut = text.len() - 32;
    let loose = format!("{} {}\n", &text[..cut], text[cut..].to_lowercase());
    assert_eq!(Blueprint::new(&loose), Blueprint::new(&text));
    assert!(Blueprint::new(&loose).is_ok());
    for at in 0..32 {
        let mut bytes = loose.clone().into_bytes();
        let place = cut + 1 + at;
        bytes[place] = if bytes[place] == b'f' { b'E' } else { b'f' };
        let changed = String::from_utf8(bytes).unwrap();
        assert_eq!(Blueprint::new(&changed).unwrap_err(), Error::ChecksumMismatch);
        assert_eq!(Frame::parse(&changed).unwrap_err(), Error::ChecksumMismatch);
    }
}

#[test]
fn a_blueprint_that_encodes_is_written_at_every_level() {
    let bp = Blueprint::new(&example()).unwrap();
    for level in [0u32, 1, 6, 9, 10, 1000] {
        let text = bp.into_bp_string_level(level).unwrap();
        assert_eq!(Blueprint::new(&text).unwrap(), bp);
        // The same payload at the same level gives the same text.
        assert_eq!(bp.into_bp_string_level(level).unwrap(), text);
    }
    // A level above 9 counts as 9.
    assert_eq!(bp.pack_data(10).unwrap(), bp.pack_data(9).unwrap());
    assert_eq!(bp.pack_data(u32::MAX).unwrap(), bp.pack_data(9).unwrap());
    assert_eq!(compression_level(10), 9);
    assert_eq!(compression_level(4), 4);
    // Without compression the payload is longer than with it.
    assert!(bp.pack_data(0).unwrap().len() > bp.pack_data(9).unwrap().len());
    assert_eq!(bp.into_bp_string().unwrap(), bp.into_bp_string_level(6).unwrap());
}

#[test]
fn a_stream_is_written_in_base64() {
    assert_eq!(payload_text(&[]).unwrap(), "");
    assert_eq!(payload_text(&[1, 2, 3]).unwrap(), "AQID");
    assert_eq!(payload_text(&[0xff]).unwrap(), "/w==");
    assert_eq!(payload_text(&[0xfb, 0xef]).unwrap(), "++8=");
    assert_eq!(payload_text(b"hello").unwrap(), "aGVsbG8=");
}

#[test]
fn a_text_that_was_set_is_read_back() {
    let mut bp = Blueprint::new(&example()).unwrap();
    for text in ["", "plain", "a b", "100%", "%41", "a+b", "né ü 漢字", "\"q\",'r'\n\t", "~-._"] {
        bp.set_icon_text(text);
        assert_eq!(bp.get_icon_text().unwrap(), text);
        assert!(bp.icon_text.chars().all(|c| c.is_ascii_alphanumeric() || "-._~%".contains(c)));
    }
}
