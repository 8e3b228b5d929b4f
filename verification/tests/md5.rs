use dspbp::md5::{Algo, MD5Hash, MD5};

#[test]
fn test_md5_empty() {
    let hash = MD5::new(Algo::MD5).process(&[]);
    let expected: MD5Hash = [
        0xd4, 0x1d, 0x8c, 0xd9, 0x8f, 0x00, 0xb2, 0x04, 0xe9, 0x80, 0x09, 0x98, 0xec, 0xf8, 0x42,
        0x7e,
    ];
    assert!(hash == expected);
}

#[test]
fn test_md5_reference() {
    let text = "12345678901234567890123456789012345678901234567890123456789012345678901234567890";
    let hash = MD5::new(Algo::MD5).process(text.as_bytes());
    let expected: MD5Hash = [
        0x57, 0xed, 0xf4, 0xa2, 0x2b, 0xe3, 0xc9, 0x55, 0xac, 0x49, 0xda, 0x2e, 0x21, 0x07, 0xb6,
        0x7a,
    ];
    assert!(hash == expected);
}

#[test]
fn test_md5f_empty() {
    let hash = MD5::new(Algo::MD5F).process(&[]);
    let expected: MD5Hash = [
        0x84, 0xd1, 0xce, 0x3b, 0xd6, 0x8f, 0x49, 0xab, 0x26, 0xeb, 0x0f, 0x96, 0x41, 0x66, 0x17,
        0xcf,
    ];
    assert!(hash == expected);
}

#[test]
fn test_md5f_a() {
    let text = "a";
    let hash = MD5::new(Algo::MD5F).process(text.as_bytes());
    let expected: MD5Hash = [
        0xf1, 0x0b, 0xdd, 0xae, 0xcb, 0x62, 0xe5, 0xa9, 0x24, 0x33, 0x75, 0x78, 0x67, 0xee, 0x06,
        0xdb,
    ];
    assert!(hash == expected);
}

#[test]
fn test_md5f_abcd() {
    let text = "abcd";
    let hash = MD5::new(Algo::MD5F).process(text.as_bytes());
    let expected: MD5Hash = [
        0xfa, 0x27, 0xc7, 0x8b, 0x6e, 0xc3, 0x15, 0x59, 0xf0, 0xe7, 0x60, 0xce, 0x3f, 0x2b, 0x03,
        0xf6,
    ];
    assert!(hash == expected);
}

#[test]
fn md5_variants_differ_on_empty_input() {
    let plain = MD5::new(Algo::MD5).process(&[]);
    let game = MD5::new(Algo::MD5F).process(&[]);
    assert_ne!(plain, game);
}

#[test]
fn md5_pads_at_block_boundaries() {
    // 55, 56 and 64 bytes are where the padding changes its shape.
    let h55 = MD5::new(Algo::MD5).process(&[b'a'; 55]);
    let h56 = MD5::new(Algo::MD5).process(&[b'a'; 56]);
    let h64 = MD5::new(Algo::MD5).process(&[b'a'; 64]);
    assert_eq!(
        h55,
        [
            0xef, 0x17, 0x72, 0xb6, 0xdf, 0xf9, 0xa1, 0x22, 0x35, 0x85, 0x52, 0x95, 0x4a, 0xd0,
            0xdf, 0x65,
        ]
    );
    assert_eq!(
        h56,
        [
            0x3b, 0x0c, 0x8a, 0xc7, 0x03, 0xf8, 0x28, 0xb0, 0x4c, 0x6c, 0x19, 0x70, 0x06, 0xd1,
            0x72, 0x18,
        ]
    );
    assert_eq!(
        h64,
        [
            0x01, 0x48, 0x42, 0xd4, 0x80, 0xb5, 0x71, 0x49, 0x5a, 0x4a, 0x03, 0x63, 0x79, 0x3f,
            0x73, 0x67,
        ]
    );
}

#[test]
fn md5f_of_eighty_digits() {
    let text = "12345678901234567890123456789012345678901234567890123456789012345678901234567890";
    let game = MD5::new(Algo::MD5F).process(text.as_bytes());
    let plain = MD5::new(Algo::MD5).process(text.as_bytes());
    assert_eq!(
        game,
        [
            0x10, 0x59, 0x23, 0x97, 0xb3, 0xf6, 0xdd, 0xde, 0xa7, 0xf1, 0xec, 0x65, 0x36, 0xc0,
            0xc1, 0xd2,
        ]
    );
    assert_ne!(game, plain);
}

#[test]
fn md5fc_differs_from_both() {
    let plain = MD5::new(Algo::MD5).process(b"abc");
    let game = MD5::new(Algo::MD5F).process(b"abc");
    let other = MD5::new(Algo::MD5FC).process(b"abc");
    assert_ne!(other, plain);
    assert_ne!(other, game);
    assert_eq!(
        plain,
        [
            0x90, 0x01, 0x50, 0x98, 0x3c, 0xd2, 0x4f, 0xb0, 0xd6, 0x96, 0x3f, 0x7d, 0x28, 0xe1,
            0x7f, 0x72
        ]
    );
}

#[test]
fn a_computation_goes_on_from_its_state() {
    // A second message is absorbed from where the first has left the state.
    let mut m = MD5::new(Algo::MD5);
    let first = m.process(b"abc");
    let second = m.process(b"abc");
    assert_ne!(first, second);
    assert_eq!(MD5::new(Algo::MD5).process(b"abc"), first);
}
