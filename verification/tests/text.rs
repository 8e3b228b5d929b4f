use dspbp::text::{
    hex_digit, hex_digit_char, parse_hex, parse_u32, parse_u64, push_all, push_decimal, push_hex,
    rfind_char, split_range, starts_with, trim_range, whitespace,
};

fn chars(s: &str) -> Vec<char> {
    s.chars().collect()
}

fn cut(s: &str, bounds: (usize, usize)) -> String {
    s.chars().skip(bounds.0).take(bounds.1 - bounds.0).collect()
}

#[test]
fn white_space_is_what_unicode_says() {
    for c in [' ', '\t', '\n', '\r', '\u{b}', '\u{c}', '\u{85}', '\u{a0}', '\u{1680}', '\u{2000}',
        '\u{200a}', '\u{2028}', '\u{2029}', '\u{202f}', '\u{205f}', '\u{3000}']
    {
        assert!(whitespace(c));
    }
    for c in ['a', '0', '"', '\u{8}', '\u{e}', '\u{200b}', '\u{feff}', '\u{180e}'] {
        assert!(!whitespace(c));
    }
    for n in 0..0x11_0000u32 {
        if let Some(c) = char::from_u32(n) {
            assert_eq!(whitespace(c), c.is_whitespace());
        }
    }
}

#[test]
fn a_text_is_trimmed() {
    let s = " \t a b \n";
    let c = chars(s);
    assert_eq!(trim_range(&c, 0, c.len()), (3, 6));
    assert_eq!(cut(s, trim_range(&c, 0, c.len())), "a b");
    assert_eq!(trim_range(&c, 3, 6), (3, 6));
    assert_eq!(trim_range(&c, 0, 3), (3, 3));
    assert_eq!(trim_range(&c, 4, 5), (5, 5));
    assert_eq!(trim_range(&c, 2, 2), (2, 2));
    assert_eq!(trim_range(&[], 0, 0), (0, 0));
    let c = chars("\u{3000}x\u{a0}");
    assert_eq!(trim_range(&c, 0, 3), (1, 2));
}

#[test]
fn a_text_is_split() {
    let s = "a,bc,,d,";
    let c = chars(s);
    assert_eq!(split_range(&c, 0, c.len(), ','), vec![(0, 1), (2, 4), (5, 5), (6, 7), (8, 8)]);
    assert_eq!(split_range(&c, 0, c.len(), ';'), vec![(0, 8)]);
    assert_eq!(split_range(&c, 2, 4, ','), vec![(2, 4)]);
    assert_eq!(split_range(&c, 1, 2, ','), vec![(1, 1), (2, 2)]);
    assert_eq!(split_range(&c, 3, 3, ','), vec![(3, 3)]);
    assert_eq!(split_range(&[], 0, 0, ','), vec![(0, 0)]);
    let parts: Vec<String> =
        split_range(&c, 0, c.len(), ',').into_iter().map(|b| cut(s, b)).collect();
    let expected: Vec<String> = s.split(',').map(|p| p.to_string()).collect();
    assert_eq!(parts, expected);
}

#[test]
fn a_character_is_found() {
    let c = chars("a\"b\"c");
    assert_eq!(rfind_char(&c, '"'), Some(3));
    assert_eq!(rfind_char(&c, 'a'), Some(0));
    assert_eq!(rfind_char(&c, 'c'), Some(4));
    assert_eq!(rfind_char(&c, 'x'), None);
    assert_eq!(rfind_char(&[], 'x'), None);
    assert!(starts_with(&c, 0, 5, &['a', '"']));
    assert!(starts_with(&c, 1, 5, &['"', 'b']));
    assert!(starts_with(&c, 1, 3, &['"', 'b']));
    assert!(!starts_with(&c, 1, 2, &['"', 'b']));
    assert!(!starts_with(&c, 0, 5, &['"']));
    assert!(starts_with(&c, 5, 5, &[]));
}

#[test]
fn numbers_in_decimal() {
    let parse = |s: &str| parse_u64(&chars(s), 0, s.chars().count());
    assert_eq!(parse("0"), Some(0));
    assert_eq!(parse("007"), Some(7));
    assert_eq!(parse("+5"), Some(5));
    assert_eq!(parse("18446744073709551615"), Some(u64::MAX));
    assert_eq!(parse("18446744073709551616"), None);
    assert_eq!(parse("99999999999999999999"), None);
    assert_eq!(parse("184467440737095516150"), None);
    assert_eq!(parse(""), None);
    assert_eq!(parse("+"), None);
    assert_eq!(parse("-1"), None);
    assert_eq!(parse("++1"), None);
    assert_eq!(parse("1+"), None);
    assert_eq!(parse(" 1"), None);
    assert_eq!(parse("1 "), None);
    assert_eq!(parse("1a"), None);
    assert_eq!(parse("٣"), None);
    let parse = |s: &str| parse_u32(&chars(s), 0, s.chars().count());
    assert_eq!(parse("4294967295"), Some(u32::MAX));
    assert_eq!(parse("4294967296"), None);
    assert_eq!(parse("+0"), Some(0));
    assert_eq!(parse("x"), None);
    let c = chars("ab123cd");
    assert_eq!(parse_u32(&c, 2, 5), Some(123));
    assert_eq!(parse_u32(&c, 2, 6), None);
    for s in ["0", "1", "+1", "12345", "4294967295", "4294967296", "", "+", "-0", "0x10", "1_000"] {
        assert_eq!(parse(s), s.parse::<u32>().ok());
    }
    for n in [0u64, 1, 9, 10, 11, 99, 100, 12345, u32::MAX as u64, u64::MAX] {
        let mut out = vec!['>'];
        push_decimal(&mut out, n);
        let text: String = out.into_iter().collect();
        assert_eq!(text, format!(">{}", n));
    }
}

#[test]
fn numbers_in_hexadecimal() {
    assert_eq!(hex_digit('0'), Some(0));
    assert_eq!(hex_digit('9'), Some(9));
    assert_eq!(hex_digit('a'), Some(10));
    assert_eq!(hex_digit('F'), Some(15));
    assert_eq!(hex_digit('g'), None);
    assert_eq!(hex_digit('G'), None);
    assert_eq!(hex_digit('+'), None);
    assert_eq!(hex_digit(' '), None);
    assert_eq!(hex_digit_char(0), '0');
    assert_eq!(hex_digit_char(9), '9');
    assert_eq!(hex_digit_char(10), 'A');
    assert_eq!(hex_digit_char(15), 'F');
    let s = "000102030405060708090a0B0c0D0eFf";
    let c = chars(s);
    assert_eq!(
        parse_hex(&c, 0, 32),
        Some([0, 1, 2, 3, 4, 5, 6, 7, 8, 9, 10, 11, 12, 13, 14, 255])
    );
    assert_eq!(parse_hex(&c, 0, 31), None);
    assert_eq!(parse_hex(&c, 1, 32), None);
    let mut out = vec!['x'];
    push_hex(&mut out, &[0, 1, 0xab, 0xff]);
    assert_eq!(out.into_iter().collect::<String>(), "x0001ABFF");
    let mut out = vec![];
    push_all(&mut out, &['a', 'b']);
    push_all(&mut out, &[]);
    assert_eq!(out, vec!['a', 'b']);
}
