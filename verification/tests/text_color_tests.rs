use pomodoro_timer::color::{format_hex_color, parse_hex_color, Rgb};
use pomodoro_timer::text::{chars_of, str_eq, string_from_chars};

/// A colour field read by hand: six hexadecimal digits after trimming and
/// dropping the leading `#`s.
fn reference_parse(s: &str) -> Option<(u8, u8, u8)> {
    let s = s.trim().trim_start_matches('#');
    if s.len() != 6 || !s.chars().all(|c| c.is_ascii_hexdigit()) {
        return None;
    }
    let r = u8::from_str_radix(&s[0..2], 16).ok()?;
    let g = u8::from_str_radix(&s[2..4], 16).ok()?;
    let b = u8::from_str_radix(&s[4..6], 16).ok()?;
    Some((r, g, b))
}

fn rgb(c: Option<Rgb>) -> Option<(u8, u8, u8)> {
    c.map(|c| (c.r, c.g, c.b))
}

#[test]
fn string_round_trip_through_chars() {
    let v = chars_of("h\u{e9}llo");
    assert_eq!(v, vec!['h', '\u{e9}', 'l', 'l', 'o']);
    assert_eq!(string_from_chars(&v), "h\u{e9}llo");
    assert!(str_eq("abc", "abc"));
    assert!(!str_eq("abc", "abd"));
    assert!(!str_eq("abc", "ab"));
}

#[test]
fn parses_six_digit_colours() {
    assert_eq!(rgb(parse_hex_color("ff8000")), Some((255, 128, 0)));
    assert_eq!(rgb(parse_hex_color("#FF8000")), Some((255, 128, 0)));
    assert_eq!(rgb(parse_hex_color("  ##f27a1e \n")), Some((0xf2, 0x7a, 0x1e)));
    assert_eq!(rgb(parse_hex_color("000000")), Some((0, 0, 0)));
}

#[test]
fn rejects_a_sign_in_a_field() {
    assert_eq!(parse_hex_color("+f+f+f"), None);
    assert_eq!(parse_hex_color("++0000"), None);
    assert_eq!(parse_hex_color("#+f+f+f"), None);
}

#[test]
fn rejects_malformed_colours() {
    assert_eq!(parse_hex_color(""), None);
    assert_eq!(parse_hex_color("12345"), None);
    assert_eq!(parse_hex_color("1234567"), None);
    assert_eq!(parse_hex_color("gg0000"), None);
    assert_eq!(parse_hex_color("12 456"), None);
    assert_eq!(parse_hex_color("-10000"), None);
    assert_eq!(parse_hex_color("\u{e9}1234"), None);
}

#[test]
fn agrees_with_the_reference_reading() {
    let samples = [
        "ff8000", "#00ff00", " 0a0B0c ", "+1+2+3", "#", "######", "##abcdef", "abcdeg", "ABCDEF",
        "\t123456\t", "1 2 3 ", "\u{2003}a1b2c3\u{3000}", "#+f+f+f", "0x1234", "+0+0+0",
    ];
    for s in samples {
        assert_eq!(rgb(parse_hex_color(s)), reference_parse(s), "{s:?}");
    }
}

#[test]
fn non_ascii_fields_are_not_colours() {
    assert_eq!(parse_hex_color("a\u{e9}123"), None);
    assert_eq!(parse_hex_color("a\u{e9}1234"), None);
    assert_eq!(parse_hex_color("\u{e9}"), None);
    assert_eq!(parse_hex_color("\u{ff10}12345"), None);
}

#[test]
fn parse_then_format_lowers_the_digits() {
    for s in ["FF8000", "abcdef", "0A0b0C", "123456"] {
        let c = parse_hex_color(s).unwrap();
        assert_eq!(format_hex_color(c), s.to_ascii_lowercase());
    }
}

#[test]
fn formats_lower_case_digits() {
    assert_eq!(format_hex_color(Rgb { r: 255, g: 128, b: 0 }), "ff8000");
    assert_eq!(format_hex_color(Rgb { r: 0xf2, g: 0x7a, b: 0x1e }), "f27a1e");
    assert_eq!(format_hex_color(Rgb { r: 0, g: 1, b: 16 }), "000110");
}

#[test]
fn format_then_parse_is_identity() {
    for (r, g, b) in [(0u8, 0u8, 0u8), (255, 255, 255), (1, 2, 3), (0x40, 0xd9, 0x73), (171, 205, 239)] {
        let c = Rgb { r, g, b };
        assert_eq!(parse_hex_color(&format_hex_color(c)), Some(c));
    }
}
