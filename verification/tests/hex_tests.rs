use firmware::color::Color;
use firmware::hex::{hex_to_rgbw, is_hex_digit, HexError, HexErrorKind};

fn err(kind: HexErrorKind, offset: usize) -> HexError {
    HexError { kind, offset }
}

#[test]
fn hex_digits_are_recognised() {
    for c in "0123456789abcdefABCDEF".chars() {
        assert!(is_hex_digit(c));
    }
    for c in "gGzZ #+-x\u{e9}".chars() {
        assert!(!is_hex_digit(c));
    }
}

#[test]
fn reads_colour_and_rest() {
    assert_eq!(hex_to_rgbw("#11223344"), Ok(("", Color::new(0x11, 0x22, 0x33, 0x44))));
    assert_eq!(hex_to_rgbw("#aAbBcCdD\n"), Ok(("\n", Color::new(0xaa, 0xbb, 0xcc, 0xdd))));
    assert_eq!(hex_to_rgbw("#000000001234"), Ok(("1234", Color::new(0, 0, 0, 0))));
}

#[test]
fn refuses_text_without_hash() {
    assert_eq!(hex_to_rgbw(""), Err(err(HexErrorKind::Tag, 0)));
    assert_eq!(hex_to_rgbw("11223344"), Err(err(HexErrorKind::Tag, 0)));
    assert_eq!(hex_to_rgbw(" #11223344"), Err(err(HexErrorKind::Tag, 0)));
}

#[test]
fn names_the_channel_that_fails() {
    assert_eq!(hex_to_rgbw("#"), Err(err(HexErrorKind::TakeWhileMN, 1)));
    assert_eq!(hex_to_rgbw("#1"), Err(err(HexErrorKind::TakeWhileMN, 1)));
    assert_eq!(hex_to_rgbw("#1x223344"), Err(err(HexErrorKind::TakeWhileMN, 1)));
    assert_eq!(hex_to_rgbw("#11x23344"), Err(err(HexErrorKind::TakeWhileMN, 3)));
    assert_eq!(hex_to_rgbw("#112233"), Err(err(HexErrorKind::TakeWhileMN, 7)));
    assert_eq!(hex_to_rgbw("#1122\u{e9}344"), Err(err(HexErrorKind::TakeWhileMN, 5)));
    assert_eq!(hex_to_rgbw("#1122334"), Err(err(HexErrorKind::TakeWhileMN, 7)));
}

#[test]
fn reading_written_colours_gives_them_back() {
    for v in 0..=255u8 {
        let c = Color::new(v, 255 - v, v / 3, v.wrapping_mul(7));
        let text = format!("#{:02x}{:02x}{:02x}{:02x}tail", c.r, c.g, c.b, c.w);
        assert_eq!(hex_to_rgbw(&text), Ok(("tail", c)));
    }
}
