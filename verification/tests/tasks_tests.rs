use firmware::animations::AnimationSet;
use firmware::color::Color;
use firmware::hex::{HexError, HexErrorKind};
use firmware::tasks::{apply_text, color_command, handle_message, MessageOutcome, NUM_LEDS};

#[test]
fn colour_message_changes_colour() {
    let mut set = AnimationSet::new();
    let out = handle_message(&mut set, b"#0102030405");
    assert_eq!(out, MessageOutcome::ColorChanged(Color::new(1, 2, 3, 4)));
    assert_eq!(set.current_index, 1);
    assert_eq!(set.render_frame(), Color::new(1, 2, 3, 4));
}

#[test]
fn bad_hex_leaves_animation() {
    let mut set = AnimationSet::new();
    set.next_animation();
    set.next_animation();
    let out = handle_message(&mut set, b"#12");
    assert_eq!(
        out,
        MessageOutcome::InvalidHex(HexError { kind: HexErrorKind::TakeWhileMN, offset: 3 })
    );
    assert_eq!(set.current_index, 2);
    assert_eq!(set.render_frame(), Color::white());
}

#[test]
fn non_utf8_leaves_animation() {
    let mut set = AnimationSet::new();
    let out = handle_message(&mut set, &[b'#', 0xff, b'1', b'1', b'2', b'2', b'3', b'3', b'4']);
    assert_eq!(out, MessageOutcome::InvalidUtf8);
    assert_eq!(set.current_index, 0);
    let out = handle_message(&mut set, b"#11223344\xc3");
    assert_eq!(out, MessageOutcome::InvalidUtf8);
    assert_eq!(set.current_index, 0);
}

#[test]
fn apply_text_without_text() {
    let mut set = AnimationSet::new();
    assert_eq!(apply_text(&mut set, None), MessageOutcome::InvalidUtf8);
    assert_eq!(
        apply_text(&mut set, Some("11223344")),
        MessageOutcome::InvalidHex(HexError { kind: HexErrorKind::Tag, offset: 0 })
    );
    assert_eq!(set.current_index, 0);
}

#[test]
fn command_appends_dark_white() {
    assert_eq!(color_command("#a1b2c3"), "#a1b2c300");
    assert_eq!(color_command(""), "00");
}

#[test]
fn command_is_understood_by_the_lamp() {
    let mut set = AnimationSet::new();
    let message = color_command("#ff8000");
    let out = handle_message(&mut set, message.as_bytes());
    assert_eq!(out, MessageOutcome::ColorChanged(Color::new(255, 128, 0, 0)));
    assert_eq!(set.render_frame(), Color::new(255, 128, 0, 0));
}

#[test]
fn strip_has_64_leds() {
    assert_eq!(NUM_LEDS, 64);
}
