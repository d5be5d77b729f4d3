use firmware::color::Color;

#[test]
fn new_keeps_channels() {
    let c = Color::new(1, 2, 3, 4);
    assert_eq!((c.r, c.g, c.b, c.w), (1, 2, 3, 4));
}

#[test]
fn white_lights_every_channel() {
    assert_eq!(Color::white(), Color::new(255, 255, 255, 255));
}

#[test]
fn default_is_dark() {
    assert_eq!(Color::default(), Color::new(0, 0, 0, 0));
}

#[test]
fn clone_and_clone_from_copy_every_channel() {
    let c = Color::new(9, 8, 7, 6);
    assert_eq!(c.clone(), c);
    let mut d = Color::default();
    d.clone_from(&c);
    assert_eq!(d, c);
}

#[test]
fn tuple_converts_in_channel_order() {
    let c: Color = (10u8, 20u8, 30u8, 40u8).into();
    assert_eq!(c, Color::new(10, 20, 30, 40));
    assert_eq!(Color::from((1u8, 0u8, 0u8, 255u8)), Color::new(1, 0, 0, 255));
}

#[test]
fn from_hex_reads_rgbw() {
    assert_eq!(Color::from_hex("#0a0B10ff"), Ok(Color::new(10, 11, 16, 255)));
}

#[test]
fn from_hex_ignores_what_follows() {
    assert_eq!(Color::from_hex("#01020304 and more"), Ok(Color::new(1, 2, 3, 4)));
}

#[test]
fn from_hex_refuses_bad_text() {
    assert_eq!(Color::from_hex(""), Err(()));
    assert_eq!(Color::from_hex("01020304"), Err(()));
    assert_eq!(Color::from_hex("#010203"), Err(()));
    assert_eq!(Color::from_hex("#0102030g"), Err(()));
}
