use firmware::color::Color;
use firmware::utils::hexToRgba;

#[test]
fn reads_rgb_after_hash() {
    assert_eq!(hexToRgba("#112233"), Color::new(0x11, 0x22, 0x33, 0));
}

#[test]
fn reads_rgb_after_marks() {
    assert_eq!(hexToRgba("0xAABBCC"), Color::new(0xaa, 0xbb, 0xcc, 0));
    assert_eq!(hexToRgba("##0x0x010203ff"), Color::new(1, 2, 3, 0));
    assert_eq!(hexToRgba("a0b0c0"), Color::new(0xa0, 0xb0, 0xc0, 0));
}

#[test]
fn blue_may_end_in_white_space() {
    assert_eq!(hexToRgba("#10203 "), Color::new(0x10, 0x20, 3, 0));
    assert_eq!(hexToRgba("#1020f\n"), Color::new(0x10, 0x20, 15, 0));
}

#[test]
fn channels_may_carry_a_plus() {
    assert_eq!(hexToRgba("+1+2+3"), Color::new(1, 2, 3, 0));
}

#[test]
fn channels_read_as_bytes() {
    assert_eq!(hexToRgba("#ff0A7 "), Color::new(255, 10, 7, 0));
    assert_eq!(hexToRgba("#+f+a0\t"), Color::new(15, 10, 0, 0));
}
