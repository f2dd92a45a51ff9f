use vellogd::color::{hex_color_to_u32, is_hex_color, Color, Rgba};

#[test]
fn rgb_packs_red_in_low_byte() {
    assert_eq!(Color::rgb(0x12, 0x34, 0x56).to_i32(), 0xff563412_u32 as i32);
}

#[test]
fn rgba_keeps_alpha() {
    assert_eq!(Color::rgba(1, 2, 3, 0x7f).to_i32(), 0x7f030201);
    assert_eq!(Color::rgba(0, 0, 0, 0).to_i32(), 0);
}

#[test]
fn hex_swaps_to_r_order() {
    // 0xF0F8FF is "aliceblue": red F0, green F8, blue FF.
    assert_eq!(Color::hex(0xF0F8FF).to_i32(), 0xffFFF8F0_u32 as i32);
    assert_eq!(Color::hex(0x123456).to_i32(), Color::rgb(0x12, 0x34, 0x56).to_i32());
}

#[test]
fn hex3_doubles_digits() {
    assert_eq!(Color::hex3(0xF0F).to_i32(), Color::rgb(0xff, 0x00, 0xff).to_i32());
    assert_eq!(Color::hex3(0x8A2).to_i32(), Color::rgb(0x88, 0xaa, 0x22).to_i32());
}

#[test]
fn rgba_from_word_splits_channels() {
    let c = Rgba::from_word(0x80402010);
    assert_eq!(c, Rgba { r: 0x10, g: 0x20, b: 0x40, a: 0x80 });
    assert_eq!(c.to_word(), 0x80402010);
}

#[test]
fn short_hex_colors() {
    assert_eq!(hex_color_to_u32("f00"), 0xff0000ff);
    assert_eq!(hex_color_to_u32("999"), 0xff999999);
    assert_eq!(hex_color_to_u32("0f08"), 0x8800ff00);
    assert_eq!(hex_color_to_u32("ABCD"), 0xddccbbaa);
}

#[test]
fn short_hex_color_check() {
    assert!(is_hex_color("000"));
    assert!(is_hex_color("fFfF"));
    assert!(!is_hex_color("ff"));
    assert!(!is_hex_color("fffff"));
    assert!(!is_hex_color("+ff"));
    assert!(!is_hex_color("ggg"));
}
