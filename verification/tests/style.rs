use vial_legend::style::{
    background_of, centred_x_of, clamp_anchor_of, key_colors, line_y_of, main_ink_of,
    main_scale_of, sub_ink_of, sub_y_of, width_percent_of,
};
use vial_legend::scene::line_fits_of;
use vial_legend::{Color, KeyLabel};

fn cs(s: &str) -> Vec<char> {
    s.chars().collect()
}

fn label(main: &str, sub: Option<&str>, special: bool) -> KeyLabel {
    KeyLabel { main_text: main.to_string(), sub_text: sub.map(|s| s.to_string()), is_special: special }
}

fn rgb(r: u8, g: u8, b: u8) -> Color {
    Color { r, g, b }
}

#[test]
fn blank_key_is_darkest_whether_special_or_not() {
    assert_eq!(key_colors(&label("", None, false)), (rgb(40, 42, 48), rgb(50, 53, 61)));
    assert_eq!(key_colors(&label("", None, true)), (rgb(40, 42, 48), rgb(50, 53, 61)));
    assert_eq!(key_colors(&label("", Some("LT1"), true)), (rgb(40, 42, 48), rgb(50, 53, 61)));
}

#[test]
fn special_key_has_the_accent_colors() {
    assert_eq!(key_colors(&label("TO(1)", None, true)), (rgb(45, 52, 70), rgb(65, 73, 96)));
    assert_eq!(key_colors(&label("Z", Some("LAlt"), true)), (rgb(45, 52, 70), rgb(65, 73, 96)));
}

#[test]
fn ordinary_key_has_the_neutral_colors() {
    assert_eq!(key_colors(&label("A", None, false)), (rgb(52, 58, 70), rgb(68, 76, 92)));
    assert_eq!(key_colors(&label(" ", None, false)), (rgb(52, 58, 70), rgb(68, 76, 92)));
}

#[test]
fn ink_follows_the_special_flag() {
    assert_eq!(main_ink_of(&label("A", None, false)), rgb(240, 246, 252));
    assert_eq!(main_ink_of(&label("A", None, true)), rgb(156, 220, 254));
    assert_eq!(sub_ink_of(), rgb(156, 163, 175));
    assert_eq!(background_of(), rgb(28, 28, 32));
}

#[test]
fn scale_is_chosen_by_length_then_by_secondary_legend() {
    assert_eq!(main_scale_of(&label("A", None, false)), 24);
    assert_eq!(main_scale_of(&label("A", Some("LT1"), true)), 24);
    assert_eq!(main_scale_of(&label("123456789", None, false)), 14);
    assert_eq!(main_scale_of(&label("123456789", Some("x"), true)), 14);
    assert_eq!(main_scale_of(&label("Print\nScreen", None, false)), 14);
    assert_eq!(main_scale_of(&label("12345678", Some("x"), true)), 20);
    assert_eq!(main_scale_of(&label("Tab", Some("MO3"), true)), 20);
    assert_eq!(main_scale_of(&label("", Some("LT1"), true)), 20);
    assert_eq!(main_scale_of(&label("12345678", None, false)), 18);
    assert_eq!(main_scale_of(&label("Tab", None, false)), 18);
    assert_eq!(main_scale_of(&label("", None, false)), 18);
}

#[test]
fn scale_counts_bytes_not_characters() {
    assert_eq!(main_scale_of(&label("\u{e9}", None, false)), 18);
    assert_eq!(main_scale_of(&label("\u{3042}\u{3042}\u{3042}", None, false)), 14);
    assert_eq!(main_scale_of(&label("\u{e9}\u{e9}\u{e9}\u{e9}", None, false)), 18);
    assert_eq!(main_scale_of(&label("\u{e9}\u{e9}\u{e9}\u{e9}a", None, false)), 14);
}

#[test]
fn width_share_depends_on_the_kind_of_characters() {
    assert_eq!(width_percent_of(&cs("ABC")), 65);
    assert_eq!(width_percent_of(&cs("A1Z9")), 65);
    assert_eq!(width_percent_of(&cs("007")), 65);
    assert_eq!(width_percent_of(&cs("")), 65);
    assert_eq!(width_percent_of(&cs("abc")), 55);
    assert_eq!(width_percent_of(&cs("z")), 55);
    assert_eq!(width_percent_of(&cs("Abc")), 60);
    assert_eq!(width_percent_of(&cs("abc1")), 60);
    assert_eq!(width_percent_of(&cs("A B")), 60);
    assert_eq!(width_percent_of(&cs("?/")), 60);
    assert_eq!(width_percent_of(&cs("\u{c9}")), 60);
}

#[test]
fn line_is_centred_on_its_estimated_width() {
    // 92 + (78 - 1 * 24 * 0.65) / 2 = 123.2
    assert_eq!(centred_x_of(92, 78, &cs("A"), 24), 123);
    // 10 + (78 - 5 * 18 * 0.60) / 2 = 22
    assert_eq!(centred_x_of(10, 78, &cs("Space"), 18), 22);
    // 10 + (78 - 3 * 18 * 0.55) / 2 = 34.15
    assert_eq!(centred_x_of(10, 78, &cs("abc"), 18), 34);
    // 338 + (117 - 5 * 20 * 0.65) / 2 = 364
    assert_eq!(centred_x_of(338, 117, &cs("SPACE"), 20), 364);
    // an empty line starts in the middle of the key
    assert_eq!(centred_x_of(0, 78, &cs(""), 18), 39);
    assert_eq!(centred_x_of(0, 77, &cs(""), 18), 38);
}

#[test]
fn centre_is_rounded_towards_zero() {
    // 0 + (3 - 1 * 24 * 0.65) / 2 = -6.3
    assert_eq!(centred_x_of(0, 3, &cs("A"), 24), -6);
    // -10 + (3 - 0) / 2 = -8.5
    assert_eq!(centred_x_of(-10, 3, &cs(""), 18), -8);
    // 0 + (3 - 2 * 14 * 0.55) / 2 = -6.2
    assert_eq!(centred_x_of(0, 3, &cs("ab"), 14), -6);
    // 1 + (3 - 10 * 14 * 0.65) / 2 = -43
    assert_eq!(centred_x_of(1, 3, &cs("0123456789"), 14), -43);
}

#[test]
fn anchors_stay_within_the_limit() {
    let limit = 0x4000_0000;
    assert_eq!(clamp_anchor_of(0), 0);
    assert_eq!(clamp_anchor_of(limit as i128), limit);
    assert_eq!(clamp_anchor_of(limit as i128 + 1), limit);
    assert_eq!(clamp_anchor_of(-(limit as i128)), -limit);
    assert_eq!(clamp_anchor_of(-(limit as i128) - 1), -limit);
    assert_eq!(clamp_anchor_of(i128::MAX), limit);
    assert_eq!(clamp_anchor_of(i128::MIN), -limit);
    assert_eq!(centred_x_of(i32::MAX - 78, 78, &cs("A"), 24), limit);
    assert_eq!(centred_x_of(i32::MIN, 78, &cs("A"), 24), -limit);
    assert_eq!(line_y_of(i32::MAX, 0), limit);
    assert_eq!(line_y_of(0, usize::MAX), limit);
    assert_eq!(sub_y_of(i32::MIN, 3), -limit);
}

#[test]
fn lines_are_sixteen_pixels_apart_from_twelve_below_the_top() {
    assert_eq!(line_y_of(74, 0), 86);
    assert_eq!(line_y_of(74, 1), 102);
    assert_eq!(line_y_of(74, 2), 118);
    assert_eq!(line_y_of(0, 0), 12);
    assert_eq!(line_y_of(-12, 0), 0);
    assert_eq!(line_y_of(-100, 3), -40);
}

#[test]
fn secondary_legend_sits_three_quarters_down() {
    assert_eq!(sub_y_of(74, 60), 119);
    assert_eq!(sub_y_of(10, 60), 55);
    assert_eq!(sub_y_of(0, 3), 2);
    assert_eq!(sub_y_of(0, 5), 3);
    assert_eq!(sub_y_of(-10, 3), -7);
    assert_eq!(sub_y_of(-3, 3), 0);
    assert_eq!(sub_y_of(-4, 3), -1);
}

#[test]
fn line_fits_up_to_682_characters() {
    assert!(line_fits_of(&cs("")));
    assert!(line_fits_of(&cs("Print")));
    assert!(line_fits_of(&vec!['a'; 682]));
    assert!(!line_fits_of(&vec!['a'; 683]));
    assert!(!line_fits_of(&vec!['\u{3042}'; 1000]));
}
