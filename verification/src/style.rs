//! How a key looks: its colors, the size of its text, and where the text
//! starts.
//!
//! Widths are estimated, not measured: a character is taken to be a fixed
//! share of the text size wide, a share that depends on the kind of
//! characters in the line. All arithmetic is exact, in whole hundredths of a
//! pixel, and positions are rounded towards zero at the very end.

use vstd::prelude::*;
use vstd::utf8::encode_utf8;
use crate::canvas::{Color, ANCHOR_LIMIT};
use crate::label::{KeyLabel, LabelView};

verus! {

/// The color with the given red, green and blue parts.
pub open spec fn rgb(r: u8, g: u8, b: u8) -> Color {
    Color { r, g, b }
}

/// The color behind the keys.
pub open spec fn background() -> Color {
    rgb(28, 28, 32)
}

/// Text size of a main legend of a single byte.
pub const SCALE_SINGLE: u16 = 24;

/// Text size of a main legend of more than eight bytes.
pub const SCALE_LONG: u16 = 14;

/// Text size of a main legend that has a secondary legend below it.
pub const SCALE_STACKED: u16 = 20;

/// Text size of any other main legend.
pub const SCALE_DEFAULT: u16 = 18;

/// Text size of a secondary legend.
pub const SCALE_SUB: u16 = 18;

/// Distance from the top edge of a key to the anchor of its first line.
pub const FIRST_LINE_OFFSET: i32 = 12;

/// Distance between the anchors of two lines.
pub const LINE_PITCH: i32 = 16;

/// Estimated width of a character in a line of capitals and digits, in
/// hundredths of the text size.
pub const WIDTH_UPPER: u8 = 65;

/// Estimated width of a character in a line of small letters, in hundredths
/// of the text size.
pub const WIDTH_LOWER: u8 = 55;

/// Estimated width of a character in any other line, in hundredths of the
/// text size.
pub const WIDTH_MIXED: u8 = 60;

/// The fill of the key that carries `label`: darkest where the key has no
/// legend, else the accent color where it is special, else the neutral one.
pub open spec fn key_fill(label: LabelView) -> Color {
    if label.main_text.len() == 0 {
        rgb(40, 42, 48)
    } else if label.is_special {
        rgb(45, 52, 70)
    } else {
        rgb(52, 58, 70)
    }
}

/// The border of the key that carries `label`, chosen as its fill is.
pub open spec fn key_border(label: LabelView) -> Color {
    if label.main_text.len() == 0 {
        rgb(50, 53, 61)
    } else if label.is_special {
        rgb(65, 73, 96)
    } else {
        rgb(68, 76, 92)
    }
}

/// The color of the main legend: light blue on a special key, off-white on
/// any other.
pub open spec fn main_ink(label: LabelView) -> Color {
    if label.is_special {
        rgb(156, 220, 254)
    } else {
        rgb(240, 246, 252)
    }
}

/// The color of the secondary legend: a muted grey.
pub open spec fn sub_ink() -> Color {
    rgb(156, 163, 175)
}

/// The number of bytes of `text` in UTF-8.
pub open spec fn byte_length(text: Seq<char>) -> nat {
    encode_utf8(text).len()
}

/// The text size of the main legend: largest for a single byte, smallest for
/// more than eight, in between where a secondary legend shares the key.
pub open spec fn main_scale(label: LabelView) -> nat {
    if byte_length(label.main_text) == 1 {
        SCALE_SINGLE as nat
    } else if byte_length(label.main_text) > 8 {
        SCALE_LONG as nat
    } else if label.sub_text is Some {
        SCALE_STACKED as nat
    } else {
        SCALE_DEFAULT as nat
    }
}

/// Whether `c` is an ASCII capital or digit.
pub open spec fn is_upper_or_digit(c: char) -> bool {
    'A' <= c <= 'Z' || '0' <= c <= '9'
}

/// Whether `c` is an ASCII small letter.
pub open spec fn is_lower(c: char) -> bool {
    'a' <= c <= 'z'
}

/// Whether `line` holds capitals and digits only.
pub open spec fn all_upper_or_digit(line: Seq<char>) -> bool {
    forall|i: int| 0 <= i < line.len() ==> is_upper_or_digit(#[trigger] line[i])
}

/// Whether `line` holds small letters only.
pub open spec fn all_lower(line: Seq<char>) -> bool {
    forall|i: int| 0 <= i < line.len() ==> is_lower(#[trigger] line[i])
}

/// The estimated width of one character of `line`, in hundredths of the text
/// size.
pub open spec fn width_percent(line: Seq<char>) -> nat {
    if all_upper_or_digit(line) {
        WIDTH_UPPER as nat
    } else if all_lower(line) {
        WIDTH_LOWER as nat
    } else {
        WIDTH_MIXED as nat
    }
}

/// The estimated width of `line` at text size `scale`, in hundredths of a
/// pixel.
pub open spec fn estimated_width(line: Seq<char>, scale: nat) -> nat {
    line.len() * scale * width_percent(line)
}

/// `a / b` rounded towards zero.
pub open spec fn quotient_towards_zero(a: int, b: int) -> int
    recommends
        b > 0,
{
    if a >= 0 {
        a / b
    } else {
        -((-a) / b)
    }
}

/// `v`, or the nearest coordinate at which text may be anchored.
pub open spec fn clamp_anchor(v: int) -> int {
    if v < -ANCHOR_LIMIT {
        -(ANCHOR_LIMIT as int)
    } else if v > ANCHOR_LIMIT {
        ANCHOR_LIMIT as int
    } else {
        v
    }
}

/// Where `line` starts so that its estimated width is centred in a key with
/// left edge `x` and the given width.
pub open spec fn centred_x(x: int, width: int, line: Seq<char>, scale: nat) -> int {
    clamp_anchor(
        quotient_towards_zero(200 * x + 100 * width - estimated_width(line, scale), 200),
    )
}

/// The anchor height of line number `index` of the main legend of a key with
/// top edge `y`.
pub open spec fn line_y(y: int, index: int) -> int {
    clamp_anchor(y + FIRST_LINE_OFFSET + LINE_PITCH * index)
}

/// The anchor height of the secondary legend: three quarters down a key with
/// top edge `y` and the given height.
pub open spec fn sub_y(y: int, height: int) -> int {
    clamp_anchor(quotient_towards_zero(4 * y + 3 * height, 4))
}

/// The fill and the border of the key that carries `label`.
pub fn key_colors(label: &KeyLabel) -> (colors: (Color, Color))
    ensures
        colors.0 == key_fill(label@),
        colors.1 == key_border(label@),
{
    if label.main_text.as_str().is_empty() {
        (Color { r: 40, g: 42, b: 48 }, Color { r: 50, g: 53, b: 61 })
    } else if label.is_special {
        (Color { r: 45, g: 52, b: 70 }, Color { r: 65, g: 73, b: 96 })
    } else {
        (Color { r: 52, g: 58, b: 70 }, Color { r: 68, g: 76, b: 92 })
    }
}

/// The color of the main legend of `label`.
pub fn main_ink_of(label: &KeyLabel) -> (ink: Color)
    ensures
        ink == main_ink(label@),
{
    if label.is_special {
        Color { r: 156, g: 220, b: 254 }
    } else {
        Color { r: 240, g: 246, b: 252 }
    }
}

/// The color of every secondary legend.
pub fn sub_ink_of() -> (ink: Color)
    ensures
        ink == sub_ink(),
{
    Color { r: 156, g: 163, b: 175 }
}

/// The color behind the keys.
pub fn background_of() -> (color: Color)
    ensures
        color == background(),
{
    Color { r: 28, g: 28, b: 32 }
}

/// The text size of the main legend of `label`.
pub fn main_scale_of(label: &KeyLabel) -> (scale: u16)
    ensures
        scale == main_scale(label@),
        scale == SCALE_SINGLE || scale == SCALE_LONG || scale == SCALE_STACKED || scale
            == SCALE_DEFAULT,
{
    let bytes = label.main_text.as_str().as_bytes().len();
    if bytes == 1 {
        SCALE_SINGLE
    } else if bytes > 8 {
        SCALE_LONG
    } else if label.sub_text.is_some() {
        SCALE_STACKED
    } else {
        SCALE_DEFAULT
    }
}

/// The estimated width of one character of `line`, in hundredths of the text
/// size.
pub fn width_percent_of(line: &[char]) -> (percent: u8)
    ensures
        percent == width_percent(line@),
{
    let mut upper = true;
    let mut lower = true;
    let mut i: usize = 0;
    while i < line.len()
        invariant
            i <= line.len(),
            upper == all_upper_or_digit(line@.take(i as int)),
            lower == all_lower(line@.take(i as int)),
        decreases line.len() - i,
    {
        let c = line[i];
        let ghost before = line@.take(i as int);
        let ghost upto = line@.take(i + 1);
        assert(upto[i as int] == c);
        assert(forall|k: int| 0 <= k < i ==> before[k] == upto[k]);
        if !(('A' <= c && c <= 'Z') || ('0' <= c && c <= '9')) {
            upper = false;
        }
        if !('a' <= c && c <= 'z') {
            lower = false;
        }
        i += 1;
    }
    assert(line@.take(line.len() as int) =~= line@);
    if upper {
        WIDTH_UPPER
    } else if lower {
        WIDTH_LOWER
    } else {
        WIDTH_MIXED
    }
}

/// Brings `v` into the range in which text may be anchored.
pub fn clamp_anchor_of(v: i128) -> (anchor: i32)
    ensures
        anchor == clamp_anchor(v as int),
        -ANCHOR_LIMIT <= anchor <= ANCHOR_LIMIT,
{
    if v < -(ANCHOR_LIMIT as i128) {
        -ANCHOR_LIMIT
    } else if v > ANCHOR_LIMIT as i128 {
        ANCHOR_LIMIT
    } else {
        v as i32
    }
}

/// Where `line` starts so that it is centred in a key with left edge `x`
/// and the given width.
pub fn centred_x_of(x: i32, width: u32, line: &[char], scale: u16) -> (anchor: i32)
    ensures
        anchor == centred_x(x as int, width as int, line@, scale as nat),
        -ANCHOR_LIMIT <= anchor <= ANCHOR_LIMIT,
{
    let percent = width_percent_of(line);
    assert(0 <= (scale as i128) * (percent as i128) <= 65535 * 65) by (nonlinear_arith)
        requires
            0 <= scale <= 65535,
            0 <= percent <= 65,
    ;
    let per_char: i128 = (scale as i128) * (percent as i128);
    let count: i128 = line.len() as i128;
    assert(0 <= count * per_char <= 0x1_0000_0000_0000_0000 * (65535 * 65)) by (nonlinear_arith)
        requires
            0 <= count < 0x1_0000_0000_0000_0000,
            0 <= per_char <= 65535 * 65,
    ;
    assert(line@.len() * (scale as nat) * width_percent(line@) == count * per_char)
        by (nonlinear_arith)
        requires
            line@.len() == count,
            per_char == (scale as nat) * width_percent(line@),
    ;
    let estimate: i128 = count * per_char;
    let doubled: i128 = 200 * (x as i128) + 100 * (width as i128) - estimate;
    clamp_anchor_of(doubled / 200)
}

/// The anchor height of line number `index` of the main legend of a key
/// with top edge `y`.
pub fn line_y_of(y: i32, index: usize) -> (anchor: i32)
    ensures
        anchor == line_y(y as int, index as int),
        -ANCHOR_LIMIT <= anchor <= ANCHOR_LIMIT,
{
    clamp_anchor_of(
        (y as i128) + (FIRST_LINE_OFFSET as i128) + (LINE_PITCH as i128) * (index as i128),
    )
}

/// The anchor height of the secondary legend of a key with top edge `y` and
/// the given height.
pub fn sub_y_of(y: i32, height: u32) -> (anchor: i32)
    ensures
        anchor == sub_y(y as int, height as int),
        -ANCHOR_LIMIT <= anchor <= ANCHOR_LIMIT,
{
    clamp_anchor_of((4 * (y as i128) + 3 * (height as i128)) / 4)
}

} // verus!
