//! From a keymap token to the label printed on its key.

use vstd::prelude::*;
use crate::config::{Token, TokenView, VialConfig};
use crate::decimal::{
    decimal,
    decimal_digits,
    decimal_of,
    is_digit,
    lemma_decimal_digits_value,
    parse_index,
    parse_index_of,
    push_decimal_digits,
};
use crate::keycodes::{
    key_code_marker,
    key_text,
    lemma_listed_codes_carry_marker,
    lemma_marker_length,
    plain_keycode_to_label,
    plain_label,
    simple_keycode_to_label,
    simple_label,
};
use crate::text::{
    chars_of,
    replace_all,
    replace_all_of,
    split,
    split_of,
    starts_with,
    string_of,
    trim_end_matches,
    trim_end_matches_of,
    trim_start_matches,
    trim_start_matches_of,
    views,
    without,
    without_of,
};

verus! {

/// What is printed on one key.
#[derive(Clone, Debug)]
pub struct KeyLabel {
    /// The main legend; may hold line breaks, and is empty for a blank key.
    pub main_text: String,
    /// The smaller legend below it, if any.
    pub sub_text: Option<String>,
    /// Whether the key switches layers or acts differently on tap and hold.
    pub is_special: bool,
}

/// The mathematical content of a [`KeyLabel`].
pub struct LabelView {
    pub main_text: Seq<char>,
    pub sub_text: Option<Seq<char>>,
    pub is_special: bool,
}

impl View for KeyLabel {
    type V = LabelView;

    open spec fn view(&self) -> LabelView {
        LabelView {
            main_text: self.main_text@,
            sub_text: match self.sub_text {
                Some(s) => Some(s@),
                None => None,
            },
            is_special: self.is_special,
        }
    }
}

/// The label of an ordinary key that prints `text`.
pub open spec fn plain(text: Seq<char>) -> LabelView {
    LabelView { main_text: text, sub_text: None, is_special: false }
}

/// The label of a special key that prints `text` and nothing below it.
pub open spec fn special(text: Seq<char>) -> LabelView {
    LabelView { main_text: text, sub_text: None, is_special: true }
}

/// The label of a special key that prints `main` above `sub`.
pub open spec fn stacked(main: Seq<char>, sub: Seq<char>) -> LabelView {
    LabelView { main_text: main, sub_text: Some(sub), is_special: true }
}

/// What a tap-dance reference opens with.
pub open spec fn tap_dance_marker() -> Seq<char> {
    "TD("@
}

/// What a layer-tap construct opens with.
pub open spec fn layer_tap_marker() -> Seq<char> {
    "LT"@
}

/// What a layer-switch construct opens with.
pub open spec fn layer_switch_marker() -> Seq<char> {
    "TO("@
}

/// The string that a tap-dance half holds; empty where it is no string.
pub open spec fn token_text(token: TokenView) -> Seq<char> {
    match token {
        TokenView::Text(s) => s,
        _ => Seq::empty(),
    }
}

/// The tap text and the hold text of tap dance `index`: present where the
/// list has that entry and the entry has at least a tap and a hold token.
pub open spec fn tap_dance_info(tap_dance: Seq<Seq<TokenView>>, index: nat) -> Option<
    (Seq<char>, Seq<char>),
> {
    if index < tap_dance.len() && tap_dance[index as int].len() >= 2 {
        Some(
            (
                simple_label(token_text(tap_dance[index as int][0])),
                simple_label(token_text(tap_dance[index as int][1])),
            ),
        )
    } else {
        None
    }
}

/// The text between the opening marker and the closing brackets of a
/// tap-dance reference.
pub open spec fn tap_dance_digits(token: Seq<char>) -> Seq<char> {
    trim_end_matches(trim_start_matches(token, tap_dance_marker()), ')')
}

/// The canonical spelling of the reference to tap dance `index`.
pub open spec fn tap_dance_token(index: nat) -> Seq<char> {
    tap_dance_marker() + decimal_digits(index) + ")"@
}

/// The label of a tap-dance reference. Where the reference names an entry
/// with two non-empty halves, the tap text stands above the hold text. Where
/// it names an entry with an empty half, the canonical reference is printed.
/// Where it names no entry at all, the token is printed as it is.
pub open spec fn tap_dance_label(token: Seq<char>, tap_dance: Seq<Seq<TokenView>>) -> LabelView {
    match parse_index(tap_dance_digits(token)) {
        Some(index) => match tap_dance_info(tap_dance, index) {
            Some((tap, hold)) => if tap.len() > 0 && hold.len() > 0 {
                stacked(tap, hold)
            } else {
                special(tap_dance_token(index))
            },
            None => special(token),
        },
        None => special(token),
    }
}

/// The pieces of a layer-tap construct: every `(KC_` becomes a bar, every
/// closing bracket goes, and the rest is cut at the bars.
pub open spec fn layer_tap_parts(token: Seq<char>) -> Seq<Seq<char>> {
    split(without(replace_all(token, "(KC_"@, "|"@), ')'), '|')
}

/// The label of a layer-tap construct. Where it falls into exactly two
/// pieces, the key stands above the layer; otherwise the token is printed as
/// it is.
pub open spec fn layer_tap_label(token: Seq<char>) -> LabelView {
    let parts = layer_tap_parts(token);
    if parts.len() == 2 {
        stacked(parts[1], parts[0])
    } else {
        special(token)
    }
}

/// The label of a string token, by the family that its opening marker puts
/// it in.
pub open spec fn text_label(token: Seq<char>, tap_dance: Seq<Seq<TokenView>>) -> LabelView {
    if key_code_marker().is_prefix_of(token) {
        plain(plain_label(token))
    } else if tap_dance_marker().is_prefix_of(token) {
        tap_dance_label(token, tap_dance)
    } else if layer_tap_marker().is_prefix_of(token) {
        layer_tap_label(token)
    } else if layer_switch_marker().is_prefix_of(token) {
        special(token)
    } else {
        plain(token)
    }
}

/// The label of any token. The number -1 marks a place without a key and
/// prints as nothing, like every token that is neither a string nor a
/// number; any other number prints as its decimal text.
pub open spec fn resolve_label(token: TokenView, tap_dance: Seq<Seq<TokenView>>) -> LabelView {
    match token {
        TokenView::Text(s) => text_label(s, tap_dance),
        TokenView::Integer(n) => if n == -1 {
            plain(Seq::empty())
        } else {
            plain(decimal(n))
        },
        TokenView::Decimal(s) => plain(s),
        TokenView::Other => plain(Seq::empty()),
    }
}

/// The string of a tap-dance half, empty where it is no string.
fn token_text_of(token: &Token) -> (text: &str)
    ensures
        text@ == token_text(token@),
{
    match token {
        Token::Text(s) => s.as_str(),
        _ => {
            proof {
                reveal_strlit("");
            }
            assert(""@ =~= Seq::<char>::empty());
            ""
        },
    }
}

/// The tap text and the hold text of tap dance `td_index`, if the keymap
/// defines it with at least two tokens.
pub fn get_tap_dance_info(config: &VialConfig, td_index: usize) -> (info: Option<(String, String)>)
    ensures
        match info {
            Some((tap, hold)) => tap_dance_info(config@.tap_dance, td_index as nat) == Some(
                (tap@, hold@),
            ),
            None => tap_dance_info(config@.tap_dance, td_index as nat) is None,
        },
{
    if td_index >= config.tap_dance.len() {
        return None;
    }
    let td_data = &config.tap_dance[td_index];
    assert(config@.tap_dance[td_index as int] =~= td_data.deep_view());
    if td_data.len() >= 2 {
        let tap_label = simple_keycode_to_label(token_text_of(&td_data[0]));
        let hold_label = simple_keycode_to_label(token_text_of(&td_data[1]));
        Some((tap_label, hold_label))
    } else {
        None
    }
}

/// The label of a tap-dance reference.
fn tap_dance_label_of(token: &str, config: &VialConfig) -> (label: KeyLabel)
    ensures
        label@ == tap_dance_label(token@, config@.tap_dance),
{
    let chars = chars_of(token);
    let marker = chars_of("TD(");
    let opened = trim_start_matches_of(chars.as_slice(), marker.as_slice());
    let digits = trim_end_matches_of(opened.as_slice(), ')');
    let echo = KeyLabel { main_text: token.to_string(), sub_text: None, is_special: true };
    let defined = config.tap_dance.len();
    assert(config@.tap_dance.len() == defined);
    match parse_index_of(digits.as_slice()) {
        Some(td_index) => match get_tap_dance_info(config, td_index) {
            Some((tap, hold)) => {
                if !tap.as_str().is_empty() && !hold.as_str().is_empty() {
                    KeyLabel { main_text: tap, sub_text: Some(hold), is_special: true }
                } else {
                    let mut spelled = chars_of("TD(");
                    push_decimal_digits(td_index as u64, &mut spelled);
                    let mut closing = chars_of(")");
                    spelled.append(&mut closing);
                    assert(spelled@ =~= tap_dance_token(td_index as nat));
                    KeyLabel {
                        main_text: string_of(spelled.as_slice()),
                        sub_text: None,
                        is_special: true,
                    }
                }
            },
            None => echo,
        },
        None => echo,
    }
}

/// The label of a layer-tap construct.
fn layer_tap_label_of(token: &str) -> (label: KeyLabel)
    ensures
        label@ == layer_tap_label(token@),
{
    let chars = chars_of(token);
    let open = chars_of("(KC_");
    let bar = chars_of("|");
    let barred = replace_all_of(chars.as_slice(), open.as_slice(), bar.as_slice());
    let formatted = without_of(barred.as_slice(), ')');
    let parts = split_of(formatted.as_slice(), '|');
    if parts.len() == 2 {
        assert(views(parts@)[0] == parts@[0]@);
        assert(views(parts@)[1] == parts@[1]@);
        KeyLabel {
            main_text: string_of(parts[1].as_slice()),
            sub_text: Some(string_of(parts[0].as_slice())),
            is_special: true,
        }
    } else {
        KeyLabel { main_text: token.to_string(), sub_text: None, is_special: true }
    }
}

/// The label printed on the key that holds `keycode`, in the keymap
/// `config`. Every token has a label: what cannot be made sense of is
/// printed as it stands.
pub fn keycode_to_label(keycode: &Token, config: &VialConfig) -> (label: KeyLabel)
    ensures
        label@ == resolve_label(keycode@, config@.tap_dance),
{
    match keycode {
        Token::Text(s) => {
            let chars = chars_of(s.as_str());
            let key_code = chars_of("KC_");
            let tap_dance = chars_of("TD(");
            let layer_tap = chars_of("LT");
            let layer_switch = chars_of("TO(");
            if starts_with(chars.as_slice(), key_code.as_slice()) {
                KeyLabel {
                    main_text: plain_keycode_to_label(s.as_str()),
                    sub_text: None,
                    is_special: false,
                }
            } else if starts_with(chars.as_slice(), tap_dance.as_slice()) {
                tap_dance_label_of(s.as_str(), config)
            } else if starts_with(chars.as_slice(), layer_tap.as_slice()) {
                layer_tap_label_of(s.as_str())
            } else if starts_with(chars.as_slice(), layer_switch.as_slice()) {
                KeyLabel { main_text: s.clone(), sub_text: None, is_special: true }
            } else {
                KeyLabel { main_text: s.clone(), sub_text: None, is_special: false }
            }
        },
        Token::Integer(n) => {
            if *n == -1 {
                KeyLabel { main_text: String::new(), sub_text: None, is_special: false }
            } else {
                let digits = decimal_of(*n);
                KeyLabel {
                    main_text: string_of(digits.as_slice()),
                    sub_text: None,
                    is_special: false,
                }
            }
        },
        Token::Decimal(s) => KeyLabel { main_text: s.clone(), sub_text: None, is_special: false },
        Token::Other => KeyLabel { main_text: String::new(), sub_text: None, is_special: false },
    }
}

/// A plain key code that the full table lists prints as its entry there,
/// with nothing below it, and is not special.
pub proof fn lemma_listed_code_prints_its_entry(code: Seq<char>, tap_dance: Seq<Seq<TokenView>>)
    requires
        key_text(code) is Some,
    ensures
        resolve_label(TokenView::Text(code), tap_dance) == plain(key_text(code)->0),
{
    lemma_listed_codes_carry_marker(code);
}

/// A key code that the full table does not list prints as what follows its
/// marker, with nothing below it, and is not special.
pub proof fn lemma_unlisted_code_prints_its_suffix(code: Seq<char>, tap_dance: Seq<Seq<TokenView>>)
    requires
        key_code_marker().is_prefix_of(code),
        key_text(code) is None,
    ensures
        resolve_label(TokenView::Text(code), tap_dance) == plain(code.skip(3)),
{
    lemma_marker_length();
}

/// The number -1 prints as nothing and is not special, whatever the tap
/// dances are.
pub proof fn lemma_minus_one_prints_nothing(tap_dance: Seq<Seq<TokenView>>)
    ensures
        resolve_label(TokenView::Integer(-1), tap_dance) == plain(Seq::empty()),
{
}

/// The canonical reference to tap dance `index` is a tap-dance reference,
/// and the index read back from it is `index`.
pub proof fn lemma_tap_dance_token_reads_back(index: nat)
    ensures
        !key_code_marker().is_prefix_of(tap_dance_token(index)),
        tap_dance_marker().is_prefix_of(tap_dance_token(index)),
        parse_index(tap_dance_digits(tap_dance_token(index))) == Some(index),
{
    reveal_strlit("KC_");
    reveal_strlit("TD(");
    reveal_strlit(")");
    let digits = decimal_digits(index);
    let token = tap_dance_token(index);
    let rest = digits + ")"@;
    lemma_decimal_digits_value(index);
    assert(is_digit(digits[0]));
    assert(is_digit(digits.last()));
    assert(token[0] == 'T');
    assert(key_code_marker().len() > 0 && key_code_marker()[0] == 'K');
    assert(tap_dance_marker() =~= token.subrange(0, 3));
    assert(token.skip(3) =~= rest);
    assert(rest[0] == digits[0]);
    assert(!tap_dance_marker().is_prefix_of(rest)) by {
        if tap_dance_marker().is_prefix_of(rest) {
            assert(rest.subrange(0, 3)[0] == 'T');
        }
    }
    assert(trim_start_matches(rest, tap_dance_marker()) == rest);
    assert(trim_start_matches(token, tap_dance_marker()) == rest);
    assert(rest.last() == ')');
    assert(rest.drop_last() =~= digits);
    assert(trim_end_matches(digits, ')') == digits);
    assert(trim_end_matches(rest, ')') == digits);
}

/// A reference to a tap dance that the list does not reach prints as the
/// reference itself, and is special.
pub proof fn lemma_tap_dance_out_of_range(index: nat, tap_dance: Seq<Seq<TokenView>>)
    requires
        tap_dance.len() <= index,
    ensures
        resolve_label(TokenView::Text(tap_dance_token(index)), tap_dance) == special(
            tap_dance_token(index),
        ),
{
    lemma_tap_dance_token_reads_back(index);
}

/// A reference to a tap dance with fewer than two tokens prints as the
/// reference itself, and is special.
pub proof fn lemma_tap_dance_too_short(index: nat, tap_dance: Seq<Seq<TokenView>>)
    requires
        index < tap_dance.len(),
        tap_dance[index as int].len() < 2,
    ensures
        resolve_label(TokenView::Text(tap_dance_token(index)), tap_dance) == special(
            tap_dance_token(index),
        ),
{
    lemma_tap_dance_token_reads_back(index);
}

/// A reference to a tap dance whose tap and hold tokens both print as
/// something shows the tap text above the hold text, and is special.
pub proof fn lemma_tap_dance_pair(index: nat, tap_dance: Seq<Seq<TokenView>>)
    requires
        index < tap_dance.len(),
        tap_dance[index as int].len() >= 2,
        simple_label(token_text(tap_dance[index as int][0])).len() > 0,
        simple_label(token_text(tap_dance[index as int][1])).len() > 0,
    ensures
        resolve_label(TokenView::Text(tap_dance_token(index)), tap_dance) == stacked(
            simple_label(token_text(tap_dance[index as int][0])),
            simple_label(token_text(tap_dance[index as int][1])),
        ),
{
    lemma_tap_dance_token_reads_back(index);
}

/// Only string tokens are ever special or carry a secondary legend.
pub proof fn lemma_only_strings_are_special(token: TokenView, tap_dance: Seq<Seq<TokenView>>)
    requires
        !(token is Text),
    ensures
        !resolve_label(token, tap_dance).is_special,
        resolve_label(token, tap_dance).sub_text is None,
{
}

} // verus!
