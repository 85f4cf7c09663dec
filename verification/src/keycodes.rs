//! The two tables that turn a key code into the text printed on a key.

use vstd::prelude::*;
use crate::text::{chars_of, string_of, strip_prefix, strip_prefix_of};

verus! {

/// The marker that every plain key code begins with.
pub open spec fn key_code_marker() -> Seq<char> {
    "KC_"@
}

/// The text printed for a plain key code that the full table lists: letters,
/// whitespace keys, modifiers and common punctuation. The code that stands
/// for no key prints as nothing.
pub open spec fn key_text(code: Seq<char>) -> Option<Seq<char>> {
    if code == "KC_Q"@ {
        Some("Q"@)
    } else if code == "KC_W"@ {
        Some("W"@)
    } else if code == "KC_E"@ {
        Some("E"@)
    } else if code == "KC_R"@ {
        Some("R"@)
    } else if code == "KC_T"@ {
        Some("T"@)
    } else if code == "KC_Y"@ {
        Some("Y"@)
    } else if code == "KC_U"@ {
        Some("U"@)
    } else if code == "KC_I"@ {
        Some("I"@)
    } else if code == "KC_O"@ {
        Some("O"@)
    } else if code == "KC_P"@ {
        Some("P"@)
    } else if code == "KC_A"@ {
        Some("A"@)
    } else if code == "KC_S"@ {
        Some("S"@)
    } else if code == "KC_D"@ {
        Some("D"@)
    } else if code == "KC_F"@ {
        Some("F"@)
    } else if code == "KC_G"@ {
        Some("G"@)
    } else if code == "KC_H"@ {
        Some("H"@)
    } else if code == "KC_J"@ {
        Some("J"@)
    } else if code == "KC_K"@ {
        Some("K"@)
    } else if code == "KC_L"@ {
        Some("L"@)
    } else if code == "KC_Z"@ {
        Some("Z"@)
    } else if code == "KC_X"@ {
        Some("X"@)
    } else if code == "KC_C"@ {
        Some("C"@)
    } else if code == "KC_V"@ {
        Some("V"@)
    } else if code == "KC_B"@ {
        Some("B"@)
    } else if code == "KC_N"@ {
        Some("N"@)
    } else if code == "KC_M"@ {
        Some("M"@)
    } else if code == "KC_SPACE"@ {
        Some("Space"@)
    } else if code == "KC_ENTER"@ {
        Some("Enter"@)
    } else if code == "KC_TAB"@ {
        Some("Tab"@)
    } else if code == "KC_BSPACE"@ {
        Some("Bksp"@)
    } else if code == "KC_LSHIFT"@ {
        Some("LShift"@)
    } else if code == "KC_RSHIFT"@ {
        Some("RShift"@)
    } else if code == "KC_LCTRL"@ {
        Some("LCtrl"@)
    } else if code == "KC_RCTRL"@ {
        Some("RCtrl"@)
    } else if code == "KC_LALT"@ {
        Some("LAlt"@)
    } else if code == "KC_RALT"@ {
        Some("RAlt"@)
    } else if code == "KC_LGUI"@ {
        Some("LGui"@)
    } else if code == "KC_RGUI"@ {
        Some("RGui"@)
    } else if code == "KC_CAPSLOCK"@ {
        Some("Caps"@)
    } else if code == "KC_SLASH"@ {
        Some("?/"@)
    } else if code == "KC_COMMA"@ {
        Some(","@)
    } else if code == "KC_DOT"@ {
        Some("."@)
    } else if code == "KC_MINUS"@ {
        Some("-"@)
    } else if code == "KC_PSCREEN"@ {
        Some("Print\nScreen"@)
    } else if code == "KC_MHEN"@ {
        Some("MHEN"@)
    } else if code == "KC_NO"@ {
        Some(""@)
    } else {
        None
    }
}

/// Looks a key code up in the full table.
pub fn key_text_of(code: &str) -> (text: Option<&'static str>)
    ensures
        match text {
            Some(t) => key_text(code@) == Some(t@),
            None => key_text(code@) is None,
        },
{
    if code.eq("KC_Q") {
        Some("Q")
    } else if code.eq("KC_W") {
        Some("W")
    } else if code.eq("KC_E") {
        Some("E")
    } else if code.eq("KC_R") {
        Some("R")
    } else if code.eq("KC_T") {
        Some("T")
    } else if code.eq("KC_Y") {
        Some("Y")
    } else if code.eq("KC_U") {
        Some("U")
    } else if code.eq("KC_I") {
        Some("I")
    } else if code.eq("KC_O") {
        Some("O")
    } else if code.eq("KC_P") {
        Some("P")
    } else if code.eq("KC_A") {
        Some("A")
    } else if code.eq("KC_S") {
        Some("S")
    } else if code.eq("KC_D") {
        Some("D")
    } else if code.eq("KC_F") {
        Some("F")
    } else if code.eq("KC_G") {
        Some("G")
    } else if code.eq("KC_H") {
        Some("H")
    } else if code.eq("KC_J") {
        Some("J")
    } else if code.eq("KC_K") {
        Some("K")
    } else if code.eq("KC_L") {
        Some("L")
    } else if code.eq("KC_Z") {
        Some("Z")
    } else if code.eq("KC_X") {
        Some("X")
    } else if code.eq("KC_C") {
        Some("C")
    } else if code.eq("KC_V") {
        Some("V")
    } else if code.eq("KC_B") {
        Some("B")
    } else if code.eq("KC_N") {
        Some("N")
    } else if code.eq("KC_M") {
        Some("M")
    } else if code.eq("KC_SPACE") {
        Some("Space")
    } else if code.eq("KC_ENTER") {
        Some("Enter")
    } else if code.eq("KC_TAB") {
        Some("Tab")
    } else if code.eq("KC_BSPACE") {
        Some("Bksp")
    } else if code.eq("KC_LSHIFT") {
        Some("LShift")
    } else if code.eq("KC_RSHIFT") {
        Some("RShift")
    } else if code.eq("KC_LCTRL") {
        Some("LCtrl")
    } else if code.eq("KC_RCTRL") {
        Some("RCtrl")
    } else if code.eq("KC_LALT") {
        Some("LAlt")
    } else if code.eq("KC_RALT") {
        Some("RAlt")
    } else if code.eq("KC_LGUI") {
        Some("LGui")
    } else if code.eq("KC_RGUI") {
        Some("RGui")
    } else if code.eq("KC_CAPSLOCK") {
        Some("Caps")
    } else if code.eq("KC_SLASH") {
        Some("?/")
    } else if code.eq("KC_COMMA") {
        Some(",")
    } else if code.eq("KC_DOT") {
        Some(".")
    } else if code.eq("KC_MINUS") {
        Some("-")
    } else if code.eq("KC_PSCREEN") {
        Some("Print\nScreen")
    } else if code.eq("KC_MHEN") {
        Some("MHEN")
    } else if code.eq("KC_NO") {
        Some("")
    } else {
        None
    }
}

/// The text printed for a token that the short table lists. The short
/// table serves the two halves of a tap dance.
pub open spec fn tap_dance_text(code: Seq<char>) -> Option<Seq<char>> {
    if code == "KC_MINUS"@ {
        Some("-"@)
    } else if code == "KC_RSHIFT"@ {
        Some("RShift"@)
    } else if code == "KC_TAB"@ {
        Some("Tab"@)
    } else if code == "MO(3)"@ {
        Some("MO3"@)
    } else if code == "KC_Z"@ {
        Some("Z"@)
    } else if code == "KC_LALT"@ {
        Some("LAlt"@)
    } else if code == "KC_X"@ {
        Some("X"@)
    } else if code == "KC_LGUI"@ {
        Some("LGui"@)
    } else if code == "KC_C"@ {
        Some("C"@)
    } else if code == "KC_LCTRL"@ {
        Some("LCtrl"@)
    } else if code == "KC_V"@ {
        Some("V"@)
    } else if code == "KC_LSHIFT"@ {
        Some("LShift"@)
    } else if code == "KC_M"@ {
        Some("M"@)
    } else if code == "KC_COMMA"@ {
        Some(","@)
    } else if code == "KC_RCTRL"@ {
        Some("RCtrl"@)
    } else if code == "KC_DOT"@ {
        Some("."@)
    } else if code == "KC_RGUI"@ {
        Some("RGui"@)
    } else if code == "KC_NO"@ {
        Some(""@)
    } else {
        None
    }
}

/// Looks a token up in the short table.
pub fn tap_dance_text_of(code: &str) -> (text: Option<&'static str>)
    ensures
        match text {
            Some(t) => tap_dance_text(code@) == Some(t@),
            None => tap_dance_text(code@) is None,
        },
{
    if code.eq("KC_MINUS") {
        Some("-")
    } else if code.eq("KC_RSHIFT") {
        Some("RShift")
    } else if code.eq("KC_TAB") {
        Some("Tab")
    } else if code.eq("MO(3)") {
        Some("MO3")
    } else if code.eq("KC_Z") {
        Some("Z")
    } else if code.eq("KC_LALT") {
        Some("LAlt")
    } else if code.eq("KC_X") {
        Some("X")
    } else if code.eq("KC_LGUI") {
        Some("LGui")
    } else if code.eq("KC_C") {
        Some("C")
    } else if code.eq("KC_LCTRL") {
        Some("LCtrl")
    } else if code.eq("KC_V") {
        Some("V")
    } else if code.eq("KC_LSHIFT") {
        Some("LShift")
    } else if code.eq("KC_M") {
        Some("M")
    } else if code.eq("KC_COMMA") {
        Some(",")
    } else if code.eq("KC_RCTRL") {
        Some("RCtrl")
    } else if code.eq("KC_DOT") {
        Some(".")
    } else if code.eq("KC_RGUI") {
        Some("RGui")
    } else if code.eq("KC_NO") {
        Some("")
    } else {
        None
    }
}

/// The text of a code that no table lists: the code without its marker.
pub open spec fn unlisted_text(code: Seq<char>) -> Seq<char> {
    strip_prefix(code, key_code_marker())
}

/// What a plain key code prints as: its entry in the full table, else the
/// code without its marker.
pub open spec fn plain_label(code: Seq<char>) -> Seq<char> {
    match key_text(code) {
        Some(text) => text,
        None => unlisted_text(code),
    }
}

/// What one half of a tap dance prints as: its entry in the short table,
/// else the token without the key-code marker.
pub open spec fn simple_label(code: Seq<char>) -> Seq<char> {
    match tap_dance_text(code) {
        Some(text) => text,
        None => unlisted_text(code),
    }
}

/// Removes the key-code marker from the start of `code`.
pub fn strip_marker(code: &str) -> (text: String)
    ensures
        text@ == unlisted_text(code@),
{
    let chars = chars_of(code);
    let marker = chars_of("KC_");
    let rest = strip_prefix_of(chars.as_slice(), marker.as_slice());
    string_of(rest.as_slice())
}

/// The text printed for a plain key code.
pub fn plain_keycode_to_label(keycode: &str) -> (label: String)
    ensures
        label@ == plain_label(keycode@),
{
    match key_text_of(keycode) {
        Some(text) => text.to_string(),
        None => strip_marker(keycode),
    }
}

/// The text printed for one half of a tap dance.
pub fn simple_keycode_to_label(keycode: &str) -> (label: String)
    ensures
        label@ == simple_label(keycode@),
{
    match tap_dance_text_of(keycode) {
        Some(text) => text.to_string(),
        None => strip_marker(keycode),
    }
}

/// The marker is three characters long.
pub proof fn lemma_marker_length()
    ensures
        key_code_marker().len() == 3,
{
    reveal_strlit("KC_");
}

/// Every code that the full table lists begins with the key-code marker.
pub proof fn lemma_listed_codes_carry_marker(code: Seq<char>)
    requires
        key_text(code) is Some,
    ensures
        key_code_marker().is_prefix_of(code),
{
    reveal_strlit("KC_");
    reveal_strlit("KC_Q");
    reveal_strlit("KC_W");
    reveal_strlit("KC_E");
    reveal_strlit("KC_R");
    reveal_strlit("KC_T");
    reveal_strlit("KC_Y");
    reveal_strlit("KC_U");
    reveal_strlit("KC_I");
    reveal_strlit("KC_O");
    reveal_strlit("KC_P");
    reveal_strlit("KC_A");
    reveal_strlit("KC_S");
    reveal_strlit("KC_D");
    reveal_strlit("KC_F");
    reveal_strlit("KC_G");
    reveal_strlit("KC_H");
    reveal_strlit("KC_J");
    reveal_strlit("KC_K");
    reveal_strlit("KC_L");
    reveal_strlit("KC_Z");
    reveal_strlit("KC_X");
    reveal_strlit("KC_C");
    reveal_strlit("KC_V");
    reveal_strlit("KC_B");
    reveal_strlit("KC_N");
    reveal_strlit("KC_M");
    reveal_strlit("KC_SPACE");
    reveal_strlit("KC_ENTER");
    reveal_strlit("KC_TAB");
    reveal_strlit("KC_BSPACE");
    reveal_strlit("KC_LSHIFT");
    reveal_strlit("KC_RSHIFT");
    reveal_strlit("KC_LCTRL");
    reveal_strlit("KC_RCTRL");
    reveal_strlit("KC_LALT");
    reveal_strlit("KC_RALT");
    reveal_strlit("KC_LGUI");
    reveal_strlit("KC_RGUI");
    reveal_strlit("KC_CAPSLOCK");
    reveal_strlit("KC_SLASH");
    reveal_strlit("KC_COMMA");
    reveal_strlit("KC_DOT");
    reveal_strlit("KC_MINUS");
    reveal_strlit("KC_PSCREEN");
    reveal_strlit("KC_MHEN");
    reveal_strlit("KC_NO");
    assert(key_code_marker() =~= code.subrange(0, 3));
}

} // verus!
