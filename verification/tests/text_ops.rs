use vial_legend::decimal::{decimal_of, parse_index_of};
use vial_legend::text::{
    chars_of, head_upto, matches_at, replace_all_of, split_of, starts_with, string_of,
    strip_prefix_of, tail_from, trim_end_matches_of, trim_start_matches_of, without_of,
};

fn cs(s: &str) -> Vec<char> {
    s.chars().collect()
}

fn st(v: Vec<char>) -> String {
    v.into_iter().collect()
}

#[test]
fn characters_and_strings_convert_both_ways() {
    assert_eq!(chars_of("a\u{e9}\u{3042}"), vec!['a', '\u{e9}', '\u{3042}']);
    assert_eq!(chars_of(""), Vec::<char>::new());
    assert_eq!(string_of(&['T', 'D', '(']), "TD(");
    assert_eq!(string_of(&[]), "");
}

#[test]
fn pattern_is_found_only_where_it_stands() {
    let s = cs("abcabc");
    assert!(matches_at(&s, 0, &cs("abc")));
    assert!(matches_at(&s, 3, &cs("abc")));
    assert!(!matches_at(&s, 1, &cs("abc")));
    assert!(!matches_at(&s, 4, &cs("abc")));
    assert!(matches_at(&s, 6, &cs("")));
    assert!(!matches_at(&s, 7, &cs("")));
    assert!(!matches_at(&s, usize::MAX, &cs("a")));
    assert!(starts_with(&s, &cs("ab")));
    assert!(starts_with(&s, &cs("")));
    assert!(!starts_with(&s, &cs("b")));
    assert!(!starts_with(&cs("a"), &cs("ab")));
}

#[test]
fn head_and_tail_cut_at_an_index() {
    let s = cs("hello");
    assert_eq!(st(tail_from(&s, 0)), "hello");
    assert_eq!(st(tail_from(&s, 2)), "llo");
    assert_eq!(st(tail_from(&s, 5)), "");
    assert_eq!(st(head_upto(&s, 0)), "");
    assert_eq!(st(head_upto(&s, 2)), "he");
    assert_eq!(st(head_upto(&s, 5)), "hello");
}

#[test]
fn prefix_is_stripped_once() {
    assert_eq!(st(strip_prefix_of(&cs("KC_KC_A"), &cs("KC_"))), "KC_A");
    assert_eq!(st(strip_prefix_of(&cs("MO(3)"), &cs("KC_"))), "MO(3)");
    assert_eq!(st(strip_prefix_of(&cs("KC_"), &cs("KC_"))), "");
    assert_eq!(st(strip_prefix_of(&cs("abc"), &cs(""))), "abc");
}

#[test]
fn leading_pattern_is_trimmed_as_often_as_it_stands() {
    assert_eq!(st(trim_start_matches_of(&cs("TD(TD(3)"), &cs("TD("))), "3)");
    assert_eq!(st(trim_start_matches_of(&cs("TD(T"), &cs("TD("))), "T");
    assert_eq!(st(trim_start_matches_of(&cs("xTD("), &cs("TD("))), "xTD(");
    assert_eq!(st(trim_start_matches_of(&cs("aaa"), &cs("a"))), "");
    assert_eq!(st(trim_start_matches_of(&cs("aaa"), &cs(""))), "aaa");
}

#[test]
fn trailing_character_is_trimmed_as_often_as_it_stands() {
    assert_eq!(st(trim_end_matches_of(&cs("3)))"), ')')), "3");
    assert_eq!(st(trim_end_matches_of(&cs("3)x"), ')')), "3)x");
    assert_eq!(st(trim_end_matches_of(&cs(")))"), ')')), "");
    assert_eq!(st(trim_end_matches_of(&cs(""), ')')), "");
}

#[test]
fn every_occurrence_is_replaced() {
    assert_eq!(st(replace_all_of(&cs("LT1(KC_SPACE)"), &cs("(KC_"), &cs("|"))), "LT1|SPACE)");
    assert_eq!(st(replace_all_of(&cs("(KC_(KC_"), &cs("(KC_"), &cs("|"))), "||");
    assert_eq!(st(replace_all_of(&cs("aaa"), &cs("aa"), &cs("b"))), "ba");
    assert_eq!(st(replace_all_of(&cs("abc"), &cs("x"), &cs("yy"))), "abc");
    assert_eq!(st(replace_all_of(&cs("abc"), &cs("b"), &cs(""))), "ac");
    assert_eq!(st(replace_all_of(&cs("abc"), &cs(""), &cs("x"))), "abc");
    assert_eq!(st(replace_all_of(&cs(""), &cs("a"), &cs("x"))), "");
}

#[test]
fn character_is_removed_everywhere() {
    assert_eq!(st(without_of(&cs("LT1|SPACE)"), ')')), "LT1|SPACE");
    assert_eq!(st(without_of(&cs(")a)b)"), ')')), "ab");
    assert_eq!(st(without_of(&cs("ab"), ')')), "ab");
    assert_eq!(st(without_of(&cs(""), ')')), "");
}

#[test]
fn split_gives_one_more_piece_than_separators() {
    let pieces = |s: &str| -> Vec<String> { split_of(&cs(s), '|').into_iter().map(st).collect() };
    assert_eq!(pieces("LT1|SPACE"), vec!["LT1", "SPACE"]);
    assert_eq!(pieces("abc"), vec!["abc"]);
    assert_eq!(pieces(""), vec![""]);
    assert_eq!(pieces("|"), vec!["", ""]);
    assert_eq!(pieces("a|"), vec!["a", ""]);
    assert_eq!(pieces("|a"), vec!["", "a"]);
    assert_eq!(pieces("a||b"), vec!["a", "", "b"]);
}

#[test]
fn numbers_are_written_in_decimal() {
    assert_eq!(st(decimal_of(0)), "0");
    assert_eq!(st(decimal_of(9)), "9");
    assert_eq!(st(decimal_of(10)), "10");
    assert_eq!(st(decimal_of(12345)), "12345");
    assert_eq!(st(decimal_of(-1)), "-1");
    assert_eq!(st(decimal_of(-120)), "-120");
    assert_eq!(st(decimal_of(i64::MAX)), "9223372036854775807");
    assert_eq!(st(decimal_of(i64::MIN)), "-9223372036854775808");
}

#[test]
fn index_is_an_optional_plus_and_digits() {
    assert_eq!(parse_index_of(&cs("0")), Some(0));
    assert_eq!(parse_index_of(&cs("7")), Some(7));
    assert_eq!(parse_index_of(&cs("007")), Some(7));
    assert_eq!(parse_index_of(&cs("+12")), Some(12));
    assert_eq!(parse_index_of(&cs("1234567890")), Some(1234567890));
    assert_eq!(parse_index_of(&cs("")), None);
    assert_eq!(parse_index_of(&cs("+")), None);
    assert_eq!(parse_index_of(&cs("-1")), None);
    assert_eq!(parse_index_of(&cs("++1")), None);
    assert_eq!(parse_index_of(&cs("1+")), None);
    assert_eq!(parse_index_of(&cs(" 1")), None);
    assert_eq!(parse_index_of(&cs("1a")), None);
    assert_eq!(parse_index_of(&cs("\u{661}")), None);
}

#[test]
fn index_beyond_usize_is_none() {
    let max = usize::MAX.to_string();
    assert_eq!(parse_index_of(&cs(&max)), Some(usize::MAX));
    let mut beyond = max.clone();
    beyond.push('0');
    assert_eq!(parse_index_of(&cs(&beyond)), None);
    assert_eq!(parse_index_of(&cs("99999999999999999999999999999999")), None);
    assert_eq!(parse_index_of(&cs("18446744073709551616")), if usize::MAX as u128 >= 18446744073709551616u128 { Some(0) } else { None });
}

#[test]
fn index_agrees_with_the_standard_parser() {
    for s in ["0", "5", "+5", "05", "", "+", "-", "-5", "5x", "x5", "4294967296", "00000000000000000000001"] {
        assert_eq!(parse_index_of(&cs(s)), s.parse::<usize>().ok(), "{}", s);
    }
}
