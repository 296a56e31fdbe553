use identlex::common::Visibility;
use identlex::parsing::{ident_ch, visibility, word};

#[test]
fn word_plain_identifier() {
    let (rest, id) = word("foo").unwrap();
    assert_eq!(rest, "");
    assert_eq!(id.as_ref(), "foo");
}

#[test]
fn word_skips_leading_whitespace() {
    let (rest, id) = word("  _bar123").unwrap();
    assert_eq!(rest, "");
    assert_eq!(id.as_ref(), "_bar123");
}

#[test]
fn word_accepts_leading_digits() {
    let (rest, id) = word("123abc").unwrap();
    assert_eq!(rest, "");
    assert_eq!(id.as_ref(), "123abc");
}

#[test]
fn word_stops_at_non_ident_char() {
    let (rest, id) = word("foo bar").unwrap();
    assert_eq!(id.as_ref(), "foo");
    assert_eq!(rest, " bar");
}

#[test]
fn word_accepts_unicode_letters() {
    let input: String = vec!['h', '\u{e9}', 'x', ' ', 'y'].into_iter().collect();
    let (rest, id) = word(&input).unwrap();
    assert_eq!(id.as_ref(), "h\u{e9}x");
    assert_eq!(rest, " y");
}

#[test]
fn word_fails_on_empty() {
    let e = word("").unwrap_err();
    assert_eq!(e.pos, 0);
}

#[test]
fn word_fails_on_whitespace_only() {
    let e = word(" \t\r\n").unwrap_err();
    assert_eq!(e.pos, 4);
}

#[test]
fn word_fails_on_punctuation() {
    let e = word("  !x").unwrap_err();
    assert_eq!(e.pos, 2);
}

#[test]
fn visibility_pub_keyword() {
    let (rest, vis) = visibility("pub x");
    assert_eq!(vis, Visibility::Public);
    assert_eq!(rest, "x");
}

#[test]
fn visibility_consumes_whole_separator_run() {
    let (rest, vis) = visibility("pub \t x");
    assert_eq!(vis, Visibility::Public);
    assert_eq!(rest, "x");
}

#[test]
fn visibility_bare_pub_not_consumed() {
    let (rest, vis) = visibility("pub");
    assert_eq!(vis, Visibility::Inherited);
    assert_eq!(rest, "pub");
}

#[test]
fn visibility_pub_prefix_of_longer_word() {
    let (rest, vis) = visibility("pubx y");
    assert_eq!(vis, Visibility::Inherited);
    assert_eq!(rest, "pubx y");
}

#[test]
fn visibility_absent() {
    let (rest, vis) = visibility("x y");
    assert_eq!(vis, Visibility::Inherited);
    assert_eq!(rest, "x y");
}

#[test]
fn ident_ch_classification() {
    assert!(ident_ch('a'));
    assert!(ident_ch('Z'));
    assert!(ident_ch('0'));
    assert!(ident_ch('_'));
    assert!(ident_ch('\u{e9}'));
    assert!(!ident_ch(' '));
    assert!(!ident_ch('\t'));
    assert!(!ident_ch('-'));
    assert!(!ident_ch('!'));
}
