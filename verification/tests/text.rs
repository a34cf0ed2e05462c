use json_union_to_text::decimal::push_decimal;
use json_union_to_text::push_json_string;

fn literal(s: &str) -> String {
    let mut out = String::new();
    push_json_string(&mut out, s);
    out
}

fn decimal(i: i64) -> String {
    let mut out = String::new();
    push_decimal(&mut out, i);
    out
}

#[test]
fn quotes_and_backslashes_are_escaped() {
    assert_eq!(literal("foo\"bar\n"), "\"foo\\\"bar\\n\"");
    assert_eq!(literal("a\\b"), "\"a\\\\b\"");
    assert_eq!(literal(""), "\"\"");
}

#[test]
fn control_characters_have_their_escapes() {
    assert_eq!(literal("\n\r\t\u{08}\u{0c}"), "\"\\n\\r\\t\\b\\f\"");
    assert_eq!(literal("\u{00}\u{01}\u{0b}\u{0e}\u{10}\u{1a}\u{1f}"),
        "\"\\u0000\\u0001\\u000b\\u000e\\u0010\\u001a\\u001f\"");
}

#[test]
fn other_characters_are_verbatim() {
    assert_eq!(literal(" /'\u{7f}\u{80}\u{e9}\u{2028}\u{1f600}"),
        "\" /'\u{7f}\u{80}\u{e9}\u{2028}\u{1f600}\"");
}

#[test]
fn no_literal_holds_a_control_character() {
    let all: String = (0u8..0x20).map(char::from).collect();
    assert!(literal(&all).chars().all(|c| c >= ' '));
}

#[test]
fn a_literal_is_appended() {
    let mut out = String::from("x");
    push_json_string(&mut out, "y");
    push_json_string(&mut out, "\"");
    assert_eq!(out, "x\"y\"\"\\\"\"");
}

#[test]
fn literals_of_different_strings_differ() {
    assert_ne!(literal("\n"), literal("\\n"));
    assert_ne!(literal("\u{01}"), literal("\\u0001"));
}

#[test]
fn escaping_works_piece_by_piece() {
    let inside = |s: &str| {
        let t = literal(s);
        t[1..t.len() - 1].to_string()
    };
    assert_eq!(inside("a\"\tb"), inside("a\"") + &inside("\tb"));
}

#[test]
fn integers_have_their_decimal_text() {
    for i in [0, 1, -1, 9, 10, -10, 99, 100, 12345, i64::MAX, i64::MIN, i64::MIN + 1] {
        assert_eq!(decimal(i), i.to_string());
        assert_eq!(decimal(i).parse::<i64>().unwrap(), i);
    }
}

#[test]
fn a_decimal_is_appended() {
    let mut out = String::from("n=");
    push_decimal(&mut out, -205);
    assert_eq!(out, "n=-205");
}
