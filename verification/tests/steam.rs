use fos_client::steam::{resolve_app_id, AppIdSource};
use fos_client::text::{first_line_of, trim};

fn expected_from_file(text: &str) -> String {
    text.lines().next().unwrap_or("").trim().to_string()
}

#[test]
fn environment_goes_first() {
    let app_id = resolve_app_id(Some("12345"), Some("67890\n"));
    assert_eq!(app_id.id, "12345");
    assert_eq!(app_id.source, AppIdSource::Environment);
}

#[test]
fn environment_value_is_taken_as_it_stands() {
    let app_id = resolve_app_id(Some(" 12345\n"), None);
    assert_eq!(app_id.id, " 12345\n");
    assert_eq!(app_id.source, AppIdSource::Environment);
}

#[test]
fn blank_environment_value_counts_as_none() {
    let app_id = resolve_app_id(Some("  \t"), Some("67890\n"));
    assert_eq!(app_id.id, "67890");
    assert_eq!(app_id.source, AppIdSource::File);

    let app_id = resolve_app_id(Some(""), None);
    assert_eq!(app_id.id, "480");
    assert_eq!(app_id.source, AppIdSource::NoFile);
}

#[test]
fn file_names_the_id_on_its_first_line() {
    let app_id = resolve_app_id(None, Some("  2468  \r\nsecond line\n"));
    assert_eq!(app_id.id, "2468");
    assert_eq!(app_id.source, AppIdSource::File);

    let app_id = resolve_app_id(None, Some("1357"));
    assert_eq!(app_id.id, "1357");
    assert_eq!(app_id.source, AppIdSource::File);
}

#[test]
fn file_with_a_blank_first_line_gives_the_default() {
    for text in ["", "\n", "   \n999\n", "\r\n999", "\t"] {
        let app_id = resolve_app_id(None, Some(text));
        assert_eq!(app_id.id, "480", "{:?}", text);
        assert_eq!(app_id.source, AppIdSource::EmptyFile, "{:?}", text);
    }
}

#[test]
fn nothing_given_gives_the_default() {
    let app_id = resolve_app_id(None, None);
    assert_eq!(app_id.id, "480");
    assert_eq!(app_id.source, AppIdSource::NoFile);
}

#[test]
fn id_from_the_file_is_the_trimmed_first_line() {
    for text in ["480", " 1 2 \n", "a\rb\n", "x\r\ny", "\u{a0}77\u{3000}\n\n", "line\n"] {
        let app_id = resolve_app_id(None, Some(text));
        assert_eq!(app_id.id, expected_from_file(text), "{:?}", text);
        assert_eq!(app_id.source, AppIdSource::File, "{:?}", text);
    }
}

#[test]
fn trim_removes_whitespace_at_both_ends_only() {
    assert_eq!(trim(""), "");
    assert_eq!(trim("   "), "");
    assert_eq!(trim("a"), "a");
    assert_eq!(trim("  a"), "a");
    assert_eq!(trim("a  "), "a");
    assert_eq!(trim(" \t a b \n c \r\n"), "a b \n c");
    assert_eq!(trim("\u{a0}héllo wörld\u{2003}"), "héllo wörld");
    assert_eq!(trim("\u{200b} x"), "\u{200b} x");
}

#[test]
fn trim_agrees_with_the_standard_trim() {
    for text in ["", " ", "x", " x", "x ", " x y ", "\n\n", "\u{feff} a", "越 \u{3000}", "\r"] {
        assert_eq!(trim(text), text.trim(), "{:?}", text);
    }
}

#[test]
fn first_line_stops_at_the_first_line_feed() {
    assert_eq!(first_line_of(""), "");
    assert_eq!(first_line_of("one"), "one");
    assert_eq!(first_line_of("one\ntwo\nthree"), "one");
    assert_eq!(first_line_of("\ntwo"), "");
    assert_eq!(first_line_of("one\r\ntwo"), "one\r");
    assert_eq!(first_line_of("é越\nx"), "é越");
}
