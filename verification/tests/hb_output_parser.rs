use deo::hb_output_parser::begins_with;
use deo::hb_output_parser::find_char_from;
use deo::hb_output_parser::number_of;
use deo::hb_output_parser::number_of_digits;
use deo::hb_output_parser::parse;
use deo::hb_output_parser::value_of;
use deo::hb_output_parser::Output;

#[test]
fn a_progress_line_gives_the_text_of_the_fraction() {
    assert_eq!(
        parse("        \"Progress\": 0.4567,"),
        Some(Output::Progress("0.4567".to_string()))
    );
    assert_eq!(parse("        \"Progress\": 1.0,"), Some(Output::Progress("1.0".to_string())));
    assert_eq!(parse("        \"Progress\":   0.5  ,"), Some(Output::Progress("0.5".to_string())));
}

#[test]
fn a_pass_line_gives_the_number_of_the_pass() {
    assert_eq!(parse("        \"Pass\": 1,"), Some(Output::Pass(1)));
    assert_eq!(parse("        \"Pass\": 4294967295,"), Some(Output::Pass(4294967295)));
    assert_eq!(parse("        \"Pass\": +2,"), Some(Output::Pass(2)));
    assert_eq!(parse("        \"Pass\": 3:rest"), None);
    assert_eq!(parse("        \"Pass\": 3,:rest"), Some(Output::Pass(3)));
}

#[test]
fn other_lines_are_ignored() {
    assert_eq!(parse(""), Some(Output::Ignore));
    assert_eq!(parse("Progress: 1.0"), Some(Output::Ignore));
    assert_eq!(parse("       \"Pass\": 1,"), Some(Output::Ignore));
    assert_eq!(parse("    \"State\": \"WORKING\","), Some(Output::Ignore));
}

#[test]
fn a_report_without_its_value_is_refused() {
    assert_eq!(parse("        \"Pass\":"), None);
    assert_eq!(parse("        \"Pass\": one,"), None);
    assert_eq!(parse("        \"Pass\": 4294967296,"), None);
    assert_eq!(parse("        \"Pass\": -1,"), None);
    assert_eq!(parse("        \"Progress\":"), None);
    assert_eq!(parse("  :      \"Error\": 0,"), None);
}

#[test]
fn the_value_is_the_second_piece_without_its_last_character() {
    assert_eq!(value_of("a: 12,"), Some("12".to_string()));
    assert_eq!(value_of("a: 12,:b"), Some("12".to_string()));
    assert_eq!(value_of("a:x"), Some("".to_string()));
    assert_eq!(value_of("a:"), None);
    assert_eq!(value_of("a::b"), None);
    assert_eq!(value_of("no colon"), None);
    assert_eq!(value_of("é: ü ,"), Some("ü".to_string()));
}

#[test]
fn numbers_are_decimal_digits_after_an_optional_plus() {
    assert_eq!(number_of("0"), Some(0));
    assert_eq!(number_of("007"), Some(7));
    assert_eq!(number_of("+15"), Some(15));
    assert_eq!(number_of("4294967295"), Some(u32::MAX));
    assert_eq!(number_of("00000000004294967295"), Some(u32::MAX));
    for text in ["", "+", "-1", "12a", "1 2", " 1", "4294967296", "99999999999999999999", "++1", "١٢"] {
        assert_eq!(number_of(text), None, "{:?}", text);
        assert_eq!(number_of(text), text.parse::<u32>().ok(), "{:?}", text);
    }
    for text in ["0", "007", "+15", "4294967295", "123456"] {
        assert_eq!(number_of(text), text.parse::<u32>().ok(), "{:?}", text);
    }
    assert_eq!(number_of_digits("+15"), None);
    assert_eq!(number_of_digits("15"), Some(15));
}

#[test]
fn prefixes_and_positions() {
    assert!(begins_with("session1", "session"));
    assert!(begins_with("session", "session"));
    assert!(begins_with("anything", ""));
    assert!(!begins_with("sess", "session"));
    assert!(!begins_with("Session1", "session"));
    assert_eq!(find_char_from("a:b:c", ':', 0), 1);
    assert_eq!(find_char_from("a:b:c", ':', 2), 3);
    assert_eq!(find_char_from("a:b:c", ':', 4), 5);
    assert_eq!(find_char_from("a:b:c", ':', 9), 5);
    assert_eq!(find_char_from("é:b", ':', 0), 1);
}
