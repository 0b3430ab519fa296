use vidcapview::selection::{
    debug_output_requested, display_name, parse_selection, parse_usize, source_line, trim, using_line,
    Selection,
};
use vidcapview::text::decimal_string;

fn selected(input: &str, count: usize) -> Option<usize> {
    match parse_selection(input, count) {
        Selection::Selected(n) => Some(n),
        _ => None,
    }
}

#[test]
fn typed_index_selects() {
    assert_eq!(selected("2\r\n", 3), Some(2));
    assert_eq!(selected("  0 \n", 1), Some(0));
    assert_eq!(selected("+1\n", 2), Some(1));
}

#[test]
fn q_anywhere_quits() {
    assert!(matches!(parse_selection("q\n", 3), Selection::Quit));
    assert!(matches!(parse_selection("Quit\n", 3), Selection::Quit));
    assert!(matches!(parse_selection("1q", 3), Selection::Quit));
}

#[test]
fn invalid_answers() {
    match parse_selection(" 3 \n", 3) {
        Selection::Invalid(m) => assert_eq!(m, "Invalid input, '3'!"),
        _ => panic!("expected an invalid answer"),
    }
    match parse_selection("abc\n", 3) {
        Selection::Invalid(m) => assert_eq!(m, "Invalid input, 'abc'!"),
        _ => panic!("expected an invalid answer"),
    }
    match parse_selection("\n", 3) {
        Selection::Invalid(m) => assert_eq!(m, "Invalid input, ''!"),
        _ => panic!("expected an invalid answer"),
    }
    assert!(matches!(parse_selection("-1", 3), Selection::Invalid(_)));
}

#[test]
fn parse_matches_std() {
    for s in ["0", "42", "+7", "", "+", "-0", "1 2", "18446744073709551615", "18446744073709551616", "007", "١"] {
        assert_eq!(parse_usize(s), s.parse::<usize>().ok(), "{:?}", s);
    }
}

#[test]
fn trim_matches_std() {
    for s in ["", "  ", " a b ", "\u{3000}x\u{85}", "\t\r\nz\u{2028}", "\u{200b}y"] {
        assert_eq!(trim(s), s.trim(), "{:?}", s);
    }
}

#[test]
fn listed_index_typed_back_selects() {
    for n in [0usize, 9, 10, 123, 4567] {
        let line = format!("{}\r\n", decimal_string(n as u64));
        assert_eq!(selected(&line, n + 1), Some(n));
    }
}

#[test]
fn source_lines() {
    assert_eq!(source_line(0, "Camera"), "  0 - Camera");
    assert_eq!(source_line(42, "Unknown"), " 42 - Unknown");
    assert_eq!(source_line(1234, "X"), "1234 - X");
}

#[test]
fn display_names() {
    assert_eq!(display_name(Some("Cam".to_owned())), "Cam");
    assert_eq!(display_name(None), "Unknown");
}

#[test]
fn debug_flag() {
    assert!(debug_output_requested(&vec!["x".to_owned(), "--debug".to_owned()]));
    assert!(!debug_output_requested(&vec!["--debugx".to_owned()]));
    assert!(!debug_output_requested(&vec![]));
}

#[test]
fn decimal_strings() {
    assert_eq!(decimal_string(0), "0");
    assert_eq!(decimal_string(1080), "1080");
    assert_eq!(decimal_string(u64::MAX), u64::MAX.to_string());
}

#[test]
fn using_lines() {
    assert_eq!(using_line("Integrated Camera"), "Using Integrated Camera...");
}

#[test]
fn quit_detection_matches_lower_case() {
    for n in 0..0x11_0000u32 {
        if let Some(c) = char::from_u32(n) {
            let s = c.to_string();
            let expected = s.to_lowercase().contains("q");
            assert_eq!(matches!(parse_selection(&s, 0), Selection::Quit), expected, "{:?}", c);
        }
    }
}
