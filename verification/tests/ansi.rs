use crossterm_terminal::ansi;
use crossterm_terminal::decimal::{parse_numeral, push_decimal};
use crossterm_terminal::ClearType;

const ALL_CLEAR_TYPES: [ClearType; 5] = [
    ClearType::All,
    ClearType::FromCursorDown,
    ClearType::FromCursorUp,
    ClearType::CurrentLine,
    ClearType::UntilNewLine,
];

#[test]
fn clear_emits_the_sequence_of_each_clear_type() {
    assert_eq!(ansi::clear(ClearType::All), b"\x1b[2J".to_vec());
    assert_eq!(ansi::clear(ClearType::FromCursorDown), b"\x1b[J".to_vec());
    assert_eq!(ansi::clear(ClearType::FromCursorUp), b"\x1b[1J".to_vec());
    assert_eq!(ansi::clear(ClearType::CurrentLine), b"\x1b[2K".to_vec());
    assert_eq!(ansi::clear(ClearType::UntilNewLine), b"\x1b[K".to_vec());
}

#[test]
fn clear_sequences_are_pairwise_distinct() {
    for (i, a) in ALL_CLEAR_TYPES.iter().enumerate() {
        for (j, b) in ALL_CLEAR_TYPES.iter().enumerate() {
            if i != j {
                assert_ne!(ansi::clear(*a), ansi::clear(*b));
            }
        }
    }
}

#[test]
fn scroll_writes_the_count_and_the_direction() {
    assert_eq!(ansi::scroll_up(5), b"\x1b[5S".to_vec());
    assert_eq!(ansi::scroll_down(5), b"\x1b[5T".to_vec());
    assert_eq!(ansi::scroll_up(120), b"\x1b[120S".to_vec());
    assert_eq!(ansi::scroll_down(i16::MAX), b"\x1b[32767T".to_vec());
}

#[test]
fn scroll_by_zero_writes_nothing() {
    assert!(ansi::scroll_up(0).is_empty());
    assert!(ansi::scroll_down(0).is_empty());
}

#[test]
fn scroll_by_a_negative_count_turns_round() {
    assert_eq!(ansi::scroll_up(-3), b"\x1b[3T".to_vec());
    assert_eq!(ansi::scroll_down(-3), b"\x1b[3S".to_vec());
    assert_eq!(ansi::scroll_up(-3), ansi::scroll_down(3));
    assert_eq!(ansi::scroll_up(i16::MIN), b"\x1b[32768T".to_vec());
    assert_eq!(ansi::scroll_down(i16::MIN), b"\x1b[32768S".to_vec());
}

#[test]
fn set_size_writes_rows_before_columns() {
    assert_eq!(ansi::set_size(80, 24), b"\x1b[8;24;80t".to_vec());
    assert_eq!(ansi::set_size(10, 10), b"\x1b[8;10;10t".to_vec());
    assert_eq!(ansi::set_size(1, i16::MAX), b"\x1b[8;32767;1t".to_vec());
}

#[test]
fn set_size_writes_nothing_without_positive_dimensions() {
    assert!(ansi::set_size(0, 24).is_empty());
    assert!(ansi::set_size(80, 0).is_empty());
    assert!(ansi::set_size(-1, 24).is_empty());
    assert!(ansi::set_size(80, i16::MIN).is_empty());
}

#[test]
fn size_query_is_the_report_request() {
    assert_eq!(ansi::size_query(), b"\x1b[18t".to_vec());
}

#[test]
fn size_report_is_read_as_columns_and_rows() {
    assert_eq!(ansi::parse_size_report(b"\x1b[8;24;80t"), Some((80, 24)));
    assert_eq!(ansi::parse_size_report(b"\x1b[8;1;2t"), Some((2, 1)));
    assert_eq!(ansi::parse_size_report(b"\x1b[8;0;0t"), Some((0, 0)));
    assert_eq!(ansi::parse_size_report(b"\x1b[8;65535;65535t"), Some((65535, 65535)));
    assert_eq!(ansi::parse_size_report(b"\x1b[8;007;0120t"), Some((120, 7)));
}

#[test]
fn size_report_with_a_number_too_large_is_refused() {
    assert_eq!(ansi::parse_size_report(b"\x1b[8;65536;80t"), None);
    assert_eq!(ansi::parse_size_report(b"\x1b[8;24;65536t"), None);
    assert_eq!(ansi::parse_size_report(b"\x1b[8;24;99999999999999999999t"), None);
}

#[test]
fn malformed_size_report_is_refused() {
    assert_eq!(ansi::parse_size_report(b""), None);
    assert_eq!(ansi::parse_size_report(b"\x1b[8;"), None);
    assert_eq!(ansi::parse_size_report(b"\x1b[8;24;80"), None);
    assert_eq!(ansi::parse_size_report(b"\x1b[8;24;80T"), None);
    assert_eq!(ansi::parse_size_report(b"\x1b[8;;80t"), None);
    assert_eq!(ansi::parse_size_report(b"\x1b[8;24;t"), None);
    assert_eq!(ansi::parse_size_report(b"\x1b[8;24t"), None);
    assert_eq!(ansi::parse_size_report(b"\x1b[8;24;80;1t"), None);
    assert_eq!(ansi::parse_size_report(b"\x1b[8;2a;80t"), None);
    assert_eq!(ansi::parse_size_report(b"\x1b[8;24;-80t"), None);
    assert_eq!(ansi::parse_size_report(b"\x1b[9;24;80t"), None);
    assert_eq!(ansi::parse_size_report(b"\x1b]8;24;80t"), None);
    assert_eq!(ansi::parse_size_report(b" \x1b[8;24;80t"), None);
    assert_eq!(ansi::parse_size_report(b"\x1b[8;24;80t\n"), None);
    assert_eq!(ansi::parse_size_report(b"\x1b[8;t"), None);
    assert_eq!(ansi::parse_size_report(b"\x1b[8;;t"), None);
}

#[test]
fn terminal_size_is_zero_for_a_reply_that_is_no_report() {
    assert_eq!(ansi::terminal_size(b"no report"), (0, 0));
    assert_eq!(ansi::terminal_size(b""), (0, 0));
    assert_eq!(ansi::terminal_size(b"\x1b[8;24;80t"), (80, 24));
}

#[test]
fn resize_request_read_back_gives_the_size_asked_for() {
    for (width, height) in [(1i16, 1i16), (80, 24), (132, 43), (9, 10), (i16::MAX, i16::MAX)] {
        let request = ansi::set_size(width, height);
        assert_eq!(ansi::terminal_size(&request), (width as u16, height as u16));
    }
}

#[test]
fn push_decimal_appends_the_shortest_numeral() {
    let mut out = b"n=".to_vec();
    push_decimal(&mut out, 0);
    assert_eq!(out, b"n=0".to_vec());
    push_decimal(&mut out, 7);
    push_decimal(&mut out, 10);
    push_decimal(&mut out, 65535);
    assert_eq!(out, b"n=071065535".to_vec());
    let mut other = Vec::new();
    push_decimal(&mut other, 1000);
    assert_eq!(other, b"1000".to_vec());
}

#[test]
fn parse_numeral_reads_a_range_of_digits() {
    let text = b"ab12345;9";
    assert_eq!(parse_numeral(text, 2, 7), Some(12345));
    assert_eq!(parse_numeral(text, 2, 3), Some(1));
    assert_eq!(parse_numeral(text, 8, 9), Some(9));
    assert_eq!(parse_numeral(text, 2, 2), None);
    assert_eq!(parse_numeral(text, 1, 4), None);
    assert_eq!(parse_numeral(text, 6, 8), None);
    assert_eq!(parse_numeral(b"65535", 0, 5), Some(65535));
    assert_eq!(parse_numeral(b"65536", 0, 5), None);
    assert_eq!(parse_numeral(b"0000065535", 0, 10), Some(65535));
    assert_eq!(parse_numeral(b"4294967296", 0, 10), None);
}

#[test]
fn numeral_written_is_the_numeral_read() {
    for n in [0u16, 1, 9, 10, 99, 100, 4095, 32767, 32768, 65535] {
        let mut text = Vec::new();
        push_decimal(&mut text, n);
        assert_eq!(parse_numeral(&text, 0, text.len()), Some(n));
    }
}
