use grep::regex::RegexMatcher;
use igrep::{MatchesSink, SinkError};

fn sink_for(pattern: &str) -> MatchesSink {
    MatchesSink::new(RegexMatcher::new(pattern).unwrap())
}

#[test]
fn literal_matches_give_all_spans_of_the_line() {
    let line = b"foo bar foo";
    let mut sink = sink_for("foo");
    let r = sink.matched(Some(4), line);
    assert_eq!(r, Ok(true));
    let matches = sink.into_matches();
    assert_eq!(matches.len(), 1);
    assert_eq!(matches[0].line_number, 4);
    assert_eq!(matches[0].text, "foo bar foo");
    assert_eq!(matches[0].offsets, vec![(0, 3), (8, 11)]);
}

#[test]
fn invalid_utf8_line_is_dropped_and_scan_goes_on() {
    let line: &[u8] = &[b'f', b'o', b'o', 0xff, 0xfe];
    let mut sink = sink_for("foo");
    let r = sink.matched(Some(1), line);
    assert_eq!(r, Ok(true));
    assert!(sink.into_matches().is_empty());
}

#[test]
fn missing_line_number_is_an_error() {
    let mut sink = sink_for("foo");
    let r = sink.matched(None, b"foo");
    assert_eq!(r, Err(SinkError::MissingLineNumber));
    assert!(sink.into_matches().is_empty());
}

#[test]
fn lines_are_kept_in_order() {
    let mut sink = sink_for("x");
    assert_eq!(sink.add_line(Some(2), b"b", vec![]), Ok(true));
    assert_eq!(sink.add_line(Some(9), "\u{e9}t\u{e9}".as_bytes(), vec![(0, 2)]), Ok(true));
    let matches = sink.into_matches();
    assert_eq!(matches.len(), 2);
    assert_eq!(matches[0].line_number, 2);
    assert_eq!(matches[0].offsets, vec![]);
    assert_eq!(matches[1].line_number, 9);
    assert_eq!(matches[1].text, "\u{e9}t\u{e9}");
}

#[test]
fn add_line_without_line_number_is_an_error() {
    let mut sink = sink_for("x");
    assert_eq!(sink.add_line(None, b"x", vec![(0, 1)]), Err(SinkError::MissingLineNumber));
    assert!(sink.into_matches().is_empty());
}

#[test]
fn line_without_match_of_the_pattern_gets_no_spans() {
    let mut sink = sink_for("zzz");
    assert_eq!(sink.matched(Some(3), b"foo bar"), Ok(true));
    let matches = sink.into_matches();
    assert_eq!(matches.len(), 1);
    assert_eq!(matches[0].offsets, vec![]);
}

#[test]
fn multibyte_line_spans_are_byte_offsets() {
    let mut sink = sink_for("t");
    assert_eq!(sink.matched(Some(1), "\u{e9}t\u{e9}t".as_bytes()), Ok(true));
    let matches = sink.into_matches();
    assert_eq!(matches[0].offsets, vec![(2, 3), (5, 6)]);
}

#[test]
fn ascii_line_text_is_kept_verbatim() {
    let mut sink = sink_for("b");
    assert_eq!(sink.matched(Some(10), b"a b c"), Ok(true));
    let matches = sink.into_matches();
    assert_eq!(matches[0].text, "a b c");
    assert_eq!(matches[0].offsets, vec![(2, 3)]);
}
