//! Tests of the build-input parser and the file-fed table build.

use unicode_linebreak::BreakClass;
use unicode_linebreak::parse::ParsedLine;
use unicode_linebreak::parse::parse_line;
use unicode_linebreak::parse::parse_lines;
use unicode_linebreak::parse::property_table_from_lines;
use unicode_linebreak::property::Record;

fn data(start: u32, end: u32, class: BreakClass) -> ParsedLine {
    ParsedLine::Data(Record { start, end, class })
}

#[test]
fn parses_single_code_points() {
    assert_eq!(parse_line(b"000A;LF"), data(0xA, 0xA, BreakClass::LineFeed));
    assert_eq!(parse_line(b"0020;SP trailing text"), data(0x20, 0x20, BreakClass::Space));
    assert_eq!(parse_line(b"200D;ZWJ"), data(0x200D, 0x200D, BreakClass::ZeroWidthJoiner));
}

#[test]
fn parses_ranges() {
    assert_eq!(
        parse_line(b"0000..0008;CM # Cc control"),
        data(0, 8, BreakClass::CombiningMark)
    );
    assert_eq!(
        parse_line(b"0041..005A;AL"),
        data(0x41, 0x5A, BreakClass::Alphabetic)
    );
    assert_eq!(
        parse_line(b"1F1E6..1F1FF;RI"),
        data(0x1F1E6, 0x1F1FF, BreakClass::RegionalIndicator)
    );
}

#[test]
fn skips_comments_and_blank_lines() {
    assert_eq!(parse_line(b""), ParsedLine::Skip);
    assert_eq!(parse_line(b"# A comment"), ParsedLine::Skip);
    assert_eq!(parse_line(b"#0041;AL"), ParsedLine::Skip);
}

#[test]
fn leading_zeros_are_no_overflow() {
    assert_eq!(parse_line(b"00000000FF;AL"), data(0xFF, 0xFF, BreakClass::Alphabetic));
}

#[test]
fn malformed_lines() {
    // Too few hex digits.
    assert_eq!(parse_line(b"10;AL"), ParsedLine::Malformed);
    // A short second range falls back to expecting the semicolon.
    assert_eq!(parse_line(b"0000..00;AL"), ParsedLine::Malformed);
    // Missing or misshapen separators.
    assert_eq!(parse_line(b"0000:AL"), ParsedLine::Malformed);
    assert_eq!(parse_line(b"0000.0008;CM"), ParsedLine::Malformed);
    // A class code needs two or three word characters, and must be known.
    assert_eq!(parse_line(b"0000;Q"), ParsedLine::Malformed);
    assert_eq!(parse_line(b"0000;QQQ"), ParsedLine::Malformed);
    assert_eq!(parse_line(b"0000;ALFA"), ParsedLine::Malformed);
    // A value beyond u32 is fatal.
    assert_eq!(parse_line(b"FFFFFFFFF;AL"), ParsedLine::Malformed);
}

#[test]
fn collects_records_in_order() {
    let lines: Vec<Vec<u8>> = vec![
        b"# Line_Break records".to_vec(),
        b"".to_vec(),
        b"0041..005A;AL".to_vec(),
        b"0061..007A;AL".to_vec(),
    ];
    let records = parse_lines(&lines).expect("well-formed input parses");
    assert_eq!(records.len(), 2);
    assert_eq!(records[0].start, 0x41);
    assert_eq!(records[1].end, 0x7A);
}

#[test]
fn one_malformed_line_is_fatal() {
    let lines: Vec<Vec<u8>> = vec![b"0041..005A;AL".to_vec(), b"bad line".to_vec()];
    assert!(parse_lines(&lines).is_none());
}

#[test]
fn builds_a_table_from_lines() {
    let lines: Vec<Vec<u8>> = vec![
        b"# tiny data set".to_vec(),
        b"000A;LF".to_vec(),
        b"0041..005A;AL".to_vec(),
    ];
    let table = property_table_from_lines(&lines).expect("orderly input builds");
    assert_eq!(table.class_of(0x41), BreakClass::Alphabetic);
    assert_eq!(table.class_of(0xA), BreakClass::LineFeed);
    assert_eq!(table.class_of(0x4E00), BreakClass::Ideographic);
}

#[test]
fn out_of_order_records_do_not_build() {
    let lines: Vec<Vec<u8>> = vec![b"0061..007A;AL".to_vec(), b"0041..005A;AL".to_vec()];
    assert!(property_table_from_lines(&lines).is_none());
}
