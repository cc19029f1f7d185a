//! The build input parser.
//!
//! The build input is line oriented: blank lines and `#`-comments are
//! skipped, and a data line starts with `HEX[..HEX];CLASS` — a hex code
//! point or inclusive range of at least four digits each, and a class code
//! of two or three word characters; anything after the code is ignored.
//! A line that is neither skippable nor a well-formed record, names an
//! unknown class code, or holds a value beyond `u32` is malformed, which
//! a table build treats as fatal.

use vstd::prelude::*;

use crate::classes::BreakClass;
use crate::property::Record;

verus! {

/// What one line of build input means.
#[derive(Copy, Clone, PartialEq, Eq, Debug, Structural)]
pub enum ParsedLine {
    /// A blank line or a comment: skipped.
    Skip,
    /// A data line, carrying its record.
    Data(Record),
    /// Anything else: fatal to a build.
    Malformed,
}

/// Whether the byte is a hexadecimal digit.
pub open spec fn is_hex(b: u8) -> bool {
    (0x30 <= b <= 0x39) || (0x41 <= b <= 0x46) || (0x61 <= b <= 0x66)
}

/// The value of a hexadecimal digit.
pub open spec fn hex_val(b: u8) -> int {
    if 0x30 <= b <= 0x39 {
        b - 0x30
    } else if 0x41 <= b <= 0x46 {
        b - 0x41 + 10
    } else if 0x61 <= b <= 0x66 {
        b - 0x61 + 10
    } else {
        0
    }
}

/// Whether the byte is a word character: a letter, a digit or an
/// underscore.
pub open spec fn is_word(b: u8) -> bool {
    (0x30 <= b <= 0x39) || (0x41 <= b <= 0x5A) || (0x61 <= b <= 0x7A) || b == 0x5F
}

/// The length of the maximal run of hexadecimal digits at position `i`.
pub open spec fn hex_run(s: Seq<u8>, i: int) -> int
    decreases s.len() - i,
{
    if 0 <= i < s.len() && is_hex(s[i]) {
        1 + hex_run(s, i + 1)
    } else {
        0
    }
}

/// The length of the maximal run of word characters at position `i`.
pub open spec fn word_run(s: Seq<u8>, i: int) -> int
    decreases s.len() - i,
{
    if 0 <= i < s.len() && is_word(s[i]) {
        1 + word_run(s, i + 1)
    } else {
        0
    }
}

/// The numeric value of a sequence of hexadecimal digits.
pub open spec fn hex_value(s: Seq<u8>) -> int
    decreases s.len(),
{
    if s.len() == 0 {
        0
    } else {
        hex_value(s.drop_last()) * 16 + hex_val(s.last())
    }
}

/// The class a two-letter code names.
pub open spec fn code2_class(a: u8, b: u8) -> Option<BreakClass> {
    if a == 0x42 && b == 0x4B { Some(BreakClass::Mandatory) }           // BK
    else if a == 0x43 && b == 0x52 { Some(BreakClass::CarriageReturn) } // CR
    else if a == 0x4C && b == 0x46 { Some(BreakClass::LineFeed) }       // LF
    else if a == 0x43 && b == 0x4D { Some(BreakClass::CombiningMark) }  // CM
    else if a == 0x4E && b == 0x4C { Some(BreakClass::NextLine) }       // NL
    else if a == 0x53 && b == 0x47 { Some(BreakClass::Surrogate) }      // SG
    else if a == 0x57 && b == 0x4A { Some(BreakClass::WordJoiner) }     // WJ
    else if a == 0x5A && b == 0x57 { Some(BreakClass::ZeroWidthSpace) } // ZW
    else if a == 0x47 && b == 0x4C { Some(BreakClass::NonBreakingGlue) }  // GL
    else if a == 0x53 && b == 0x50 { Some(BreakClass::Space) }          // SP
    else if a == 0x42 && b == 0x32 { Some(BreakClass::BeforeAndAfter) } // B2
    else if a == 0x42 && b == 0x41 { Some(BreakClass::After) }          // BA
    else if a == 0x42 && b == 0x42 { Some(BreakClass::Before) }         // BB
    else if a == 0x48 && b == 0x59 { Some(BreakClass::Hyphen) }         // HY
    else if a == 0x43 && b == 0x42 { Some(BreakClass::Contingent) }     // CB
    else if a == 0x43 && b == 0x4C { Some(BreakClass::ClosePunctuation) }  // CL
    else if a == 0x43 && b == 0x50 { Some(BreakClass::CloseParenthesis) }  // CP
    else if a == 0x45 && b == 0x58 { Some(BreakClass::Exclamation) }    // EX
    else if a == 0x49 && b == 0x4E { Some(BreakClass::Inseparable) }    // IN
    else if a == 0x4E && b == 0x53 { Some(BreakClass::NonStarter) }     // NS
    else if a == 0x4F && b == 0x50 { Some(BreakClass::OpenPunctuation) }  // OP
    else if a == 0x51 && b == 0x55 { Some(BreakClass::Quotation) }      // QU
    else if a == 0x49 && b == 0x53 { Some(BreakClass::InfixSeparator) } // IS
    else if a == 0x4E && b == 0x55 { Some(BreakClass::Numeric) }        // NU
    else if a == 0x50 && b == 0x4F { Some(BreakClass::Postfix) }        // PO
    else if a == 0x50 && b == 0x52 { Some(BreakClass::Prefix) }         // PR
    else if a == 0x53 && b == 0x59 { Some(BreakClass::Symbol) }         // SY
    else if a == 0x41 && b == 0x49 { Some(BreakClass::Ambiguous) }      // AI
    else if a == 0x41 && b == 0x4C { Some(BreakClass::Alphabetic) }     // AL
    else if a == 0x43 && b == 0x4A { Some(BreakClass::ConditionalJapaneseStarter) }  // CJ
    else if a == 0x45 && b == 0x42 { Some(BreakClass::EmojiBase) }      // EB
    else if a == 0x45 && b == 0x4D { Some(BreakClass::EmojiModifier) }  // EM
    else if a == 0x48 && b == 0x32 { Some(BreakClass::HangulLvSyllable) }  // H2
    else if a == 0x48 && b == 0x33 { Some(BreakClass::HangulLvtSyllable) }  // H3
    else if a == 0x48 && b == 0x4C { Some(BreakClass::HebrewLetter) }   // HL
    else if a == 0x49 && b == 0x44 { Some(BreakClass::Ideographic) }    // ID
    else if a == 0x4A && b == 0x4C { Some(BreakClass::HangulLJamo) }    // JL
    else if a == 0x4A && b == 0x56 { Some(BreakClass::HangulVJamo) }    // JV
    else if a == 0x4A && b == 0x54 { Some(BreakClass::HangulTJamo) }    // JT
    else if a == 0x52 && b == 0x49 { Some(BreakClass::RegionalIndicator) }  // RI
    else if a == 0x53 && b == 0x41 { Some(BreakClass::ComplexContext) } // SA
    else if a == 0x58 && b == 0x58 { Some(BreakClass::Unknown) }        // XX
    else { None }
}

/// The class a three-letter code names: only the zero-width joiner has
/// one.
pub open spec fn code3_class(a: u8, b: u8, c: u8) -> Option<BreakClass> {
    if a == 0x5A && b == 0x57 && c == 0x4A {
        Some(BreakClass::ZeroWidthJoiner)  // ZWJ
    } else {
        None
    }
}

/// What follows the ranges of a data line, from position `i`: a
/// semicolon, then a known class code of two or three word characters.
pub open spec fn spec_parse_tail(s: Seq<u8>, i: int, start: int, end: int) -> ParsedLine {
    if start > u32::MAX || end > u32::MAX {
        ParsedLine::Malformed
    } else if i < s.len() && s[i] == 0x3B {
        let w = word_run(s, i + 1);
        if w >= 3 {
            match code3_class(s[i + 1], s[i + 2], s[i + 3]) {
                Some(c) => ParsedLine::Data(
                    Record { start: start as u32, end: end as u32, class: c },
                ),
                None => ParsedLine::Malformed,
            }
        } else if w == 2 {
            match code2_class(s[i + 1], s[i + 2]) {
                Some(c) => ParsedLine::Data(
                    Record { start: start as u32, end: end as u32, class: c },
                ),
                None => ParsedLine::Malformed,
            }
        } else {
            ParsedLine::Malformed
        }
    } else {
        ParsedLine::Malformed
    }
}

/// What one line of build input means: see the module description.
pub open spec fn spec_parse_line(s: Seq<u8>) -> ParsedLine {
    if s.len() == 0 || s[0] == 0x23 {
        ParsedLine::Skip
    } else {
        let h1 = hex_run(s, 0);
        if h1 < 4 {
            ParsedLine::Malformed
        } else {
            let v1 = hex_value(s.subrange(0, h1));
            if h1 + 1 < s.len() && s[h1] == 0x2E && s[h1 + 1] == 0x2E && hex_run(s, h1 + 2) >= 4 {
                let h2 = hex_run(s, h1 + 2);
                let v2 = hex_value(s.subrange(h1 + 2, h1 + 2 + h2));
                spec_parse_tail(s, h1 + 2 + h2, v1, v2)
            } else {
                spec_parse_tail(s, h1, v1, v1)
            }
        }
    }
}

/// Executable twin of [`is_hex`].
fn is_hex_byte(b: u8) -> (r: bool)
    ensures
        r == is_hex(b),
{
    (0x30 <= b && b <= 0x39) || (0x41 <= b && b <= 0x46) || (0x61 <= b && b <= 0x66)
}

/// Executable twin of [`is_word`].
fn is_word_byte(b: u8) -> (r: bool)
    ensures
        r == is_word(b),
{
    (0x30 <= b && b <= 0x39) || (0x41 <= b && b <= 0x5A) || (0x61 <= b && b <= 0x7A) || b == 0x5F
}

/// A maximal run never reaches past the end of the line.
proof fn lemma_hex_run_bound(s: Seq<u8>, i: int)
    requires
        0 <= i <= s.len(),
    ensures
        0 <= hex_run(s, i) <= s.len() - i,
        forall|k: int| i <= k < i + hex_run(s, i) ==> is_hex(#[trigger] s[k]),
    decreases s.len() - i,
{
    if i < s.len() && is_hex(s[i]) {
        lemma_hex_run_bound(s, i + 1);
    }
}

/// The length of the maximal run of hexadecimal digits at `start`.
fn scan_hex(line: &[u8], start: usize) -> (r: usize)
    requires
        start <= line@.len(),
    ensures
        r == hex_run(line@, start as int),
        start + r <= line@.len(),
{
    let n = line.len();
    let mut i = start;
    while i < n && is_hex_byte(line[i])
        invariant
            start <= i <= n,
            n == line@.len(),
            hex_run(line@, start as int) == (i - start) + hex_run(line@, i as int),
        decreases n - i,
    {
        i += 1;
    }
    proof {
        lemma_hex_run_bound(line@, i as int);
    }
    i - start
}

/// The length of the maximal run of word characters at `start`.
fn scan_word(line: &[u8], start: usize) -> (r: usize)
    requires
        start <= line@.len(),
    ensures
        r == word_run(line@, start as int),
        start + r <= line@.len(),
{
    let n = line.len();
    let mut i = start;
    while i < n && is_word_byte(line[i])
        invariant
            start <= i <= n,
            n == line@.len(),
            word_run(line@, start as int) == (i - start) + word_run(line@, i as int),
        decreases n - i,
    {
        i += 1;
    }
    proof {
        lemma_word_run_bound(line@, i as int);
    }
    i - start
}

/// As [`lemma_hex_run_bound`], for word runs.
proof fn lemma_word_run_bound(s: Seq<u8>, i: int)
    requires
        0 <= i <= s.len(),
    ensures
        0 <= word_run(s, i) <= s.len() - i,
    decreases s.len() - i,
{
    if i < s.len() && is_word(s[i]) {
        lemma_word_run_bound(s, i + 1);
    }
}

/// A digit sequence's value is never negative.
proof fn lemma_hex_value_nonneg(s: Seq<u8>)
    ensures
        hex_value(s) >= 0,
    decreases s.len(),
{
    if s.len() > 0 {
        lemma_hex_value_nonneg(s.drop_last());
    }
}

/// Extending a digit sequence never shrinks its value.
proof fn lemma_hex_value_prefix_le(s: Seq<u8>, m: int)
    requires
        0 <= m <= s.len(),
    ensures
        hex_value(s.take(m)) <= hex_value(s),
    decreases s.len() - m,
{
    if m < s.len() {
        lemma_hex_value_prefix_le(s, m + 1);
        assert(s.take(m + 1).drop_last() =~= s.take(m));
        assert(s.take(m + 1).last() == s[m]);
        lemma_hex_value_nonneg(s.take(m));
    } else {
        assert(s.take(m) =~= s);
    }
}

/// The value of the digits `line[start..start + len]`, where it fits in a
/// `u32`.
fn hex_value_u32(line: &[u8], start: usize, len: usize) -> (r: Option<u32>)
    requires
        start + len <= line@.len(),
    ensures
        ({
            let v = hex_value(line@.subrange(start as int, start as int + len as int));
            &&& v <= u32::MAX ==> r == Some(v as u32)
            &&& v > u32::MAX ==> r is None
        }),
{
    let n = line.len();
    proof {
        assert(start + len <= n);
    }
    let ghost digits = line@.subrange(start as int, start as int + len as int);
    let mut acc: u64 = 0;
    let mut i: usize = 0;
    proof {
        assert(digits.take(0) =~= Seq::<u8>::empty());
    }
    while i < len
        invariant
            start + len <= line@.len(),
            line@.len() <= usize::MAX,
            digits == line@.subrange(start as int, start as int + len as int),
            i <= len,
            acc <= u32::MAX,
            acc == hex_value(digits.take(i as int)),
        decreases len - i,
    {
        let d = hex_digit_value(line[start + i]);
        proof {
            assert(digits.take(i + 1).drop_last() =~= digits.take(i as int));
            assert(digits.take(i + 1).last() == digits[i as int]);
            assert(digits[i as int] == line@[start + i]);
        }
        acc = acc * 16 + (d as u64);
        if acc > 0xFFFF_FFFF {
            proof {
                lemma_hex_value_prefix_le(digits, i + 1);
            }
            return None;
        }
        i += 1;
    }
    proof {
        assert(digits.take(len as int) =~= digits);
    }
    Some(acc as u32)
}

/// The value of one hexadecimal digit byte.
fn hex_digit_value(b: u8) -> (r: u8)
    ensures
        r == hex_val(b),
{
    if 0x30 <= b && b <= 0x39 {
        b - 0x30
    } else if 0x41 <= b && b <= 0x46 {
        b - 0x41 + 10
    } else if 0x61 <= b && b <= 0x66 {
        b - 0x61 + 10
    } else {
        0
    }
}

/// Executable twin of [`code2_class`].
fn class_of_code2(a: u8, b: u8) -> (r: Option<BreakClass>)
    ensures
        r == code2_class(a, b),
{
    if a == 0x42 && b == 0x4B { Some(BreakClass::Mandatory) }
    else if a == 0x43 && b == 0x52 { Some(BreakClass::CarriageReturn) }
    else if a == 0x4C && b == 0x46 { Some(BreakClass::LineFeed) }
    else if a == 0x43 && b == 0x4D { Some(BreakClass::CombiningMark) }
    else if a == 0x4E && b == 0x4C { Some(BreakClass::NextLine) }
    else if a == 0x53 && b == 0x47 { Some(BreakClass::Surrogate) }
    else if a == 0x57 && b == 0x4A { Some(BreakClass::WordJoiner) }
    else if a == 0x5A && b == 0x57 { Some(BreakClass::ZeroWidthSpace) }
    else if a == 0x47 && b == 0x4C { Some(BreakClass::NonBreakingGlue) }
    else if a == 0x53 && b == 0x50 { Some(BreakClass::Space) }
    else if a == 0x42 && b == 0x32 { Some(BreakClass::BeforeAndAfter) }
    else if a == 0x42 && b == 0x41 { Some(BreakClass::After) }
    else if a == 0x42 && b == 0x42 { Some(BreakClass::Before) }
    else if a == 0x48 && b == 0x59 { Some(BreakClass::Hyphen) }
    else if a == 0x43 && b == 0x42 { Some(BreakClass::Contingent) }
    else if a == 0x43 && b == 0x4C { Some(BreakClass::ClosePunctuation) }
    else if a == 0x43 && b == 0x50 { Some(BreakClass::CloseParenthesis) }
    else if a == 0x45 && b == 0x58 { Some(BreakClass::Exclamation) }
    else if a == 0x49 && b == 0x4E { Some(BreakClass::Inseparable) }
    else if a == 0x4E && b == 0x53 { Some(BreakClass::NonStarter) }
    else if a == 0x4F && b == 0x50 { Some(BreakClass::OpenPunctuation) }
    else if a == 0x51 && b == 0x55 { Some(BreakClass::Quotation) }
    else if a == 0x49 && b == 0x53 { Some(BreakClass::InfixSeparator) }
    else if a == 0x4E && b == 0x55 { Some(BreakClass::Numeric) }
    else if a == 0x50 && b == 0x4F { Some(BreakClass::Postfix) }
    else if a == 0x50 && b == 0x52 { Some(BreakClass::Prefix) }
    else if a == 0x53 && b == 0x59 { Some(BreakClass::Symbol) }
    else if a == 0x41 && b == 0x49 { Some(BreakClass::Ambiguous) }
    else if a == 0x41 && b == 0x4C { Some(BreakClass::Alphabetic) }
    else if a == 0x43 && b == 0x4A { Some(BreakClass::ConditionalJapaneseStarter) }
    else if a == 0x45 && b == 0x42 { Some(BreakClass::EmojiBase) }
    else if a == 0x45 && b == 0x4D { Some(BreakClass::EmojiModifier) }
    else if a == 0x48 && b == 0x32 { Some(BreakClass::HangulLvSyllable) }
    else if a == 0x48 && b == 0x33 { Some(BreakClass::HangulLvtSyllable) }
    else if a == 0x48 && b == 0x4C { Some(BreakClass::HebrewLetter) }
    else if a == 0x49 && b == 0x44 { Some(BreakClass::Ideographic) }
    else if a == 0x4A && b == 0x4C { Some(BreakClass::HangulLJamo) }
    else if a == 0x4A && b == 0x56 { Some(BreakClass::HangulVJamo) }
    else if a == 0x4A && b == 0x54 { Some(BreakClass::HangulTJamo) }
    else if a == 0x52 && b == 0x49 { Some(BreakClass::RegionalIndicator) }
    else if a == 0x53 && b == 0x41 { Some(BreakClass::ComplexContext) }
    else if a == 0x58 && b == 0x58 { Some(BreakClass::Unknown) }
    else { None }
}

/// Parse what follows the ranges: the semicolon and the class code.
fn parse_tail(line: &[u8], i: usize, start_value: Option<u32>, end_value: Option<u32>, ghost_start:
    Ghost<int>, ghost_end: Ghost<int>) -> (r: ParsedLine)
    requires
        i <= line@.len(),
        ghost_start@ >= 0,
        ghost_end@ >= 0,
        ghost_start@ <= u32::MAX ==> start_value == Some(ghost_start@ as u32),
        ghost_start@ > u32::MAX ==> start_value is None,
        ghost_end@ <= u32::MAX ==> end_value == Some(ghost_end@ as u32),
        ghost_end@ > u32::MAX ==> end_value is None,
    ensures
        r == spec_parse_tail(line@, i as int, ghost_start@, ghost_end@),
{
    let (sv, ev) = match (start_value, end_value) {
        (Some(s), Some(e)) => (s, e),
        _ => {
            return ParsedLine::Malformed;
        },
    };
    if i < line.len() && line[i] == 0x3B {
        let w = scan_word(line, i + 1);
        if w >= 3 {
            match class_of_code3(line[i + 1], line[i + 2], line[i + 3]) {
                Some(c) => ParsedLine::Data(Record { start: sv, end: ev, class: c }),
                None => ParsedLine::Malformed,
            }
        } else if w == 2 {
            match class_of_code2(line[i + 1], line[i + 2]) {
                Some(c) => ParsedLine::Data(Record { start: sv, end: ev, class: c }),
                None => ParsedLine::Malformed,
            }
        } else {
            ParsedLine::Malformed
        }
    } else {
        ParsedLine::Malformed
    }
}

/// Executable twin of [`code3_class`].
fn class_of_code3(a: u8, b: u8, c: u8) -> (r: Option<BreakClass>)
    ensures
        r == code3_class(a, b, c),
{
    if a == 0x5A && b == 0x57 && c == 0x4A {
        Some(BreakClass::ZeroWidthJoiner)
    } else {
        None
    }
}

/// Parse one line of build input.
pub fn parse_line(line: &[u8]) -> (r: ParsedLine)
    ensures
        r == spec_parse_line(line@),
{
    let n = line.len();
    if n == 0 {
        return ParsedLine::Skip;
    }
    if line[0] == 0x23 {
        return ParsedLine::Skip;
    }
    let h1 = scan_hex(line, 0);
    if h1 < 4 {
        return ParsedLine::Malformed;
    }
    proof {
        lemma_hex_value_nonneg(line@.subrange(0, h1 as int));
    }
    let v1 = hex_value_u32(line, 0, h1);
    if h1 < n && h1 + 1 < n && line[h1] == 0x2E && line[h1 + 1] == 0x2E && scan_hex(line, h1 + 2)
        >= 4 {
        let h2 = scan_hex(line, h1 + 2);
        proof {
            lemma_hex_value_nonneg(line@.subrange(h1 + 2, h1 + 2 + h2));
        }
        let v2 = hex_value_u32(line, h1 + 2, h2);
        parse_tail(
            line,
            h1 + 2 + h2,
            v1,
            v2,
            Ghost(hex_value(line@.subrange(0, h1 as int))),
            Ghost(hex_value(line@.subrange(h1 + 2, h1 + 2 + h2))),
        )
    } else {
        parse_tail(
            line,
            h1,
            v1,
            v1,
            Ghost(hex_value(line@.subrange(0, h1 as int))),
            Ghost(hex_value(line@.subrange(0, h1 as int))),
        )
    }
}

/// The records a whole build input yields, in order: skipped lines
/// contribute nothing, and one malformed line is fatal.
pub open spec fn spec_lines_records(lines: Seq<Seq<u8>>) -> Option<Seq<Record>>
    decreases lines.len(),
{
    if lines.len() == 0 {
        Some(Seq::empty())
    } else {
        match spec_lines_records(lines.drop_last()) {
            None => None,
            Some(rs) => match spec_parse_line(lines.last()) {
                ParsedLine::Skip => Some(rs),
                ParsedLine::Data(rec) => Some(rs.push(rec)),
                ParsedLine::Malformed => None,
            },
        }
    }
}

/// Parse a whole build input, line by line.
pub fn parse_lines(lines: &Vec<Vec<u8>>) -> (r: Option<Vec<Record>>)
    ensures
        r is Some <==> spec_lines_records(lines.deep_view()) is Some,
        r matches Some(v) ==> Some(v@) == spec_lines_records(lines.deep_view()),
{
    let ghost ls = lines.deep_view();
    let mut out: Vec<Record> = Vec::new();
    let mut i: usize = 0;
    proof {
        assert(ls.take(0) =~= Seq::<Seq<u8>>::empty());
    }
    while i < lines.len()
        invariant
            ls == lines.deep_view(),
            i <= lines@.len(),
            ls.len() == lines@.len(),
            Some(out@) == spec_lines_records(ls.take(i as int)),
        decreases lines@.len() - i,
    {
        proof {
            assert(ls.take(i + 1).drop_last() =~= ls.take(i as int));
            assert(ls.take(i + 1).last() == ls[i as int]);
            assert(ls[i as int] =~= lines@[i as int]@);
        }
        let line = &lines[i];
        match parse_line(line.as_slice()) {
            ParsedLine::Skip => {},
            ParsedLine::Data(rec) => {
                out.push(rec);
            },
            ParsedLine::Malformed => {
                proof {
                    lemma_lines_records_extend_none(ls, i as int);
                }
                return None;
            },
        }
        i += 1;
    }
    proof {
        assert(ls.take(ls.len() as int) =~= ls);
    }
    Some(out)
}

/// Once a prefix of the input is fatal, the whole input is.
proof fn lemma_lines_records_extend_none(ls: Seq<Seq<u8>>, i: int)
    requires
        0 <= i < ls.len(),
        spec_lines_records(ls.take(i + 1)) is None,
    ensures
        spec_lines_records(ls) is None,
    decreases ls.len() - i,
{
    if i + 1 < ls.len() {
        assert(ls.take(i + 2).drop_last() =~= ls.take(i + 1));
        lemma_lines_records_extend_none(ls, i + 1);
    } else {
        assert(ls.take(i + 1) =~= ls);
    }
}

/// Build a property table from a whole build input: parse every line,
/// then build the paged table.  Succeeds exactly when no line is
/// malformed and the records ascend without overlapping; the table then
/// resolves every code point as the records say.
pub fn property_table_from_lines(lines: &Vec<Vec<u8>>) -> (r: Option<
    crate::property::PropertyTable,
>)
    ensures
        r is Some <==> (match spec_lines_records(lines.deep_view()) {
            Some(rs) => crate::property::records_valid(rs),
            None => false,
        }),
        r matches Some(t) ==> (match spec_lines_records(lines.deep_view()) {
            Some(rs) => t.wf() && forall|cp: int|
                #![trigger t.lookup(cp)]
                t.lookup(cp) == crate::classes::class_index(crate::property::rec_class(rs, cp)),
            None => false,
        }),
{
    match parse_lines(lines) {
        None => None,
        Some(records) => crate::property::build_property_table(&records),
    }
}

} // verus!
