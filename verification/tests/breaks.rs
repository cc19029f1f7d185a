//! Behavioural tests of the classifier, the rule compiler and the scanner.

use unicode_linebreak::BreakClass;
use unicode_linebreak::BreakOpportunity::Allowed;
use unicode_linebreak::BreakOpportunity::Mandatory;
use unicode_linebreak::LineBreaker;
use unicode_linebreak::break_property;
use unicode_linebreak::linebreaks;

#[test]
fn it_works() {
    assert_eq!(break_property(0xA), BreakClass::LineFeed);
    assert_eq!(break_property(0xDB80), BreakClass::Surrogate);
}

#[test]
fn ascii_classes() {
    assert_eq!(break_property(0x20), BreakClass::Space);
    assert_eq!(break_property(0x2D), BreakClass::Hyphen);
    assert_eq!(break_property(0x30), BreakClass::Numeric);
    assert_eq!(break_property(0x41), BreakClass::Alphabetic);
    assert_eq!(break_property(0x28), BreakClass::OpenPunctuation);
    assert_eq!(break_property(0x29), BreakClass::CloseParenthesis);
    assert_eq!(break_property(0x21), BreakClass::Exclamation);
    assert_eq!(break_property(0xD), BreakClass::CarriageReturn);
    assert_eq!(break_property(0x85), BreakClass::NextLine);
}

#[test]
fn unassigned_code_points() {
    // Unassigned code points of the supplementary ideographic planes and
    // of the ideograph-defaulting Plane-1 range resolve to Ideographic,
    // unassigned currency slots to Prefix.
    assert_eq!(break_property(0x2A6E0), BreakClass::Ideographic);
    assert_eq!(break_property(0x3FFFD), BreakClass::Ideographic);
    assert_eq!(break_property(0x1FBCB), BreakClass::Ideographic);
    assert_eq!(break_property(0x20C5), BreakClass::Prefix);
    // Other unassigned code points resolve to Unknown.
    assert_eq!(break_property(0x0378), BreakClass::Unknown);
    assert_eq!(break_property(0x2FE0), BreakClass::Unknown);
}

#[test]
fn assigned_classes_across_the_planes() {
    assert_eq!(break_property(0x2CF3), BreakClass::Alphabetic);
    assert_eq!(break_property(0x4E00), BreakClass::Ideographic);
    assert_eq!(break_property(0x2E80), BreakClass::Ideographic);
    assert_eq!(break_property(0xFFFC), BreakClass::Contingent);
    assert_eq!(break_property(0x0589), BreakClass::InfixSeparator);
    assert_eq!(break_property(0x02C8), BreakClass::Before);
    assert_eq!(break_property(0x20000), BreakClass::Ideographic);
    assert_eq!(break_property(0x1F300), BreakClass::Ideographic);
    // Private use is assigned but of unknown behaviour.
    assert_eq!(break_property(0xE000), BreakClass::Unknown);
}

#[test]
fn hangul_syllables_alternate() {
    // A full syllable block starts every 28 code points; the rest carry
    // a trailing consonant.
    assert_eq!(break_property(0xAC00), BreakClass::HangulLvSyllable);
    assert_eq!(break_property(0xAC01), BreakClass::HangulLvtSyllable);
    assert_eq!(break_property(0xAC1C), BreakClass::HangulLvSyllable);
    assert_eq!(break_property(0xD7A3), BreakClass::HangulLvtSyllable);
}

#[test]
fn total_over_u32() {
    // Total over every u32: beyond the code space everything is Unknown.
    assert_eq!(break_property(0x10FFFF), BreakClass::Unknown);
    assert_eq!(break_property(0x110000), BreakClass::Unknown);
    assert_eq!(break_property(u32::MAX), BreakClass::Unknown);
}

#[test]
fn zero_width_classes() {
    assert_eq!(break_property(0x200B), BreakClass::ZeroWidthSpace);
    assert_eq!(break_property(0x200D), BreakClass::ZeroWidthJoiner);
    assert_eq!(break_property(0xFEFF), BreakClass::WordJoiner);
    assert_eq!(break_property(0xA0), BreakClass::NonBreakingGlue);
}

#[test]
fn space_and_newline() {
    assert_eq!(
        linebreaks("a b \nc"),
        vec![
            (2, Allowed),   // May break after first space
            (5, Mandatory), // Must break after line feed
            (6, Mandatory)  // Must break at end of text
        ]
    );
}

#[test]
fn hello_world() {
    assert_eq!(linebreaks("Hello world!"), vec![(6, Allowed), (12, Mandatory)]);
}

#[test]
fn empty_input() {
    assert_eq!(linebreaks(""), vec![]);
}

#[test]
fn trailing_mandatory() {
    assert_eq!(linebreaks("xyz"), vec![(3, Mandatory)]);
    assert_eq!(linebreaks("a b"), vec![(2, Allowed), (3, Mandatory)]);
}

#[test]
fn newline_runs() {
    assert_eq!(
        linebreaks("\n\n\n"),
        vec![(1, Mandatory), (2, Mandatory), (3, Mandatory)]
    );
    assert_eq!(linebreaks("\n"), vec![(1, Mandatory)]);
}

#[test]
fn carriage_return_line_feed() {
    // CR+LF is one hard break, at the offset after the LF.
    assert_eq!(linebreaks("a\r\nb"), vec![(3, Mandatory), (4, Mandatory)]);
    assert_eq!(linebreaks("a\rb"), vec![(2, Mandatory), (3, Mandatory)]);
}

#[test]
fn joiner_suppresses_allowed_break() {
    // Between a letter and an ideograph a break is allowed ...
    assert_eq!(linebreaks("a\u{4E00}"), vec![(1, Allowed), (4, Mandatory)]);
    // ... but not right after a zero-width joiner.
    assert_eq!(linebreaks("a\u{200D}\u{4E00}"), vec![(7, Mandatory)]);
}

#[test]
fn joiner_keeps_mandatory_break() {
    // The mandatory end-of-text break survives a trailing joiner.
    assert_eq!(linebreaks("a\u{200D}"), vec![(4, Mandatory)]);
}

#[test]
fn glue_forbids_breaks() {
    // No break on either side of a no-break space.
    assert_eq!(linebreaks("a\u{A0}b"), vec![(4, Mandatory)]);
}

#[test]
fn space_run_after_opening_punctuation() {
    // LB14: no break after an opening bracket, even after spaces.
    assert_eq!(linebreaks("[ a"), vec![(3, Mandatory)]);
    // A plain space before a letter does allow a break.
    assert_eq!(linebreaks(". a"), vec![(2, Allowed), (3, Mandatory)]);
}

#[test]
fn space_run_between_dashes() {
    // LB17: no break inside an em-dash pair, even with a space between.
    assert_eq!(linebreaks("\u{2014} \u{2014}"), vec![(7, Mandatory)]);
    // After the dash-space run, an ordinary letter still gets its break.
    assert_eq!(linebreaks("\u{2014} a"), vec![(4, Allowed), (5, Mandatory)]);
}

#[test]
fn regional_indicator_pairs() {
    // LB30a: break between two flags, not inside one.
    assert_eq!(
        linebreaks("\u{1F1E6}\u{1F1E7}\u{1F1E6}\u{1F1E7}"),
        vec![(8, Allowed), (16, Mandatory)]
    );
}

#[test]
fn numbers_hold_together() {
    assert_eq!(linebreaks("3.14"), vec![(4, Mandatory)]);
    assert_eq!(linebreaks("100 200"), vec![(4, Allowed), (7, Mandatory)]);
    assert_eq!(linebreaks("$12"), vec![(3, Mandatory)]);
}

#[test]
fn offsets_ascend_and_none_at_zero() {
    let texts = ["a b \nc", "Hello world!", " lead", "tail ", "\n\n", "a\u{200D}\u{4E00}b c"];
    for text in texts {
        let breaks = linebreaks(text);
        let mut last = 0usize;
        for (off, _) in breaks {
            assert!(off > last, "offset {} after {}", off, last);
            last = off;
        }
    }
}

#[test]
fn reusable_line_breaker() {
    let lb = LineBreaker::new();
    assert_eq!(lb.break_property(0xA), BreakClass::LineFeed);
    assert_eq!(lb.linebreaks("a b"), linebreaks("a b"));
    assert_eq!(lb.linebreaks("x"), vec![(1, Mandatory)]);
}

#[test]
fn space_run_after_quotation() {
    // LB15: no break within a quotation mark followed by opening
    // punctuation, even with a space between.
    assert_eq!(linebreaks("\" [x"), vec![(4, Mandatory)]);
    // An ordinary letter before a space-bracket pair does break.
    assert_eq!(linebreaks("a [x"), vec![(2, Allowed), (4, Mandatory)]);
}

#[test]
fn space_run_after_closing_punctuation() {
    // LB16: no break between closing punctuation and a non-starter,
    // even with a space between.
    assert_eq!(linebreaks(") \u{203C}"), vec![(5, Mandatory)]);
    // After a plain word the space still allows the break.
    assert_eq!(linebreaks("a \u{203C}"), vec![(2, Allowed), (5, Mandatory)]);
}

#[test]
fn small_kana_is_a_non_starter() {
    // A conditional starter resolves to a non-starter: no break before
    // the small kana.
    assert_eq!(break_property(0x30A1), BreakClass::ConditionalJapaneseStarter);
    assert_eq!(linebreaks("\u{30A2}\u{30A1}"), vec![(6, Mandatory)]);
    // Two ordinary ideographic kana do get their break.
    assert_eq!(linebreaks("\u{30A2}\u{30A2}"), vec![(3, Allowed), (6, Mandatory)]);
}

#[test]
fn hebrew_letter_hyphen() {
    // LB21a: no break after a Hebrew letter followed by a hyphen.
    assert_eq!(linebreaks("\u{5D0}-\u{5D1}"), vec![(5, Mandatory)]);
    // An ordinary letter pair around a hyphen breaks after it.
    assert_eq!(linebreaks("a-b"), vec![(2, Allowed), (3, Mandatory)]);
}
