//! The Unicode line-breaking classes and their numeric encoding.
//!
//! The scanner and the pair table work on small integer indices.  The
//! canonical classes occupy indices `0..43`; the indices from `EOT` up are
//! the synthetic states of the pair table: start and end of text, the
//! "space run after X" memory states, the Hebrew-letter-then-hyphen state
//! and the paired-regional-indicator state.

use vstd::prelude::*;

verus! {

/// Unicode line breaking class.
#[derive(Copy, Clone, PartialEq, Eq, Hash, Debug, Structural)]
pub enum BreakClass {
    /// Cause a line break (after)
    Mandatory,
    /// Cause a line break (after), except between CR and LF
    CarriageReturn,
    /// Cause a line break (after)
    LineFeed,
    /// Prohibit a line break between the character and the preceding character
    CombiningMark,
    /// Cause a line break (after)
    NextLine,
    /// Do not occur in well-formed text
    Surrogate,
    /// Prohibit line breaks before and after
    WordJoiner,
    /// Provide a break opportunity
    ZeroWidthSpace,
    /// Prohibit line breaks before and after
    NonBreakingGlue,
    /// Enable indirect line breaks
    Space,
    /// Prohibit line breaks within joiner sequences
    ZeroWidthJoiner,
    /// Provide a line break opportunity before and after the character
    BeforeAndAfter,
    /// Generally provide a line break opportunity after the character
    After,
    /// Generally provide a line break opportunity before the character
    Before,
    /// Provide a line break opportunity after the character, except in numeric context
    Hyphen,
    /// Provide a line break opportunity contingent on additional information
    Contingent,
    /// Prohibit line breaks before
    ClosePunctuation,
    /// Prohibit line breaks before
    CloseParenthesis,
    /// Prohibit line breaks before
    Exclamation,
    /// Allow only indirect line breaks between pairs
    Inseparable,
    /// Allow only indirect line breaks before
    NonStarter,
    /// Prohibit line breaks after
    OpenPunctuation,
    /// Act like they are both opening and closing
    Quotation,
    /// Prevent breaks after any and before numeric
    InfixSeparator,
    /// Form numeric expressions for line breaking purposes
    Numeric,
    /// Do not break following a numeric expression
    Postfix,
    /// Do not break in front of a numeric expression
    Prefix,
    /// Prevent a break before, and allow a break after
    Symbol,
    /// Act like AL when the resolved EAW is N; otherwise, act as ID
    Ambiguous,
    /// Are alphabetic characters or symbols that are used with alphabetic characters
    Alphabetic,
    /// Treat as NS or ID for strict or normal breaking.
    ConditionalJapaneseStarter,
    /// Do not break from following Emoji Modifier
    EmojiBase,
    /// Do not break from preceding Emoji Base
    EmojiModifier,
    /// Form Korean syllable blocks
    HangulLvSyllable,
    /// Form Korean syllable blocks
    HangulLvtSyllable,
    /// Do not break around a following hyphen; otherwise act as Alphabetic
    HebrewLetter,
    /// Break before or after, except in some numeric context
    Ideographic,
    /// Form Korean syllable blocks
    HangulLJamo,
    /// Form Korean syllable blocks
    HangulVJamo,
    /// Form Korean syllable blocks
    HangulTJamo,
    /// Keep pairs together. For pairs, break before and after other classes
    RegionalIndicator,
    /// Provide a line break opportunity contingent on additional, language-specific context analysis
    ComplexContext,
    /// Have as yet unknown line breaking behavior or unassigned code positions
    Unknown,
}

/// How many canonical classes there are.
pub const CLASS_COUNT: usize = 43;

/// Index of the BK class in the tables.
pub const BK: u8 = 0;

/// Index of the CR class in the tables.
pub const CR: u8 = 1;

/// Index of the LF class in the tables.
pub const LF: u8 = 2;

/// Index of the CM class in the tables.
pub const CM: u8 = 3;

/// Index of the NL class in the tables.
pub const NL: u8 = 4;

/// Index of the SG class in the tables.
pub const SG: u8 = 5;

/// Index of the WJ class in the tables.
pub const WJ: u8 = 6;

/// Index of the ZW class in the tables.
pub const ZW: u8 = 7;

/// Index of the GL class in the tables.
pub const GL: u8 = 8;

/// Index of the SP class in the tables.
pub const SP: u8 = 9;

/// Index of the ZWJ class in the tables.
pub const ZWJ: u8 = 10;

/// Index of the B2 class in the tables.
pub const B2: u8 = 11;

/// Index of the BA class in the tables.
pub const BA: u8 = 12;

/// Index of the BB class in the tables.
pub const BB: u8 = 13;

/// Index of the HY class in the tables.
pub const HY: u8 = 14;

/// Index of the CB class in the tables.
pub const CB: u8 = 15;

/// Index of the CL class in the tables.
pub const CL: u8 = 16;

/// Index of the CP class in the tables.
pub const CP: u8 = 17;

/// Index of the EX class in the tables.
pub const EX: u8 = 18;

/// Index of the IN class in the tables.
pub const IN: u8 = 19;

/// Index of the NS class in the tables.
pub const NS: u8 = 20;

/// Index of the OP class in the tables.
pub const OP: u8 = 21;

/// Index of the QU class in the tables.
pub const QU: u8 = 22;

/// Index of the IS class in the tables.
pub const IS: u8 = 23;

/// Index of the NU class in the tables.
pub const NU: u8 = 24;

/// Index of the PO class in the tables.
pub const PO: u8 = 25;

/// Index of the PR class in the tables.
pub const PR: u8 = 26;

/// Index of the SY class in the tables.
pub const SY: u8 = 27;

/// Index of the AI class in the tables.
pub const AI: u8 = 28;

/// Index of the AL class in the tables.
pub const AL: u8 = 29;

/// Index of the CJ class in the tables.
pub const CJ: u8 = 30;

/// Index of the EB class in the tables.
pub const EB: u8 = 31;

/// Index of the EM class in the tables.
pub const EM: u8 = 32;

/// Index of the H2 class in the tables.
pub const H2: u8 = 33;

/// Index of the H3 class in the tables.
pub const H3: u8 = 34;

/// Index of the HL class in the tables.
pub const HL: u8 = 35;

/// Index of the ID class in the tables.
pub const ID: u8 = 36;

/// Index of the JL class in the tables.
pub const JL: u8 = 37;

/// Index of the JV class in the tables.
pub const JV: u8 = 38;

/// Index of the JT class in the tables.
pub const JT: u8 = 39;

/// Index of the RI class in the tables.
pub const RI: u8 = 40;

/// Index of the SA class in the tables.
pub const SA: u8 = 41;

/// Index of the XX class in the tables.
pub const XX: u8 = 42;

/// Index of the synthetic end-of-text column and state.
pub const EOT: u8 = 43;

/// Index of the synthetic start-of-text state.
pub const SOT: u8 = 44;

/// Index of the state remembering a zero-width space followed by spaces.
pub const ZWSP: u8 = 45;

/// Index of the state remembering opening punctuation followed by spaces.
pub const OPSP: u8 = 46;

/// Index of the state remembering a quotation mark followed by spaces.
pub const QUSP: u8 = 47;

/// Index of the state remembering closing punctuation followed by spaces.
pub const CLSP: u8 = 48;

/// Index of the state remembering a closing parenthesis followed by spaces.
pub const CPSP: u8 = 49;

/// Index of the state remembering a break-both dash followed by spaces.
pub const B2SP: u8 = 50;

/// Index of the state remembering a Hebrew letter followed by a hyphen.
pub const HLHYBA: u8 = 51;

/// Index of the state remembering an odd run of regional indicators.
pub const RIRI: u8 = 52;

/// How many states the pair table has: the canonical classes and the
/// synthetic states together.
pub const STATE_COUNT: usize = 53;

/// How many columns the pair table has: one per canonical class, plus the
/// end-of-text column.
pub const COLUMN_COUNT: usize = 44;

/// The numeric index of a canonical class, as the tables encode it.
pub open spec fn class_index(c: BreakClass) -> u8 {
    match c {
        BreakClass::Mandatory => 0,
        BreakClass::CarriageReturn => 1,
        BreakClass::LineFeed => 2,
        BreakClass::CombiningMark => 3,
        BreakClass::NextLine => 4,
        BreakClass::Surrogate => 5,
        BreakClass::WordJoiner => 6,
        BreakClass::ZeroWidthSpace => 7,
        BreakClass::NonBreakingGlue => 8,
        BreakClass::Space => 9,
        BreakClass::ZeroWidthJoiner => 10,
        BreakClass::BeforeAndAfter => 11,
        BreakClass::After => 12,
        BreakClass::Before => 13,
        BreakClass::Hyphen => 14,
        BreakClass::Contingent => 15,
        BreakClass::ClosePunctuation => 16,
        BreakClass::CloseParenthesis => 17,
        BreakClass::Exclamation => 18,
        BreakClass::Inseparable => 19,
        BreakClass::NonStarter => 20,
        BreakClass::OpenPunctuation => 21,
        BreakClass::Quotation => 22,
        BreakClass::InfixSeparator => 23,
        BreakClass::Numeric => 24,
        BreakClass::Postfix => 25,
        BreakClass::Prefix => 26,
        BreakClass::Symbol => 27,
        BreakClass::Ambiguous => 28,
        BreakClass::Alphabetic => 29,
        BreakClass::ConditionalJapaneseStarter => 30,
        BreakClass::EmojiBase => 31,
        BreakClass::EmojiModifier => 32,
        BreakClass::HangulLvSyllable => 33,
        BreakClass::HangulLvtSyllable => 34,
        BreakClass::HebrewLetter => 35,
        BreakClass::Ideographic => 36,
        BreakClass::HangulLJamo => 37,
        BreakClass::HangulVJamo => 38,
        BreakClass::HangulTJamo => 39,
        BreakClass::RegionalIndicator => 40,
        BreakClass::ComplexContext => 41,
        BreakClass::Unknown => 42,
    }
}

/// Executable twin of [`class_index`].
pub fn index_of_class(c: BreakClass) -> (r: u8)
    ensures
        r == class_index(c),
{
    match c {
        BreakClass::Mandatory => 0,
        BreakClass::CarriageReturn => 1,
        BreakClass::LineFeed => 2,
        BreakClass::CombiningMark => 3,
        BreakClass::NextLine => 4,
        BreakClass::Surrogate => 5,
        BreakClass::WordJoiner => 6,
        BreakClass::ZeroWidthSpace => 7,
        BreakClass::NonBreakingGlue => 8,
        BreakClass::Space => 9,
        BreakClass::ZeroWidthJoiner => 10,
        BreakClass::BeforeAndAfter => 11,
        BreakClass::After => 12,
        BreakClass::Before => 13,
        BreakClass::Hyphen => 14,
        BreakClass::Contingent => 15,
        BreakClass::ClosePunctuation => 16,
        BreakClass::CloseParenthesis => 17,
        BreakClass::Exclamation => 18,
        BreakClass::Inseparable => 19,
        BreakClass::NonStarter => 20,
        BreakClass::OpenPunctuation => 21,
        BreakClass::Quotation => 22,
        BreakClass::InfixSeparator => 23,
        BreakClass::Numeric => 24,
        BreakClass::Postfix => 25,
        BreakClass::Prefix => 26,
        BreakClass::Symbol => 27,
        BreakClass::Ambiguous => 28,
        BreakClass::Alphabetic => 29,
        BreakClass::ConditionalJapaneseStarter => 30,
        BreakClass::EmojiBase => 31,
        BreakClass::EmojiModifier => 32,
        BreakClass::HangulLvSyllable => 33,
        BreakClass::HangulLvtSyllable => 34,
        BreakClass::HebrewLetter => 35,
        BreakClass::Ideographic => 36,
        BreakClass::HangulLJamo => 37,
        BreakClass::HangulVJamo => 38,
        BreakClass::HangulTJamo => 39,
        BreakClass::RegionalIndicator => 40,
        BreakClass::ComplexContext => 41,
        BreakClass::Unknown => 42,
    }
}

/// The canonical class with the given index, if the index is in range.
pub open spec fn spec_class_of_index(i: u8) -> Option<BreakClass> {
    if i == 0 { Some(BreakClass::Mandatory) }
    else if i == 1 { Some(BreakClass::CarriageReturn) }
    else if i == 2 { Some(BreakClass::LineFeed) }
    else if i == 3 { Some(BreakClass::CombiningMark) }
    else if i == 4 { Some(BreakClass::NextLine) }
    else if i == 5 { Some(BreakClass::Surrogate) }
    else if i == 6 { Some(BreakClass::WordJoiner) }
    else if i == 7 { Some(BreakClass::ZeroWidthSpace) }
    else if i == 8 { Some(BreakClass::NonBreakingGlue) }
    else if i == 9 { Some(BreakClass::Space) }
    else if i == 10 { Some(BreakClass::ZeroWidthJoiner) }
    else if i == 11 { Some(BreakClass::BeforeAndAfter) }
    else if i == 12 { Some(BreakClass::After) }
    else if i == 13 { Some(BreakClass::Before) }
    else if i == 14 { Some(BreakClass::Hyphen) }
    else if i == 15 { Some(BreakClass::Contingent) }
    else if i == 16 { Some(BreakClass::ClosePunctuation) }
    else if i == 17 { Some(BreakClass::CloseParenthesis) }
    else if i == 18 { Some(BreakClass::Exclamation) }
    else if i == 19 { Some(BreakClass::Inseparable) }
    else if i == 20 { Some(BreakClass::NonStarter) }
    else if i == 21 { Some(BreakClass::OpenPunctuation) }
    else if i == 22 { Some(BreakClass::Quotation) }
    else if i == 23 { Some(BreakClass::InfixSeparator) }
    else if i == 24 { Some(BreakClass::Numeric) }
    else if i == 25 { Some(BreakClass::Postfix) }
    else if i == 26 { Some(BreakClass::Prefix) }
    else if i == 27 { Some(BreakClass::Symbol) }
    else if i == 28 { Some(BreakClass::Ambiguous) }
    else if i == 29 { Some(BreakClass::Alphabetic) }
    else if i == 30 { Some(BreakClass::ConditionalJapaneseStarter) }
    else if i == 31 { Some(BreakClass::EmojiBase) }
    else if i == 32 { Some(BreakClass::EmojiModifier) }
    else if i == 33 { Some(BreakClass::HangulLvSyllable) }
    else if i == 34 { Some(BreakClass::HangulLvtSyllable) }
    else if i == 35 { Some(BreakClass::HebrewLetter) }
    else if i == 36 { Some(BreakClass::Ideographic) }
    else if i == 37 { Some(BreakClass::HangulLJamo) }
    else if i == 38 { Some(BreakClass::HangulVJamo) }
    else if i == 39 { Some(BreakClass::HangulTJamo) }
    else if i == 40 { Some(BreakClass::RegionalIndicator) }
    else if i == 41 { Some(BreakClass::ComplexContext) }
    else if i == 42 { Some(BreakClass::Unknown) }
    else { None }
}

/// Executable twin of [`spec_class_of_index`].
pub fn class_of_index(i: u8) -> (r: Option<BreakClass>)
    ensures
        r == spec_class_of_index(i),
{
    if i == 0 { Some(BreakClass::Mandatory) }
    else if i == 1 { Some(BreakClass::CarriageReturn) }
    else if i == 2 { Some(BreakClass::LineFeed) }
    else if i == 3 { Some(BreakClass::CombiningMark) }
    else if i == 4 { Some(BreakClass::NextLine) }
    else if i == 5 { Some(BreakClass::Surrogate) }
    else if i == 6 { Some(BreakClass::WordJoiner) }
    else if i == 7 { Some(BreakClass::ZeroWidthSpace) }
    else if i == 8 { Some(BreakClass::NonBreakingGlue) }
    else if i == 9 { Some(BreakClass::Space) }
    else if i == 10 { Some(BreakClass::ZeroWidthJoiner) }
    else if i == 11 { Some(BreakClass::BeforeAndAfter) }
    else if i == 12 { Some(BreakClass::After) }
    else if i == 13 { Some(BreakClass::Before) }
    else if i == 14 { Some(BreakClass::Hyphen) }
    else if i == 15 { Some(BreakClass::Contingent) }
    else if i == 16 { Some(BreakClass::ClosePunctuation) }
    else if i == 17 { Some(BreakClass::CloseParenthesis) }
    else if i == 18 { Some(BreakClass::Exclamation) }
    else if i == 19 { Some(BreakClass::Inseparable) }
    else if i == 20 { Some(BreakClass::NonStarter) }
    else if i == 21 { Some(BreakClass::OpenPunctuation) }
    else if i == 22 { Some(BreakClass::Quotation) }
    else if i == 23 { Some(BreakClass::InfixSeparator) }
    else if i == 24 { Some(BreakClass::Numeric) }
    else if i == 25 { Some(BreakClass::Postfix) }
    else if i == 26 { Some(BreakClass::Prefix) }
    else if i == 27 { Some(BreakClass::Symbol) }
    else if i == 28 { Some(BreakClass::Ambiguous) }
    else if i == 29 { Some(BreakClass::Alphabetic) }
    else if i == 30 { Some(BreakClass::ConditionalJapaneseStarter) }
    else if i == 31 { Some(BreakClass::EmojiBase) }
    else if i == 32 { Some(BreakClass::EmojiModifier) }
    else if i == 33 { Some(BreakClass::HangulLvSyllable) }
    else if i == 34 { Some(BreakClass::HangulLvtSyllable) }
    else if i == 35 { Some(BreakClass::HebrewLetter) }
    else if i == 36 { Some(BreakClass::Ideographic) }
    else if i == 37 { Some(BreakClass::HangulLJamo) }
    else if i == 38 { Some(BreakClass::HangulVJamo) }
    else if i == 39 { Some(BreakClass::HangulTJamo) }
    else if i == 40 { Some(BreakClass::RegionalIndicator) }
    else if i == 41 { Some(BreakClass::ComplexContext) }
    else if i == 42 { Some(BreakClass::Unknown) }
    else { None }
}

/// A class index always stays below [`CLASS_COUNT`], and converting it back
/// recovers the class.
pub proof fn lemma_class_index_bijective(c: BreakClass)
    ensures
        class_index(c) < 43,
        spec_class_of_index(class_index(c)) == Some(c),
{
}

} // verus!
