//! The bundled Line_Break property records: the full assigned Line_Break
//! map of Unicode 14.0.0, as ascending, non-overlapping ranged records.
//!
//! The list is what a parse of the pinned Unicode data would yield, so it
//! is large; it is held in fixed-size parts, each with a lemma giving its
//! length, order and endpoints.  [`bundled_records`] concatenates the
//! parts, and [`lemma_bundled_records_valid`] glues the parts' facts into
//! well-formedness of the whole list.  Code points outside every record —
//! the unassigned ones — resolve by the block defaults of
//! [`crate::property::spec_default_class`], exactly as the Unicode data
//! pins them: unassigned CJK-ideograph and supplementary-ideographic
//! code points to Ideographic, the unassigned currency slots to Prefix,
//! everything else to Unknown.

use vstd::prelude::*;

use crate::classes::BreakClass::After as BA;
use crate::classes::BreakClass::Alphabetic as AL;
use crate::classes::BreakClass::Ambiguous as AI;
use crate::classes::BreakClass::Before as BB;
use crate::classes::BreakClass::BeforeAndAfter as B2;
use crate::classes::BreakClass::CarriageReturn as CR;
use crate::classes::BreakClass::CloseParenthesis as CP;
use crate::classes::BreakClass::ClosePunctuation as CL;
use crate::classes::BreakClass::CombiningMark as CM;
use crate::classes::BreakClass::ComplexContext as SA;
use crate::classes::BreakClass::ConditionalJapaneseStarter as CJ;
use crate::classes::BreakClass::Contingent as CB;
use crate::classes::BreakClass::EmojiBase as EB;
use crate::classes::BreakClass::EmojiModifier as EM;
use crate::classes::BreakClass::Exclamation as EX;
use crate::classes::BreakClass::HangulLJamo as JL;
use crate::classes::BreakClass::HangulLvSyllable as H2;
use crate::classes::BreakClass::HangulLvtSyllable as H3;
use crate::classes::BreakClass::HangulTJamo as JT;
use crate::classes::BreakClass::HangulVJamo as JV;
use crate::classes::BreakClass::HebrewLetter as HL;
use crate::classes::BreakClass::Hyphen as HY;
use crate::classes::BreakClass::Ideographic as ID;
use crate::classes::BreakClass::InfixSeparator as IS;
use crate::classes::BreakClass::Inseparable as IN;
use crate::classes::BreakClass::LineFeed as LF;
use crate::classes::BreakClass::Mandatory as BK;
use crate::classes::BreakClass::NextLine as NL;
use crate::classes::BreakClass::NonBreakingGlue as GL;
use crate::classes::BreakClass::NonStarter as NS;
use crate::classes::BreakClass::Numeric as NU;
use crate::classes::BreakClass::OpenPunctuation as OP;
use crate::classes::BreakClass::Postfix as PO;
use crate::classes::BreakClass::Prefix as PR;
use crate::classes::BreakClass::Quotation as QU;
use crate::classes::BreakClass::RegionalIndicator as RI;
use crate::classes::BreakClass::Space as SP;
use crate::classes::BreakClass::Surrogate as SG;
use crate::classes::BreakClass::Symbol as SY;
use crate::classes::BreakClass::WordJoiner as WJ;
use crate::classes::BreakClass::ZeroWidthJoiner as ZWJ;
use crate::classes::BreakClass::ZeroWidthSpace as ZW;
use crate::classes::BreakClass;
use crate::property::Record;
use crate::property::lemma_rec_class_hit;
use crate::property::rec_class;
use crate::property::records_valid;

verus! {

/// The record covering `start..=end` with the given class.
#[verifier::allow_in_spec]
pub fn rec(start: u32, end: u32, class: BreakClass) -> Record
    returns
        (Record { start, end, class }),
{
    Record { start, end, class }
}

/// A record list in build-input shape: each range ordered and within the
/// code space, each ending before the next begins.
pub open spec fn records_sorted(rs: Seq<Record>) -> bool {
    &&& forall|i: int|
        0 <= i < rs.len() ==> (#[trigger] rs[i]).start <= rs[i].end && rs[i].end <= 0x10FFFF
    &&& forall|i: int|
        #![trigger rs[i], rs[i + 1]]
        0 <= i && i + 1 < rs.len() ==> rs[i].end < rs[i + 1].start
}

/// Records 0x0000 through 0x00AF of the Line_Break map.
pub open spec fn records_part1() -> Seq<Record> {
    seq![
        rec(0x0000, 0x0008, CM),
        rec(0x0009, 0x0009, BA),
        rec(0x000A, 0x000A, LF),
        rec(0x000B, 0x000C, BK),
        rec(0x000D, 0x000D, CR),
        rec(0x000E, 0x001F, CM),
        rec(0x0020, 0x0020, SP),
        rec(0x0021, 0x0021, EX),
        rec(0x0022, 0x0022, QU),
        rec(0x0023, 0x0023, AL),
        rec(0x0024, 0x0024, PR),
        rec(0x0025, 0x0025, PO),
        rec(0x0026, 0x0026, AL),
        rec(0x0027, 0x0027, QU),
        rec(0x0028, 0x0028, OP),
        rec(0x0029, 0x0029, CP),
        rec(0x002A, 0x002A, AL),
        rec(0x002B, 0x002B, PR),
        rec(0x002C, 0x002C, IS),
        rec(0x002D, 0x002D, HY),
        rec(0x002E, 0x002E, IS),
        rec(0x002F, 0x002F, SY),
        rec(0x0030, 0x0039, NU),
        rec(0x003A, 0x003B, IS),
        rec(0x003C, 0x003E, AL),
        rec(0x003F, 0x003F, EX),
        rec(0x0040, 0x005A, AL),
        rec(0x005B, 0x005B, OP),
        rec(0x005C, 0x005C, PR),
        rec(0x005D, 0x005D, CP),
        rec(0x005E, 0x007A, AL),
        rec(0x007B, 0x007B, OP),
        rec(0x007C, 0x007C, BA),
        rec(0x007D, 0x007D, CL),
        rec(0x007E, 0x007E, AL),
        rec(0x007F, 0x0084, CM),
        rec(0x0085, 0x0085, NL),
        rec(0x0086, 0x009F, CM),
        rec(0x00A0, 0x00A0, GL),
        rec(0x00A1, 0x00A1, OP),
        rec(0x00A2, 0x00A2, PO),
        rec(0x00A3, 0x00A5, PR),
        rec(0x00A6, 0x00A6, AL),
        rec(0x00A7, 0x00A8, AI),
        rec(0x00A9, 0x00A9, AL),
        rec(0x00AA, 0x00AA, AI),
        rec(0x00AB, 0x00AB, QU),
        rec(0x00AC, 0x00AC, AL),
        rec(0x00AD, 0x00AD, BA),
        rec(0x00AE, 0x00AF, AL),
    ]
}

/// Records 0x00B0 through 0x05BD of the Line_Break map.
pub open spec fn records_part2() -> Seq<Record> {
    seq![
        rec(0x00B0, 0x00B0, PO),
        rec(0x00B1, 0x00B1, PR),
        rec(0x00B2, 0x00B3, AI),
        rec(0x00B4, 0x00B4, BB),
        rec(0x00B5, 0x00B5, AL),
        rec(0x00B6, 0x00BA, AI),
        rec(0x00BB, 0x00BB, QU),
        rec(0x00BC, 0x00BE, AI),
        rec(0x00BF, 0x00BF, OP),
        rec(0x00C0, 0x00D6, AL),
        rec(0x00D7, 0x00D7, AI),
        rec(0x00D8, 0x00F6, AL),
        rec(0x00F7, 0x00F7, AI),
        rec(0x00F8, 0x02C6, AL),
        rec(0x02C7, 0x02C7, AI),
        rec(0x02C8, 0x02C8, BB),
        rec(0x02C9, 0x02CB, AI),
        rec(0x02CC, 0x02CC, BB),
        rec(0x02CD, 0x02CD, AI),
        rec(0x02CE, 0x02CF, AL),
        rec(0x02D0, 0x02D0, AI),
        rec(0x02D1, 0x02D7, AL),
        rec(0x02D8, 0x02DB, AI),
        rec(0x02DC, 0x02DC, AL),
        rec(0x02DD, 0x02DD, AI),
        rec(0x02DE, 0x02DE, AL),
        rec(0x02DF, 0x02DF, BB),
        rec(0x02E0, 0x02FF, AL),
        rec(0x0300, 0x034E, CM),
        rec(0x034F, 0x034F, GL),
        rec(0x0350, 0x035B, CM),
        rec(0x035C, 0x0362, GL),
        rec(0x0363, 0x036F, CM),
        rec(0x0370, 0x0377, AL),
        rec(0x037A, 0x037D, AL),
        rec(0x037E, 0x037E, IS),
        rec(0x037F, 0x037F, AL),
        rec(0x0384, 0x038A, AL),
        rec(0x038C, 0x038C, AL),
        rec(0x038E, 0x03A1, AL),
        rec(0x03A3, 0x0482, AL),
        rec(0x0483, 0x0489, CM),
        rec(0x048A, 0x052F, AL),
        rec(0x0531, 0x0556, AL),
        rec(0x0559, 0x0588, AL),
        rec(0x0589, 0x0589, IS),
        rec(0x058A, 0x058A, BA),
        rec(0x058D, 0x058E, AL),
        rec(0x058F, 0x058F, PR),
        rec(0x0591, 0x05BD, CM),
    ]
}

/// Records 0x05BE through 0x07F7 of the Line_Break map.
pub open spec fn records_part3() -> Seq<Record> {
    seq![
        rec(0x05BE, 0x05BE, BA),
        rec(0x05BF, 0x05BF, CM),
        rec(0x05C0, 0x05C0, AL),
        rec(0x05C1, 0x05C2, CM),
        rec(0x05C3, 0x05C3, AL),
        rec(0x05C4, 0x05C5, CM),
        rec(0x05C6, 0x05C6, EX),
        rec(0x05C7, 0x05C7, CM),
        rec(0x05D0, 0x05EA, HL),
        rec(0x05EF, 0x05F2, HL),
        rec(0x05F3, 0x05F4, AL),
        rec(0x0600, 0x0608, AL),
        rec(0x0609, 0x060B, PO),
        rec(0x060C, 0x060D, IS),
        rec(0x060E, 0x060F, AL),
        rec(0x0610, 0x061A, CM),
        rec(0x061B, 0x061B, EX),
        rec(0x061C, 0x061C, CM),
        rec(0x061D, 0x061F, EX),
        rec(0x0620, 0x064A, AL),
        rec(0x064B, 0x065F, CM),
        rec(0x0660, 0x0669, NU),
        rec(0x066A, 0x066A, PO),
        rec(0x066B, 0x066C, NU),
        rec(0x066D, 0x066F, AL),
        rec(0x0670, 0x0670, CM),
        rec(0x0671, 0x06D3, AL),
        rec(0x06D4, 0x06D4, EX),
        rec(0x06D5, 0x06D5, AL),
        rec(0x06D6, 0x06DC, CM),
        rec(0x06DD, 0x06DE, AL),
        rec(0x06DF, 0x06E4, CM),
        rec(0x06E5, 0x06E6, AL),
        rec(0x06E7, 0x06E8, CM),
        rec(0x06E9, 0x06E9, AL),
        rec(0x06EA, 0x06ED, CM),
        rec(0x06EE, 0x06EF, AL),
        rec(0x06F0, 0x06F9, NU),
        rec(0x06FA, 0x070D, AL),
        rec(0x070F, 0x0710, AL),
        rec(0x0711, 0x0711, CM),
        rec(0x0712, 0x072F, AL),
        rec(0x0730, 0x074A, CM),
        rec(0x074D, 0x07A5, AL),
        rec(0x07A6, 0x07B0, CM),
        rec(0x07B1, 0x07B1, AL),
        rec(0x07C0, 0x07C9, NU),
        rec(0x07CA, 0x07EA, AL),
        rec(0x07EB, 0x07F3, CM),
        rec(0x07F4, 0x07F7, AL),
    ]
}

/// Records 0x07F8 through 0x09D7 of the Line_Break map.
pub open spec fn records_part4() -> Seq<Record> {
    seq![
        rec(0x07F8, 0x07F8, IS),
        rec(0x07F9, 0x07F9, EX),
        rec(0x07FA, 0x07FA, AL),
        rec(0x07FD, 0x07FD, CM),
        rec(0x07FE, 0x07FF, PR),
        rec(0x0800, 0x0815, AL),
        rec(0x0816, 0x0819, CM),
        rec(0x081A, 0x081A, AL),
        rec(0x081B, 0x0823, CM),
        rec(0x0824, 0x0824, AL),
        rec(0x0825, 0x0827, CM),
        rec(0x0828, 0x0828, AL),
        rec(0x0829, 0x082D, CM),
        rec(0x0830, 0x083E, AL),
        rec(0x0840, 0x0858, AL),
        rec(0x0859, 0x085B, CM),
        rec(0x085E, 0x085E, AL),
        rec(0x0860, 0x086A, AL),
        rec(0x0870, 0x088E, AL),
        rec(0x0890, 0x0891, AL),
        rec(0x0898, 0x089F, CM),
        rec(0x08A0, 0x08C9, AL),
        rec(0x08CA, 0x08E1, CM),
        rec(0x08E2, 0x08E2, AL),
        rec(0x08E3, 0x0903, CM),
        rec(0x0904, 0x0939, AL),
        rec(0x093A, 0x093C, CM),
        rec(0x093D, 0x093D, AL),
        rec(0x093E, 0x094F, CM),
        rec(0x0950, 0x0950, AL),
        rec(0x0951, 0x0957, CM),
        rec(0x0958, 0x0961, AL),
        rec(0x0962, 0x0963, CM),
        rec(0x0964, 0x0965, BA),
        rec(0x0966, 0x096F, NU),
        rec(0x0970, 0x0980, AL),
        rec(0x0981, 0x0983, CM),
        rec(0x0985, 0x098C, AL),
        rec(0x098F, 0x0990, AL),
        rec(0x0993, 0x09A8, AL),
        rec(0x09AA, 0x09B0, AL),
        rec(0x09B2, 0x09B2, AL),
        rec(0x09B6, 0x09B9, AL),
        rec(0x09BC, 0x09BC, CM),
        rec(0x09BD, 0x09BD, AL),
        rec(0x09BE, 0x09C4, CM),
        rec(0x09C7, 0x09C8, CM),
        rec(0x09CB, 0x09CD, CM),
        rec(0x09CE, 0x09CE, AL),
        rec(0x09D7, 0x09D7, CM),
    ]
}

/// Records 0x09DC through 0x0AF1 of the Line_Break map.
pub open spec fn records_part5() -> Seq<Record> {
    seq![
        rec(0x09DC, 0x09DD, AL),
        rec(0x09DF, 0x09E1, AL),
        rec(0x09E2, 0x09E3, CM),
        rec(0x09E6, 0x09EF, NU),
        rec(0x09F0, 0x09F1, AL),
        rec(0x09F2, 0x09F3, PO),
        rec(0x09F4, 0x09F8, AL),
        rec(0x09F9, 0x09F9, PO),
        rec(0x09FA, 0x09FA, AL),
        rec(0x09FB, 0x09FB, PR),
        rec(0x09FC, 0x09FD, AL),
        rec(0x09FE, 0x09FE, CM),
        rec(0x0A01, 0x0A03, CM),
        rec(0x0A05, 0x0A0A, AL),
        rec(0x0A0F, 0x0A10, AL),
        rec(0x0A13, 0x0A28, AL),
        rec(0x0A2A, 0x0A30, AL),
        rec(0x0A32, 0x0A33, AL),
        rec(0x0A35, 0x0A36, AL),
        rec(0x0A38, 0x0A39, AL),
        rec(0x0A3C, 0x0A3C, CM),
        rec(0x0A3E, 0x0A42, CM),
        rec(0x0A47, 0x0A48, CM),
        rec(0x0A4B, 0x0A4D, CM),
        rec(0x0A51, 0x0A51, CM),
        rec(0x0A59, 0x0A5C, AL),
        rec(0x0A5E, 0x0A5E, AL),
        rec(0x0A66, 0x0A6F, NU),
        rec(0x0A70, 0x0A71, CM),
        rec(0x0A72, 0x0A74, AL),
        rec(0x0A75, 0x0A75, CM),
        rec(0x0A76, 0x0A76, AL),
        rec(0x0A81, 0x0A83, CM),
        rec(0x0A85, 0x0A8D, AL),
        rec(0x0A8F, 0x0A91, AL),
        rec(0x0A93, 0x0AA8, AL),
        rec(0x0AAA, 0x0AB0, AL),
        rec(0x0AB2, 0x0AB3, AL),
        rec(0x0AB5, 0x0AB9, AL),
        rec(0x0ABC, 0x0ABC, CM),
        rec(0x0ABD, 0x0ABD, AL),
        rec(0x0ABE, 0x0AC5, CM),
        rec(0x0AC7, 0x0AC9, CM),
        rec(0x0ACB, 0x0ACD, CM),
        rec(0x0AD0, 0x0AD0, AL),
        rec(0x0AE0, 0x0AE1, AL),
        rec(0x0AE2, 0x0AE3, CM),
        rec(0x0AE6, 0x0AEF, NU),
        rec(0x0AF0, 0x0AF0, AL),
        rec(0x0AF1, 0x0AF1, PR),
    ]
}

/// Records 0x0AF9 through 0x0C4D of the Line_Break map.
pub open spec fn records_part6() -> Seq<Record> {
    seq![
        rec(0x0AF9, 0x0AF9, AL),
        rec(0x0AFA, 0x0AFF, CM),
        rec(0x0B01, 0x0B03, CM),
        rec(0x0B05, 0x0B0C, AL),
        rec(0x0B0F, 0x0B10, AL),
        rec(0x0B13, 0x0B28, AL),
        rec(0x0B2A, 0x0B30, AL),
        rec(0x0B32, 0x0B33, AL),
        rec(0x0B35, 0x0B39, AL),
        rec(0x0B3C, 0x0B3C, CM),
        rec(0x0B3D, 0x0B3D, AL),
        rec(0x0B3E, 0x0B44, CM),
        rec(0x0B47, 0x0B48, CM),
        rec(0x0B4B, 0x0B4D, CM),
        rec(0x0B55, 0x0B57, CM),
        rec(0x0B5C, 0x0B5D, AL),
        rec(0x0B5F, 0x0B61, AL),
        rec(0x0B62, 0x0B63, CM),
        rec(0x0B66, 0x0B6F, NU),
        rec(0x0B70, 0x0B77, AL),
        rec(0x0B82, 0x0B82, CM),
        rec(0x0B83, 0x0B83, AL),
        rec(0x0B85, 0x0B8A, AL),
        rec(0x0B8E, 0x0B90, AL),
        rec(0x0B92, 0x0B95, AL),
        rec(0x0B99, 0x0B9A, AL),
        rec(0x0B9C, 0x0B9C, AL),
        rec(0x0B9E, 0x0B9F, AL),
        rec(0x0BA3, 0x0BA4, AL),
        rec(0x0BA8, 0x0BAA, AL),
        rec(0x0BAE, 0x0BB9, AL),
        rec(0x0BBE, 0x0BC2, CM),
        rec(0x0BC6, 0x0BC8, CM),
        rec(0x0BCA, 0x0BCD, CM),
        rec(0x0BD0, 0x0BD0, AL),
        rec(0x0BD7, 0x0BD7, CM),
        rec(0x0BE6, 0x0BEF, NU),
        rec(0x0BF0, 0x0BF8, AL),
        rec(0x0BF9, 0x0BF9, PR),
        rec(0x0BFA, 0x0BFA, AL),
        rec(0x0C00, 0x0C04, CM),
        rec(0x0C05, 0x0C0C, AL),
        rec(0x0C0E, 0x0C10, AL),
        rec(0x0C12, 0x0C28, AL),
        rec(0x0C2A, 0x0C39, AL),
        rec(0x0C3C, 0x0C3C, CM),
        rec(0x0C3D, 0x0C3D, AL),
        rec(0x0C3E, 0x0C44, CM),
        rec(0x0C46, 0x0C48, CM),
        rec(0x0C4A, 0x0C4D, CM),
    ]
}

/// Records 0x0C55 through 0x0DC6 of the Line_Break map.
pub open spec fn records_part7() -> Seq<Record> {
    seq![
        rec(0x0C55, 0x0C56, CM),
        rec(0x0C58, 0x0C5A, AL),
        rec(0x0C5D, 0x0C5D, AL),
        rec(0x0C60, 0x0C61, AL),
        rec(0x0C62, 0x0C63, CM),
        rec(0x0C66, 0x0C6F, NU),
        rec(0x0C77, 0x0C77, BB),
        rec(0x0C78, 0x0C80, AL),
        rec(0x0C81, 0x0C83, CM),
        rec(0x0C84, 0x0C84, BB),
        rec(0x0C85, 0x0C8C, AL),
        rec(0x0C8E, 0x0C90, AL),
        rec(0x0C92, 0x0CA8, AL),
        rec(0x0CAA, 0x0CB3, AL),
        rec(0x0CB5, 0x0CB9, AL),
        rec(0x0CBC, 0x0CBC, CM),
        rec(0x0CBD, 0x0CBD, AL),
        rec(0x0CBE, 0x0CC4, CM),
        rec(0x0CC6, 0x0CC8, CM),
        rec(0x0CCA, 0x0CCD, CM),
        rec(0x0CD5, 0x0CD6, CM),
        rec(0x0CDD, 0x0CDE, AL),
        rec(0x0CE0, 0x0CE1, AL),
        rec(0x0CE2, 0x0CE3, CM),
        rec(0x0CE6, 0x0CEF, NU),
        rec(0x0CF1, 0x0CF2, AL),
        rec(0x0D00, 0x0D03, CM),
        rec(0x0D04, 0x0D0C, AL),
        rec(0x0D0E, 0x0D10, AL),
        rec(0x0D12, 0x0D3A, AL),
        rec(0x0D3B, 0x0D3C, CM),
        rec(0x0D3D, 0x0D3D, AL),
        rec(0x0D3E, 0x0D44, CM),
        rec(0x0D46, 0x0D48, CM),
        rec(0x0D4A, 0x0D4D, CM),
        rec(0x0D4E, 0x0D4F, AL),
        rec(0x0D54, 0x0D56, AL),
        rec(0x0D57, 0x0D57, CM),
        rec(0x0D58, 0x0D61, AL),
        rec(0x0D62, 0x0D63, CM),
        rec(0x0D66, 0x0D6F, NU),
        rec(0x0D70, 0x0D78, AL),
        rec(0x0D79, 0x0D79, PO),
        rec(0x0D7A, 0x0D7F, AL),
        rec(0x0D81, 0x0D83, CM),
        rec(0x0D85, 0x0D96, AL),
        rec(0x0D9A, 0x0DB1, AL),
        rec(0x0DB3, 0x0DBB, AL),
        rec(0x0DBD, 0x0DBD, AL),
        rec(0x0DC0, 0x0DC6, AL),
    ]
}

/// Records 0x0DCA through 0x0F3C of the Line_Break map.
pub open spec fn records_part8() -> Seq<Record> {
    seq![
        rec(0x0DCA, 0x0DCA, CM),
        rec(0x0DCF, 0x0DD4, CM),
        rec(0x0DD6, 0x0DD6, CM),
        rec(0x0DD8, 0x0DDF, CM),
        rec(0x0DE6, 0x0DEF, NU),
        rec(0x0DF2, 0x0DF3, CM),
        rec(0x0DF4, 0x0DF4, AL),
        rec(0x0E01, 0x0E3A, SA),
        rec(0x0E3F, 0x0E3F, PR),
        rec(0x0E40, 0x0E4E, SA),
        rec(0x0E4F, 0x0E4F, AL),
        rec(0x0E50, 0x0E59, NU),
        rec(0x0E5A, 0x0E5B, BA),
        rec(0x0E81, 0x0E82, SA),
        rec(0x0E84, 0x0E84, SA),
        rec(0x0E86, 0x0E8A, SA),
        rec(0x0E8C, 0x0EA3, SA),
        rec(0x0EA5, 0x0EA5, SA),
        rec(0x0EA7, 0x0EBD, SA),
        rec(0x0EC0, 0x0EC4, SA),
        rec(0x0EC6, 0x0EC6, SA),
        rec(0x0EC8, 0x0ECD, SA),
        rec(0x0ED0, 0x0ED9, NU),
        rec(0x0EDC, 0x0EDF, SA),
        rec(0x0F00, 0x0F00, AL),
        rec(0x0F01, 0x0F04, BB),
        rec(0x0F05, 0x0F05, AL),
        rec(0x0F06, 0x0F07, BB),
        rec(0x0F08, 0x0F08, GL),
        rec(0x0F09, 0x0F0A, BB),
        rec(0x0F0B, 0x0F0B, BA),
        rec(0x0F0C, 0x0F0C, GL),
        rec(0x0F0D, 0x0F11, EX),
        rec(0x0F12, 0x0F12, GL),
        rec(0x0F13, 0x0F13, AL),
        rec(0x0F14, 0x0F14, EX),
        rec(0x0F15, 0x0F17, AL),
        rec(0x0F18, 0x0F19, CM),
        rec(0x0F1A, 0x0F1F, AL),
        rec(0x0F20, 0x0F29, NU),
        rec(0x0F2A, 0x0F33, AL),
        rec(0x0F34, 0x0F34, BA),
        rec(0x0F35, 0x0F35, CM),
        rec(0x0F36, 0x0F36, AL),
        rec(0x0F37, 0x0F37, CM),
        rec(0x0F38, 0x0F38, AL),
        rec(0x0F39, 0x0F39, CM),
        rec(0x0F3A, 0x0F3A, OP),
        rec(0x0F3B, 0x0F3B, CL),
        rec(0x0F3C, 0x0F3C, OP),
    ]
}

/// Records 0x0F3D through 0x1310 of the Line_Break map.
pub open spec fn records_part9() -> Seq<Record> {
    seq![
        rec(0x0F3D, 0x0F3D, CL),
        rec(0x0F3E, 0x0F3F, CM),
        rec(0x0F40, 0x0F47, AL),
        rec(0x0F49, 0x0F6C, AL),
        rec(0x0F71, 0x0F7E, CM),
        rec(0x0F7F, 0x0F7F, BA),
        rec(0x0F80, 0x0F84, CM),
        rec(0x0F85, 0x0F85, BA),
        rec(0x0F86, 0x0F87, CM),
        rec(0x0F88, 0x0F8C, AL),
        rec(0x0F8D, 0x0F97, CM),
        rec(0x0F99, 0x0FBC, CM),
        rec(0x0FBE, 0x0FBF, BA),
        rec(0x0FC0, 0x0FC5, AL),
        rec(0x0FC6, 0x0FC6, CM),
        rec(0x0FC7, 0x0FCC, AL),
        rec(0x0FCE, 0x0FCF, AL),
        rec(0x0FD0, 0x0FD1, BB),
        rec(0x0FD2, 0x0FD2, BA),
        rec(0x0FD3, 0x0FD3, BB),
        rec(0x0FD4, 0x0FD8, AL),
        rec(0x0FD9, 0x0FDA, GL),
        rec(0x1000, 0x103F, SA),
        rec(0x1040, 0x1049, NU),
        rec(0x104A, 0x104B, BA),
        rec(0x104C, 0x104F, AL),
        rec(0x1050, 0x108F, SA),
        rec(0x1090, 0x1099, NU),
        rec(0x109A, 0x109F, SA),
        rec(0x10A0, 0x10C5, AL),
        rec(0x10C7, 0x10C7, AL),
        rec(0x10CD, 0x10CD, AL),
        rec(0x10D0, 0x10FF, AL),
        rec(0x1100, 0x115F, JL),
        rec(0x1160, 0x11A7, JV),
        rec(0x11A8, 0x11FF, JT),
        rec(0x1200, 0x1248, AL),
        rec(0x124A, 0x124D, AL),
        rec(0x1250, 0x1256, AL),
        rec(0x1258, 0x1258, AL),
        rec(0x125A, 0x125D, AL),
        rec(0x1260, 0x1288, AL),
        rec(0x128A, 0x128D, AL),
        rec(0x1290, 0x12B0, AL),
        rec(0x12B2, 0x12B5, AL),
        rec(0x12B8, 0x12BE, AL),
        rec(0x12C0, 0x12C0, AL),
        rec(0x12C2, 0x12C5, AL),
        rec(0x12C8, 0x12D6, AL),
        rec(0x12D8, 0x1310, AL),
    ]
}

/// Records 0x1312 through 0x1819 of the Line_Break map.
pub open spec fn records_part10() -> Seq<Record> {
    seq![
        rec(0x1312, 0x1315, AL),
        rec(0x1318, 0x135A, AL),
        rec(0x135D, 0x135F, CM),
        rec(0x1360, 0x1360, AL),
        rec(0x1361, 0x1361, BA),
        rec(0x1362, 0x137C, AL),
        rec(0x1380, 0x1399, AL),
        rec(0x13A0, 0x13F5, AL),
        rec(0x13F8, 0x13FD, AL),
        rec(0x1400, 0x1400, BA),
        rec(0x1401, 0x167F, AL),
        rec(0x1680, 0x1680, BA),
        rec(0x1681, 0x169A, AL),
        rec(0x169B, 0x169B, OP),
        rec(0x169C, 0x169C, CL),
        rec(0x16A0, 0x16EA, AL),
        rec(0x16EB, 0x16ED, BA),
        rec(0x16EE, 0x16F8, AL),
        rec(0x1700, 0x1711, AL),
        rec(0x1712, 0x1715, CM),
        rec(0x171F, 0x1731, AL),
        rec(0x1732, 0x1734, CM),
        rec(0x1735, 0x1736, BA),
        rec(0x1740, 0x1751, AL),
        rec(0x1752, 0x1753, CM),
        rec(0x1760, 0x176C, AL),
        rec(0x176E, 0x1770, AL),
        rec(0x1772, 0x1773, CM),
        rec(0x1780, 0x17D3, SA),
        rec(0x17D4, 0x17D5, BA),
        rec(0x17D6, 0x17D6, NS),
        rec(0x17D7, 0x17D7, SA),
        rec(0x17D8, 0x17D8, BA),
        rec(0x17D9, 0x17D9, AL),
        rec(0x17DA, 0x17DA, BA),
        rec(0x17DB, 0x17DB, PR),
        rec(0x17DC, 0x17DD, SA),
        rec(0x17E0, 0x17E9, NU),
        rec(0x17F0, 0x17F9, AL),
        rec(0x1800, 0x1801, AL),
        rec(0x1802, 0x1803, EX),
        rec(0x1804, 0x1805, BA),
        rec(0x1806, 0x1806, BB),
        rec(0x1807, 0x1807, AL),
        rec(0x1808, 0x1809, EX),
        rec(0x180A, 0x180A, AL),
        rec(0x180B, 0x180D, CM),
        rec(0x180E, 0x180E, GL),
        rec(0x180F, 0x180F, CM),
        rec(0x1810, 0x1819, NU),
    ]
}

/// Records 0x1820 through 0x1C23 of the Line_Break map.
pub open spec fn records_part11() -> Seq<Record> {
    seq![
        rec(0x1820, 0x1878, AL),
        rec(0x1880, 0x1884, AL),
        rec(0x1885, 0x1886, CM),
        rec(0x1887, 0x18A8, AL),
        rec(0x18A9, 0x18A9, CM),
        rec(0x18AA, 0x18AA, AL),
        rec(0x18B0, 0x18F5, AL),
        rec(0x1900, 0x191E, AL),
        rec(0x1920, 0x192B, CM),
        rec(0x1930, 0x193B, CM),
        rec(0x1940, 0x1940, AL),
        rec(0x1944, 0x1945, EX),
        rec(0x1946, 0x194F, NU),
        rec(0x1950, 0x196D, SA),
        rec(0x1970, 0x1974, SA),
        rec(0x1980, 0x19AB, SA),
        rec(0x19B0, 0x19C9, SA),
        rec(0x19D0, 0x19D9, NU),
        rec(0x19DA, 0x19DA, SA),
        rec(0x19DE, 0x19DF, SA),
        rec(0x19E0, 0x1A16, AL),
        rec(0x1A17, 0x1A1B, CM),
        rec(0x1A1E, 0x1A1F, AL),
        rec(0x1A20, 0x1A5E, SA),
        rec(0x1A60, 0x1A7C, SA),
        rec(0x1A7F, 0x1A7F, CM),
        rec(0x1A80, 0x1A89, NU),
        rec(0x1A90, 0x1A99, NU),
        rec(0x1AA0, 0x1AAD, SA),
        rec(0x1AB0, 0x1ACE, CM),
        rec(0x1B00, 0x1B04, CM),
        rec(0x1B05, 0x1B33, AL),
        rec(0x1B34, 0x1B44, CM),
        rec(0x1B45, 0x1B4C, AL),
        rec(0x1B50, 0x1B59, NU),
        rec(0x1B5A, 0x1B5B, BA),
        rec(0x1B5C, 0x1B5C, AL),
        rec(0x1B5D, 0x1B60, BA),
        rec(0x1B61, 0x1B6A, AL),
        rec(0x1B6B, 0x1B73, CM),
        rec(0x1B74, 0x1B7C, AL),
        rec(0x1B7D, 0x1B7E, BA),
        rec(0x1B80, 0x1B82, CM),
        rec(0x1B83, 0x1BA0, AL),
        rec(0x1BA1, 0x1BAD, CM),
        rec(0x1BAE, 0x1BAF, AL),
        rec(0x1BB0, 0x1BB9, NU),
        rec(0x1BBA, 0x1BE5, AL),
        rec(0x1BE6, 0x1BF3, CM),
        rec(0x1BFC, 0x1C23, AL),
    ]
}

/// Records 0x1C24 through 0x2013 of the Line_Break map.
pub open spec fn records_part12() -> Seq<Record> {
    seq![
        rec(0x1C24, 0x1C37, CM),
        rec(0x1C3B, 0x1C3F, BA),
        rec(0x1C40, 0x1C49, NU),
        rec(0x1C4D, 0x1C4F, AL),
        rec(0x1C50, 0x1C59, NU),
        rec(0x1C5A, 0x1C7D, AL),
        rec(0x1C7E, 0x1C7F, BA),
        rec(0x1C80, 0x1C88, AL),
        rec(0x1C90, 0x1CBA, AL),
        rec(0x1CBD, 0x1CC7, AL),
        rec(0x1CD0, 0x1CD2, CM),
        rec(0x1CD3, 0x1CD3, AL),
        rec(0x1CD4, 0x1CE8, CM),
        rec(0x1CE9, 0x1CEC, AL),
        rec(0x1CED, 0x1CED, CM),
        rec(0x1CEE, 0x1CF3, AL),
        rec(0x1CF4, 0x1CF4, CM),
        rec(0x1CF5, 0x1CF6, AL),
        rec(0x1CF7, 0x1CF9, CM),
        rec(0x1CFA, 0x1CFA, AL),
        rec(0x1D00, 0x1DBF, AL),
        rec(0x1DC0, 0x1DFF, CM),
        rec(0x1E00, 0x1F15, AL),
        rec(0x1F18, 0x1F1D, AL),
        rec(0x1F20, 0x1F45, AL),
        rec(0x1F48, 0x1F4D, AL),
        rec(0x1F50, 0x1F57, AL),
        rec(0x1F59, 0x1F59, AL),
        rec(0x1F5B, 0x1F5B, AL),
        rec(0x1F5D, 0x1F5D, AL),
        rec(0x1F5F, 0x1F7D, AL),
        rec(0x1F80, 0x1FB4, AL),
        rec(0x1FB6, 0x1FC4, AL),
        rec(0x1FC6, 0x1FD3, AL),
        rec(0x1FD6, 0x1FDB, AL),
        rec(0x1FDD, 0x1FEF, AL),
        rec(0x1FF2, 0x1FF4, AL),
        rec(0x1FF6, 0x1FFC, AL),
        rec(0x1FFD, 0x1FFD, BB),
        rec(0x1FFE, 0x1FFE, AL),
        rec(0x2000, 0x2006, BA),
        rec(0x2007, 0x2007, GL),
        rec(0x2008, 0x200A, BA),
        rec(0x200B, 0x200B, ZW),
        rec(0x200C, 0x200C, CM),
        rec(0x200D, 0x200D, ZWJ),
        rec(0x200E, 0x200F, CM),
        rec(0x2010, 0x2010, BA),
        rec(0x2011, 0x2011, GL),
        rec(0x2012, 0x2013, BA),
    ]
}

/// Records 0x2014 through 0x20B6 of the Line_Break map.
pub open spec fn records_part13() -> Seq<Record> {
    seq![
        rec(0x2014, 0x2014, B2),
        rec(0x2015, 0x2016, AI),
        rec(0x2017, 0x2017, AL),
        rec(0x2018, 0x2019, QU),
        rec(0x201A, 0x201A, OP),
        rec(0x201B, 0x201D, QU),
        rec(0x201E, 0x201E, OP),
        rec(0x201F, 0x201F, QU),
        rec(0x2020, 0x2021, AI),
        rec(0x2022, 0x2023, AL),
        rec(0x2024, 0x2026, IN),
        rec(0x2027, 0x2027, BA),
        rec(0x2028, 0x2029, BK),
        rec(0x202A, 0x202E, CM),
        rec(0x202F, 0x202F, GL),
        rec(0x2030, 0x2037, PO),
        rec(0x2038, 0x2038, AL),
        rec(0x2039, 0x203A, QU),
        rec(0x203B, 0x203B, AI),
        rec(0x203C, 0x203D, NS),
        rec(0x203E, 0x2043, AL),
        rec(0x2044, 0x2044, IS),
        rec(0x2045, 0x2045, OP),
        rec(0x2046, 0x2046, CL),
        rec(0x2047, 0x2049, NS),
        rec(0x204A, 0x2055, AL),
        rec(0x2056, 0x2056, BA),
        rec(0x2057, 0x2057, AL),
        rec(0x2058, 0x205B, BA),
        rec(0x205C, 0x205C, AL),
        rec(0x205D, 0x205F, BA),
        rec(0x2060, 0x2060, WJ),
        rec(0x2061, 0x2064, AL),
        rec(0x2066, 0x206F, CM),
        rec(0x2070, 0x2071, AL),
        rec(0x2074, 0x2074, AI),
        rec(0x2075, 0x207C, AL),
        rec(0x207D, 0x207D, OP),
        rec(0x207E, 0x207E, CL),
        rec(0x207F, 0x207F, AI),
        rec(0x2080, 0x2080, AL),
        rec(0x2081, 0x2084, AI),
        rec(0x2085, 0x208C, AL),
        rec(0x208D, 0x208D, OP),
        rec(0x208E, 0x208E, CL),
        rec(0x2090, 0x209C, AL),
        rec(0x20A0, 0x20A6, PR),
        rec(0x20A7, 0x20A7, PO),
        rec(0x20A8, 0x20B5, PR),
        rec(0x20B6, 0x20B6, PO),
    ]
}

/// Records 0x20B7 through 0x220F of the Line_Break map.
pub open spec fn records_part14() -> Seq<Record> {
    seq![
        rec(0x20B7, 0x20BA, PR),
        rec(0x20BB, 0x20BB, PO),
        rec(0x20BC, 0x20BD, PR),
        rec(0x20BE, 0x20BE, PO),
        rec(0x20BF, 0x20BF, PR),
        rec(0x20C0, 0x20C0, PO),
        rec(0x20C1, 0x20CF, PR),
        rec(0x20D0, 0x20F0, CM),
        rec(0x2100, 0x2102, AL),
        rec(0x2103, 0x2103, PO),
        rec(0x2104, 0x2104, AL),
        rec(0x2105, 0x2105, AI),
        rec(0x2106, 0x2108, AL),
        rec(0x2109, 0x2109, PO),
        rec(0x210A, 0x2112, AL),
        rec(0x2113, 0x2113, AI),
        rec(0x2114, 0x2115, AL),
        rec(0x2116, 0x2116, PR),
        rec(0x2117, 0x2120, AL),
        rec(0x2121, 0x2122, AI),
        rec(0x2123, 0x212A, AL),
        rec(0x212B, 0x212B, AI),
        rec(0x212C, 0x2153, AL),
        rec(0x2154, 0x2155, AI),
        rec(0x2156, 0x215A, AL),
        rec(0x215B, 0x215B, AI),
        rec(0x215C, 0x215D, AL),
        rec(0x215E, 0x215E, AI),
        rec(0x215F, 0x215F, AL),
        rec(0x2160, 0x216B, AI),
        rec(0x216C, 0x216F, AL),
        rec(0x2170, 0x2179, AI),
        rec(0x217A, 0x2188, AL),
        rec(0x2189, 0x2189, AI),
        rec(0x218A, 0x218B, AL),
        rec(0x2190, 0x2199, AI),
        rec(0x219A, 0x21D1, AL),
        rec(0x21D2, 0x21D2, AI),
        rec(0x21D3, 0x21D3, AL),
        rec(0x21D4, 0x21D4, AI),
        rec(0x21D5, 0x21FF, AL),
        rec(0x2200, 0x2200, AI),
        rec(0x2201, 0x2201, AL),
        rec(0x2202, 0x2203, AI),
        rec(0x2204, 0x2206, AL),
        rec(0x2207, 0x2208, AI),
        rec(0x2209, 0x220A, AL),
        rec(0x220B, 0x220B, AI),
        rec(0x220C, 0x220E, AL),
        rec(0x220F, 0x220F, AI),
    ]
}

/// Records 0x2210 through 0x2307 of the Line_Break map.
pub open spec fn records_part15() -> Seq<Record> {
    seq![
        rec(0x2210, 0x2210, AL),
        rec(0x2211, 0x2211, AI),
        rec(0x2212, 0x2213, PR),
        rec(0x2214, 0x2214, AL),
        rec(0x2215, 0x2215, AI),
        rec(0x2216, 0x2219, AL),
        rec(0x221A, 0x221A, AI),
        rec(0x221B, 0x221C, AL),
        rec(0x221D, 0x2220, AI),
        rec(0x2221, 0x2222, AL),
        rec(0x2223, 0x2223, AI),
        rec(0x2224, 0x2224, AL),
        rec(0x2225, 0x2225, AI),
        rec(0x2226, 0x2226, AL),
        rec(0x2227, 0x222C, AI),
        rec(0x222D, 0x222D, AL),
        rec(0x222E, 0x222E, AI),
        rec(0x222F, 0x2233, AL),
        rec(0x2234, 0x2237, AI),
        rec(0x2238, 0x223B, AL),
        rec(0x223C, 0x223D, AI),
        rec(0x223E, 0x2247, AL),
        rec(0x2248, 0x2248, AI),
        rec(0x2249, 0x224B, AL),
        rec(0x224C, 0x224C, AI),
        rec(0x224D, 0x2251, AL),
        rec(0x2252, 0x2252, AI),
        rec(0x2253, 0x225F, AL),
        rec(0x2260, 0x2261, AI),
        rec(0x2262, 0x2263, AL),
        rec(0x2264, 0x2267, AI),
        rec(0x2268, 0x2269, AL),
        rec(0x226A, 0x226B, AI),
        rec(0x226C, 0x226D, AL),
        rec(0x226E, 0x226F, AI),
        rec(0x2270, 0x2281, AL),
        rec(0x2282, 0x2283, AI),
        rec(0x2284, 0x2285, AL),
        rec(0x2286, 0x2287, AI),
        rec(0x2288, 0x2294, AL),
        rec(0x2295, 0x2295, AI),
        rec(0x2296, 0x2298, AL),
        rec(0x2299, 0x2299, AI),
        rec(0x229A, 0x22A4, AL),
        rec(0x22A5, 0x22A5, AI),
        rec(0x22A6, 0x22BE, AL),
        rec(0x22BF, 0x22BF, AI),
        rec(0x22C0, 0x22EE, AL),
        rec(0x22EF, 0x22EF, IN),
        rec(0x22F0, 0x2307, AL),
    ]
}

/// Records 0x2308 through 0x2606 of the Line_Break map.
pub open spec fn records_part16() -> Seq<Record> {
    seq![
        rec(0x2308, 0x2308, OP),
        rec(0x2309, 0x2309, CL),
        rec(0x230A, 0x230A, OP),
        rec(0x230B, 0x230B, CL),
        rec(0x230C, 0x2311, AL),
        rec(0x2312, 0x2312, AI),
        rec(0x2313, 0x2319, AL),
        rec(0x231A, 0x231B, ID),
        rec(0x231C, 0x2328, AL),
        rec(0x2329, 0x2329, OP),
        rec(0x232A, 0x232A, CL),
        rec(0x232B, 0x23EF, AL),
        rec(0x23F0, 0x23F3, ID),
        rec(0x23F4, 0x2426, AL),
        rec(0x2440, 0x244A, AL),
        rec(0x2460, 0x24FE, AI),
        rec(0x24FF, 0x24FF, AL),
        rec(0x2500, 0x254B, AI),
        rec(0x254C, 0x254F, AL),
        rec(0x2550, 0x2574, AI),
        rec(0x2575, 0x257F, AL),
        rec(0x2580, 0x258F, AI),
        rec(0x2590, 0x2591, AL),
        rec(0x2592, 0x2595, AI),
        rec(0x2596, 0x259F, AL),
        rec(0x25A0, 0x25A1, AI),
        rec(0x25A2, 0x25A2, AL),
        rec(0x25A3, 0x25A9, AI),
        rec(0x25AA, 0x25B1, AL),
        rec(0x25B2, 0x25B3, AI),
        rec(0x25B4, 0x25B5, AL),
        rec(0x25B6, 0x25B7, AI),
        rec(0x25B8, 0x25BB, AL),
        rec(0x25BC, 0x25BD, AI),
        rec(0x25BE, 0x25BF, AL),
        rec(0x25C0, 0x25C1, AI),
        rec(0x25C2, 0x25C5, AL),
        rec(0x25C6, 0x25C8, AI),
        rec(0x25C9, 0x25CA, AL),
        rec(0x25CB, 0x25CB, AI),
        rec(0x25CC, 0x25CD, AL),
        rec(0x25CE, 0x25D1, AI),
        rec(0x25D2, 0x25E1, AL),
        rec(0x25E2, 0x25E5, AI),
        rec(0x25E6, 0x25EE, AL),
        rec(0x25EF, 0x25EF, AI),
        rec(0x25F0, 0x25FF, AL),
        rec(0x2600, 0x2603, ID),
        rec(0x2604, 0x2604, AL),
        rec(0x2605, 0x2606, AI),
    ]
}

/// Records 0x2607 through 0x26E3 of the Line_Break map.
pub open spec fn records_part17() -> Seq<Record> {
    seq![
        rec(0x2607, 0x2608, AL),
        rec(0x2609, 0x2609, AI),
        rec(0x260A, 0x260D, AL),
        rec(0x260E, 0x260F, AI),
        rec(0x2610, 0x2613, AL),
        rec(0x2614, 0x2615, ID),
        rec(0x2616, 0x2617, AI),
        rec(0x2618, 0x2618, ID),
        rec(0x2619, 0x2619, AL),
        rec(0x261A, 0x261C, ID),
        rec(0x261D, 0x261D, EB),
        rec(0x261E, 0x261F, ID),
        rec(0x2620, 0x2638, AL),
        rec(0x2639, 0x263B, ID),
        rec(0x263C, 0x263F, AL),
        rec(0x2640, 0x2640, AI),
        rec(0x2641, 0x2641, AL),
        rec(0x2642, 0x2642, AI),
        rec(0x2643, 0x265F, AL),
        rec(0x2660, 0x2661, AI),
        rec(0x2662, 0x2662, AL),
        rec(0x2663, 0x2665, AI),
        rec(0x2666, 0x2666, AL),
        rec(0x2667, 0x2667, AI),
        rec(0x2668, 0x2668, ID),
        rec(0x2669, 0x266A, AI),
        rec(0x266B, 0x266B, AL),
        rec(0x266C, 0x266D, AI),
        rec(0x266E, 0x266E, AL),
        rec(0x266F, 0x266F, AI),
        rec(0x2670, 0x267E, AL),
        rec(0x267F, 0x267F, ID),
        rec(0x2680, 0x269D, AL),
        rec(0x269E, 0x269F, AI),
        rec(0x26A0, 0x26BC, AL),
        rec(0x26BD, 0x26C8, ID),
        rec(0x26C9, 0x26CC, AI),
        rec(0x26CD, 0x26CD, ID),
        rec(0x26CE, 0x26CE, AL),
        rec(0x26CF, 0x26D1, ID),
        rec(0x26D2, 0x26D2, AI),
        rec(0x26D3, 0x26D4, ID),
        rec(0x26D5, 0x26D7, AI),
        rec(0x26D8, 0x26D9, ID),
        rec(0x26DA, 0x26DB, AI),
        rec(0x26DC, 0x26DC, ID),
        rec(0x26DD, 0x26DE, AI),
        rec(0x26DF, 0x26E1, ID),
        rec(0x26E2, 0x26E2, AL),
        rec(0x26E3, 0x26E3, AI),
    ]
}

/// Records 0x26E4 through 0x27EE of the Line_Break map.
pub open spec fn records_part18() -> Seq<Record> {
    seq![
        rec(0x26E4, 0x26E7, AL),
        rec(0x26E8, 0x26E9, AI),
        rec(0x26EA, 0x26EA, ID),
        rec(0x26EB, 0x26F0, AI),
        rec(0x26F1, 0x26F5, ID),
        rec(0x26F6, 0x26F6, AI),
        rec(0x26F7, 0x26F8, ID),
        rec(0x26F9, 0x26F9, EB),
        rec(0x26FA, 0x26FA, ID),
        rec(0x26FB, 0x26FC, AI),
        rec(0x26FD, 0x2704, ID),
        rec(0x2705, 0x2707, AL),
        rec(0x2708, 0x2709, ID),
        rec(0x270A, 0x270D, EB),
        rec(0x270E, 0x2756, AL),
        rec(0x2757, 0x2757, AI),
        rec(0x2758, 0x275A, AL),
        rec(0x275B, 0x2760, QU),
        rec(0x2761, 0x2761, AL),
        rec(0x2762, 0x2763, EX),
        rec(0x2764, 0x2764, ID),
        rec(0x2765, 0x2767, AL),
        rec(0x2768, 0x2768, OP),
        rec(0x2769, 0x2769, CL),
        rec(0x276A, 0x276A, OP),
        rec(0x276B, 0x276B, CL),
        rec(0x276C, 0x276C, OP),
        rec(0x276D, 0x276D, CL),
        rec(0x276E, 0x276E, OP),
        rec(0x276F, 0x276F, CL),
        rec(0x2770, 0x2770, OP),
        rec(0x2771, 0x2771, CL),
        rec(0x2772, 0x2772, OP),
        rec(0x2773, 0x2773, CL),
        rec(0x2774, 0x2774, OP),
        rec(0x2775, 0x2775, CL),
        rec(0x2776, 0x2793, AI),
        rec(0x2794, 0x27C4, AL),
        rec(0x27C5, 0x27C5, OP),
        rec(0x27C6, 0x27C6, CL),
        rec(0x27C7, 0x27E5, AL),
        rec(0x27E6, 0x27E6, OP),
        rec(0x27E7, 0x27E7, CL),
        rec(0x27E8, 0x27E8, OP),
        rec(0x27E9, 0x27E9, CL),
        rec(0x27EA, 0x27EA, OP),
        rec(0x27EB, 0x27EB, CL),
        rec(0x27EC, 0x27EC, OP),
        rec(0x27ED, 0x27ED, CL),
        rec(0x27EE, 0x27EE, OP),
    ]
}

/// Records 0x27EF through 0x2D70 of the Line_Break map.
pub open spec fn records_part19() -> Seq<Record> {
    seq![
        rec(0x27EF, 0x27EF, CL),
        rec(0x27F0, 0x2982, AL),
        rec(0x2983, 0x2983, OP),
        rec(0x2984, 0x2984, CL),
        rec(0x2985, 0x2985, OP),
        rec(0x2986, 0x2986, CL),
        rec(0x2987, 0x2987, OP),
        rec(0x2988, 0x2988, CL),
        rec(0x2989, 0x2989, OP),
        rec(0x298A, 0x298A, CL),
        rec(0x298B, 0x298B, OP),
        rec(0x298C, 0x298C, CL),
        rec(0x298D, 0x298D, OP),
        rec(0x298E, 0x298E, CL),
        rec(0x298F, 0x298F, OP),
        rec(0x2990, 0x2990, CL),
        rec(0x2991, 0x2991, OP),
        rec(0x2992, 0x2992, CL),
        rec(0x2993, 0x2993, OP),
        rec(0x2994, 0x2994, CL),
        rec(0x2995, 0x2995, OP),
        rec(0x2996, 0x2996, CL),
        rec(0x2997, 0x2997, OP),
        rec(0x2998, 0x2998, CL),
        rec(0x2999, 0x29D7, AL),
        rec(0x29D8, 0x29D8, OP),
        rec(0x29D9, 0x29D9, CL),
        rec(0x29DA, 0x29DA, OP),
        rec(0x29DB, 0x29DB, CL),
        rec(0x29DC, 0x29FB, AL),
        rec(0x29FC, 0x29FC, OP),
        rec(0x29FD, 0x29FD, CL),
        rec(0x29FE, 0x2B54, AL),
        rec(0x2B55, 0x2B59, AI),
        rec(0x2B5A, 0x2B73, AL),
        rec(0x2B76, 0x2B95, AL),
        rec(0x2B97, 0x2CEE, AL),
        rec(0x2CEF, 0x2CF1, CM),
        rec(0x2CF2, 0x2CF3, AL),
        rec(0x2CF9, 0x2CF9, EX),
        rec(0x2CFA, 0x2CFC, BA),
        rec(0x2CFD, 0x2CFD, AL),
        rec(0x2CFE, 0x2CFE, EX),
        rec(0x2CFF, 0x2CFF, BA),
        rec(0x2D00, 0x2D25, AL),
        rec(0x2D27, 0x2D27, AL),
        rec(0x2D2D, 0x2D2D, AL),
        rec(0x2D30, 0x2D67, AL),
        rec(0x2D6F, 0x2D6F, AL),
        rec(0x2D70, 0x2D70, BA),
    ]
}

/// Records 0x2D7F through 0x2E56 of the Line_Break map.
pub open spec fn records_part20() -> Seq<Record> {
    seq![
        rec(0x2D7F, 0x2D7F, CM),
        rec(0x2D80, 0x2D96, AL),
        rec(0x2DA0, 0x2DA6, AL),
        rec(0x2DA8, 0x2DAE, AL),
        rec(0x2DB0, 0x2DB6, AL),
        rec(0x2DB8, 0x2DBE, AL),
        rec(0x2DC0, 0x2DC6, AL),
        rec(0x2DC8, 0x2DCE, AL),
        rec(0x2DD0, 0x2DD6, AL),
        rec(0x2DD8, 0x2DDE, AL),
        rec(0x2DE0, 0x2DFF, CM),
        rec(0x2E00, 0x2E0D, QU),
        rec(0x2E0E, 0x2E15, BA),
        rec(0x2E16, 0x2E16, AL),
        rec(0x2E17, 0x2E17, BA),
        rec(0x2E18, 0x2E18, OP),
        rec(0x2E19, 0x2E19, BA),
        rec(0x2E1A, 0x2E1B, AL),
        rec(0x2E1C, 0x2E1D, QU),
        rec(0x2E1E, 0x2E1F, AL),
        rec(0x2E20, 0x2E21, QU),
        rec(0x2E22, 0x2E22, OP),
        rec(0x2E23, 0x2E23, CL),
        rec(0x2E24, 0x2E24, OP),
        rec(0x2E25, 0x2E25, CL),
        rec(0x2E26, 0x2E26, OP),
        rec(0x2E27, 0x2E27, CL),
        rec(0x2E28, 0x2E28, OP),
        rec(0x2E29, 0x2E29, CL),
        rec(0x2E2A, 0x2E2D, BA),
        rec(0x2E2E, 0x2E2E, EX),
        rec(0x2E2F, 0x2E2F, AL),
        rec(0x2E30, 0x2E31, BA),
        rec(0x2E32, 0x2E32, AL),
        rec(0x2E33, 0x2E34, BA),
        rec(0x2E35, 0x2E39, AL),
        rec(0x2E3A, 0x2E3B, B2),
        rec(0x2E3C, 0x2E3E, BA),
        rec(0x2E3F, 0x2E3F, AL),
        rec(0x2E40, 0x2E41, BA),
        rec(0x2E42, 0x2E42, OP),
        rec(0x2E43, 0x2E4A, BA),
        rec(0x2E4B, 0x2E4B, AL),
        rec(0x2E4C, 0x2E4C, BA),
        rec(0x2E4D, 0x2E4D, AL),
        rec(0x2E4E, 0x2E4F, BA),
        rec(0x2E50, 0x2E52, AL),
        rec(0x2E53, 0x2E54, EX),
        rec(0x2E55, 0x2E55, OP),
        rec(0x2E56, 0x2E56, CL),
    ]
}

/// Records 0x2E57 through 0x3045 of the Line_Break map.
pub open spec fn records_part21() -> Seq<Record> {
    seq![
        rec(0x2E57, 0x2E57, OP),
        rec(0x2E58, 0x2E58, CL),
        rec(0x2E59, 0x2E59, OP),
        rec(0x2E5A, 0x2E5A, CL),
        rec(0x2E5B, 0x2E5B, OP),
        rec(0x2E5C, 0x2E5C, CL),
        rec(0x2E5D, 0x2E5D, BA),
        rec(0x2E80, 0x2E99, ID),
        rec(0x2E9B, 0x2EF3, ID),
        rec(0x2F00, 0x2FD5, ID),
        rec(0x2FF0, 0x2FFB, ID),
        rec(0x3000, 0x3000, BA),
        rec(0x3001, 0x3002, CL),
        rec(0x3003, 0x3004, ID),
        rec(0x3005, 0x3005, NS),
        rec(0x3006, 0x3007, ID),
        rec(0x3008, 0x3008, OP),
        rec(0x3009, 0x3009, CL),
        rec(0x300A, 0x300A, OP),
        rec(0x300B, 0x300B, CL),
        rec(0x300C, 0x300C, OP),
        rec(0x300D, 0x300D, CL),
        rec(0x300E, 0x300E, OP),
        rec(0x300F, 0x300F, CL),
        rec(0x3010, 0x3010, OP),
        rec(0x3011, 0x3011, CL),
        rec(0x3012, 0x3013, ID),
        rec(0x3014, 0x3014, OP),
        rec(0x3015, 0x3015, CL),
        rec(0x3016, 0x3016, OP),
        rec(0x3017, 0x3017, CL),
        rec(0x3018, 0x3018, OP),
        rec(0x3019, 0x3019, CL),
        rec(0x301A, 0x301A, OP),
        rec(0x301B, 0x301B, CL),
        rec(0x301C, 0x301C, NS),
        rec(0x301D, 0x301D, OP),
        rec(0x301E, 0x301F, CL),
        rec(0x3020, 0x3029, ID),
        rec(0x302A, 0x302F, CM),
        rec(0x3030, 0x3034, ID),
        rec(0x3035, 0x3035, CM),
        rec(0x3036, 0x303A, ID),
        rec(0x303B, 0x303C, NS),
        rec(0x303D, 0x303F, ID),
        rec(0x3041, 0x3041, CJ),
        rec(0x3042, 0x3042, ID),
        rec(0x3043, 0x3043, CJ),
        rec(0x3044, 0x3044, ID),
        rec(0x3045, 0x3045, CJ),
    ]
}

/// Records 0x3046 through 0x31FF of the Line_Break map.
pub open spec fn records_part22() -> Seq<Record> {
    seq![
        rec(0x3046, 0x3046, ID),
        rec(0x3047, 0x3047, CJ),
        rec(0x3048, 0x3048, ID),
        rec(0x3049, 0x3049, CJ),
        rec(0x304A, 0x3062, ID),
        rec(0x3063, 0x3063, CJ),
        rec(0x3064, 0x3082, ID),
        rec(0x3083, 0x3083, CJ),
        rec(0x3084, 0x3084, ID),
        rec(0x3085, 0x3085, CJ),
        rec(0x3086, 0x3086, ID),
        rec(0x3087, 0x3087, CJ),
        rec(0x3088, 0x308D, ID),
        rec(0x308E, 0x308E, CJ),
        rec(0x308F, 0x3094, ID),
        rec(0x3095, 0x3096, CJ),
        rec(0x3099, 0x309A, CM),
        rec(0x309B, 0x309E, NS),
        rec(0x309F, 0x309F, ID),
        rec(0x30A0, 0x30A0, NS),
        rec(0x30A1, 0x30A1, CJ),
        rec(0x30A2, 0x30A2, ID),
        rec(0x30A3, 0x30A3, CJ),
        rec(0x30A4, 0x30A4, ID),
        rec(0x30A5, 0x30A5, CJ),
        rec(0x30A6, 0x30A6, ID),
        rec(0x30A7, 0x30A7, CJ),
        rec(0x30A8, 0x30A8, ID),
        rec(0x30A9, 0x30A9, CJ),
        rec(0x30AA, 0x30C2, ID),
        rec(0x30C3, 0x30C3, CJ),
        rec(0x30C4, 0x30E2, ID),
        rec(0x30E3, 0x30E3, CJ),
        rec(0x30E4, 0x30E4, ID),
        rec(0x30E5, 0x30E5, CJ),
        rec(0x30E6, 0x30E6, ID),
        rec(0x30E7, 0x30E7, CJ),
        rec(0x30E8, 0x30ED, ID),
        rec(0x30EE, 0x30EE, CJ),
        rec(0x30EF, 0x30F4, ID),
        rec(0x30F5, 0x30F6, CJ),
        rec(0x30F7, 0x30FA, ID),
        rec(0x30FB, 0x30FB, NS),
        rec(0x30FC, 0x30FC, CJ),
        rec(0x30FD, 0x30FE, NS),
        rec(0x30FF, 0x30FF, ID),
        rec(0x3105, 0x312F, ID),
        rec(0x3131, 0x318E, ID),
        rec(0x3190, 0x31E3, ID),
        rec(0x31F0, 0x31FF, CJ),
    ]
}

/// Records 0x3200 through 0xA8B3 of the Line_Break map.
pub open spec fn records_part23() -> Seq<Record> {
    seq![
        rec(0x3200, 0x321E, ID),
        rec(0x3220, 0x3247, ID),
        rec(0x3248, 0x324F, AI),
        rec(0x3250, 0x4DBF, ID),
        rec(0x4DC0, 0x4DFF, AL),
        rec(0x4E00, 0xA014, ID),
        rec(0xA015, 0xA015, NS),
        rec(0xA016, 0xA48C, ID),
        rec(0xA490, 0xA4C6, ID),
        rec(0xA4D0, 0xA4FD, AL),
        rec(0xA4FE, 0xA4FF, BA),
        rec(0xA500, 0xA60C, AL),
        rec(0xA60D, 0xA60D, BA),
        rec(0xA60E, 0xA60E, EX),
        rec(0xA60F, 0xA60F, BA),
        rec(0xA610, 0xA61F, AL),
        rec(0xA620, 0xA629, NU),
        rec(0xA62A, 0xA62B, AL),
        rec(0xA640, 0xA66E, AL),
        rec(0xA66F, 0xA672, CM),
        rec(0xA673, 0xA673, AL),
        rec(0xA674, 0xA67D, CM),
        rec(0xA67E, 0xA69D, AL),
        rec(0xA69E, 0xA69F, CM),
        rec(0xA6A0, 0xA6EF, AL),
        rec(0xA6F0, 0xA6F1, CM),
        rec(0xA6F2, 0xA6F2, AL),
        rec(0xA6F3, 0xA6F7, BA),
        rec(0xA700, 0xA7CA, AL),
        rec(0xA7D0, 0xA7D1, AL),
        rec(0xA7D3, 0xA7D3, AL),
        rec(0xA7D5, 0xA7D9, AL),
        rec(0xA7F2, 0xA801, AL),
        rec(0xA802, 0xA802, CM),
        rec(0xA803, 0xA805, AL),
        rec(0xA806, 0xA806, CM),
        rec(0xA807, 0xA80A, AL),
        rec(0xA80B, 0xA80B, CM),
        rec(0xA80C, 0xA822, AL),
        rec(0xA823, 0xA827, CM),
        rec(0xA828, 0xA82B, AL),
        rec(0xA82C, 0xA82C, CM),
        rec(0xA830, 0xA837, AL),
        rec(0xA838, 0xA838, PO),
        rec(0xA839, 0xA839, AL),
        rec(0xA840, 0xA873, AL),
        rec(0xA874, 0xA875, BB),
        rec(0xA876, 0xA877, EX),
        rec(0xA880, 0xA881, CM),
        rec(0xA882, 0xA8B3, AL),
    ]
}

/// Records 0xA8B4 through 0xAB6B of the Line_Break map.
pub open spec fn records_part24() -> Seq<Record> {
    seq![
        rec(0xA8B4, 0xA8C5, CM),
        rec(0xA8CE, 0xA8CF, BA),
        rec(0xA8D0, 0xA8D9, NU),
        rec(0xA8E0, 0xA8F1, CM),
        rec(0xA8F2, 0xA8FB, AL),
        rec(0xA8FC, 0xA8FC, BB),
        rec(0xA8FD, 0xA8FE, AL),
        rec(0xA8FF, 0xA8FF, CM),
        rec(0xA900, 0xA909, NU),
        rec(0xA90A, 0xA925, AL),
        rec(0xA926, 0xA92D, CM),
        rec(0xA92E, 0xA92F, BA),
        rec(0xA930, 0xA946, AL),
        rec(0xA947, 0xA953, CM),
        rec(0xA95F, 0xA95F, AL),
        rec(0xA960, 0xA97C, JL),
        rec(0xA980, 0xA983, CM),
        rec(0xA984, 0xA9B2, AL),
        rec(0xA9B3, 0xA9C0, CM),
        rec(0xA9C1, 0xA9C6, AL),
        rec(0xA9C7, 0xA9C9, BA),
        rec(0xA9CA, 0xA9CD, AL),
        rec(0xA9CF, 0xA9CF, AL),
        rec(0xA9D0, 0xA9D9, NU),
        rec(0xA9DE, 0xA9DF, AL),
        rec(0xA9E0, 0xA9EF, SA),
        rec(0xA9F0, 0xA9F9, NU),
        rec(0xA9FA, 0xA9FE, SA),
        rec(0xAA00, 0xAA28, AL),
        rec(0xAA29, 0xAA36, CM),
        rec(0xAA40, 0xAA42, AL),
        rec(0xAA43, 0xAA43, CM),
        rec(0xAA44, 0xAA4B, AL),
        rec(0xAA4C, 0xAA4D, CM),
        rec(0xAA50, 0xAA59, NU),
        rec(0xAA5C, 0xAA5C, AL),
        rec(0xAA5D, 0xAA5F, BA),
        rec(0xAA60, 0xAAC2, SA),
        rec(0xAADB, 0xAADF, SA),
        rec(0xAAE0, 0xAAEA, AL),
        rec(0xAAEB, 0xAAEF, CM),
        rec(0xAAF0, 0xAAF1, BA),
        rec(0xAAF2, 0xAAF4, AL),
        rec(0xAAF5, 0xAAF6, CM),
        rec(0xAB01, 0xAB06, AL),
        rec(0xAB09, 0xAB0E, AL),
        rec(0xAB11, 0xAB16, AL),
        rec(0xAB20, 0xAB26, AL),
        rec(0xAB28, 0xAB2E, AL),
        rec(0xAB30, 0xAB6B, AL),
    ]
}

/// Records 0xAB70 through 0xAE68 of the Line_Break map.
pub open spec fn records_part25() -> Seq<Record> {
    seq![
        rec(0xAB70, 0xABE2, AL),
        rec(0xABE3, 0xABEA, CM),
        rec(0xABEB, 0xABEB, BA),
        rec(0xABEC, 0xABED, CM),
        rec(0xABF0, 0xABF9, NU),
        rec(0xAC00, 0xAC00, H2),
        rec(0xAC01, 0xAC1B, H3),
        rec(0xAC1C, 0xAC1C, H2),
        rec(0xAC1D, 0xAC37, H3),
        rec(0xAC38, 0xAC38, H2),
        rec(0xAC39, 0xAC53, H3),
        rec(0xAC54, 0xAC54, H2),
        rec(0xAC55, 0xAC6F, H3),
        rec(0xAC70, 0xAC70, H2),
        rec(0xAC71, 0xAC8B, H3),
        rec(0xAC8C, 0xAC8C, H2),
        rec(0xAC8D, 0xACA7, H3),
        rec(0xACA8, 0xACA8, H2),
        rec(0xACA9, 0xACC3, H3),
        rec(0xACC4, 0xACC4, H2),
        rec(0xACC5, 0xACDF, H3),
        rec(0xACE0, 0xACE0, H2),
        rec(0xACE1, 0xACFB, H3),
        rec(0xACFC, 0xACFC, H2),
        rec(0xACFD, 0xAD17, H3),
        rec(0xAD18, 0xAD18, H2),
        rec(0xAD19, 0xAD33, H3),
        rec(0xAD34, 0xAD34, H2),
        rec(0xAD35, 0xAD4F, H3),
        rec(0xAD50, 0xAD50, H2),
        rec(0xAD51, 0xAD6B, H3),
        rec(0xAD6C, 0xAD6C, H2),
        rec(0xAD6D, 0xAD87, H3),
        rec(0xAD88, 0xAD88, H2),
        rec(0xAD89, 0xADA3, H3),
        rec(0xADA4, 0xADA4, H2),
        rec(0xADA5, 0xADBF, H3),
        rec(0xADC0, 0xADC0, H2),
        rec(0xADC1, 0xADDB, H3),
        rec(0xADDC, 0xADDC, H2),
        rec(0xADDD, 0xADF7, H3),
        rec(0xADF8, 0xADF8, H2),
        rec(0xADF9, 0xAE13, H3),
        rec(0xAE14, 0xAE14, H2),
        rec(0xAE15, 0xAE2F, H3),
        rec(0xAE30, 0xAE30, H2),
        rec(0xAE31, 0xAE4B, H3),
        rec(0xAE4C, 0xAE4C, H2),
        rec(0xAE4D, 0xAE67, H3),
        rec(0xAE68, 0xAE68, H2),
    ]
}

/// Records 0xAE69 through 0xB124 of the Line_Break map.
pub open spec fn records_part26() -> Seq<Record> {
    seq![
        rec(0xAE69, 0xAE83, H3),
        rec(0xAE84, 0xAE84, H2),
        rec(0xAE85, 0xAE9F, H3),
        rec(0xAEA0, 0xAEA0, H2),
        rec(0xAEA1, 0xAEBB, H3),
        rec(0xAEBC, 0xAEBC, H2),
        rec(0xAEBD, 0xAED7, H3),
        rec(0xAED8, 0xAED8, H2),
        rec(0xAED9, 0xAEF3, H3),
        rec(0xAEF4, 0xAEF4, H2),
        rec(0xAEF5, 0xAF0F, H3),
        rec(0xAF10, 0xAF10, H2),
        rec(0xAF11, 0xAF2B, H3),
        rec(0xAF2C, 0xAF2C, H2),
        rec(0xAF2D, 0xAF47, H3),
        rec(0xAF48, 0xAF48, H2),
        rec(0xAF49, 0xAF63, H3),
        rec(0xAF64, 0xAF64, H2),
        rec(0xAF65, 0xAF7F, H3),
        rec(0xAF80, 0xAF80, H2),
        rec(0xAF81, 0xAF9B, H3),
        rec(0xAF9C, 0xAF9C, H2),
        rec(0xAF9D, 0xAFB7, H3),
        rec(0xAFB8, 0xAFB8, H2),
        rec(0xAFB9, 0xAFD3, H3),
        rec(0xAFD4, 0xAFD4, H2),
        rec(0xAFD5, 0xAFEF, H3),
        rec(0xAFF0, 0xAFF0, H2),
        rec(0xAFF1, 0xB00B, H3),
        rec(0xB00C, 0xB00C, H2),
        rec(0xB00D, 0xB027, H3),
        rec(0xB028, 0xB028, H2),
        rec(0xB029, 0xB043, H3),
        rec(0xB044, 0xB044, H2),
        rec(0xB045, 0xB05F, H3),
        rec(0xB060, 0xB060, H2),
        rec(0xB061, 0xB07B, H3),
        rec(0xB07C, 0xB07C, H2),
        rec(0xB07D, 0xB097, H3),
        rec(0xB098, 0xB098, H2),
        rec(0xB099, 0xB0B3, H3),
        rec(0xB0B4, 0xB0B4, H2),
        rec(0xB0B5, 0xB0CF, H3),
        rec(0xB0D0, 0xB0D0, H2),
        rec(0xB0D1, 0xB0EB, H3),
        rec(0xB0EC, 0xB0EC, H2),
        rec(0xB0ED, 0xB107, H3),
        rec(0xB108, 0xB108, H2),
        rec(0xB109, 0xB123, H3),
        rec(0xB124, 0xB124, H2),
    ]
}

/// Records 0xB125 through 0xB3E0 of the Line_Break map.
pub open spec fn records_part27() -> Seq<Record> {
    seq![
        rec(0xB125, 0xB13F, H3),
        rec(0xB140, 0xB140, H2),
        rec(0xB141, 0xB15B, H3),
        rec(0xB15C, 0xB15C, H2),
        rec(0xB15D, 0xB177, H3),
        rec(0xB178, 0xB178, H2),
        rec(0xB179, 0xB193, H3),
        rec(0xB194, 0xB194, H2),
        rec(0xB195, 0xB1AF, H3),
        rec(0xB1B0, 0xB1B0, H2),
        rec(0xB1B1, 0xB1CB, H3),
        rec(0xB1CC, 0xB1CC, H2),
        rec(0xB1CD, 0xB1E7, H3),
        rec(0xB1E8, 0xB1E8, H2),
        rec(0xB1E9, 0xB203, H3),
        rec(0xB204, 0xB204, H2),
        rec(0xB205, 0xB21F, H3),
        rec(0xB220, 0xB220, H2),
        rec(0xB221, 0xB23B, H3),
        rec(0xB23C, 0xB23C, H2),
        rec(0xB23D, 0xB257, H3),
        rec(0xB258, 0xB258, H2),
        rec(0xB259, 0xB273, H3),
        rec(0xB274, 0xB274, H2),
        rec(0xB275, 0xB28F, H3),
        rec(0xB290, 0xB290, H2),
        rec(0xB291, 0xB2AB, H3),
        rec(0xB2AC, 0xB2AC, H2),
        rec(0xB2AD, 0xB2C7, H3),
        rec(0xB2C8, 0xB2C8, H2),
        rec(0xB2C9, 0xB2E3, H3),
        rec(0xB2E4, 0xB2E4, H2),
        rec(0xB2E5, 0xB2FF, H3),
        rec(0xB300, 0xB300, H2),
        rec(0xB301, 0xB31B, H3),
        rec(0xB31C, 0xB31C, H2),
        rec(0xB31D, 0xB337, H3),
        rec(0xB338, 0xB338, H2),
        rec(0xB339, 0xB353, H3),
        rec(0xB354, 0xB354, H2),
        rec(0xB355, 0xB36F, H3),
        rec(0xB370, 0xB370, H2),
        rec(0xB371, 0xB38B, H3),
        rec(0xB38C, 0xB38C, H2),
        rec(0xB38D, 0xB3A7, H3),
        rec(0xB3A8, 0xB3A8, H2),
        rec(0xB3A9, 0xB3C3, H3),
        rec(0xB3C4, 0xB3C4, H2),
        rec(0xB3C5, 0xB3DF, H3),
        rec(0xB3E0, 0xB3E0, H2),
    ]
}

/// Records 0xB3E1 through 0xB69C of the Line_Break map.
pub open spec fn records_part28() -> Seq<Record> {
    seq![
        rec(0xB3E1, 0xB3FB, H3),
        rec(0xB3FC, 0xB3FC, H2),
        rec(0xB3FD, 0xB417, H3),
        rec(0xB418, 0xB418, H2),
        rec(0xB419, 0xB433, H3),
        rec(0xB434, 0xB434, H2),
        rec(0xB435, 0xB44F, H3),
        rec(0xB450, 0xB450, H2),
        rec(0xB451, 0xB46B, H3),
        rec(0xB46C, 0xB46C, H2),
        rec(0xB46D, 0xB487, H3),
        rec(0xB488, 0xB488, H2),
        rec(0xB489, 0xB4A3, H3),
        rec(0xB4A4, 0xB4A4, H2),
        rec(0xB4A5, 0xB4BF, H3),
        rec(0xB4C0, 0xB4C0, H2),
        rec(0xB4C1, 0xB4DB, H3),
        rec(0xB4DC, 0xB4DC, H2),
        rec(0xB4DD, 0xB4F7, H3),
        rec(0xB4F8, 0xB4F8, H2),
        rec(0xB4F9, 0xB513, H3),
        rec(0xB514, 0xB514, H2),
        rec(0xB515, 0xB52F, H3),
        rec(0xB530, 0xB530, H2),
        rec(0xB531, 0xB54B, H3),
        rec(0xB54C, 0xB54C, H2),
        rec(0xB54D, 0xB567, H3),
        rec(0xB568, 0xB568, H2),
        rec(0xB569, 0xB583, H3),
        rec(0xB584, 0xB584, H2),
        rec(0xB585, 0xB59F, H3),
        rec(0xB5A0, 0xB5A0, H2),
        rec(0xB5A1, 0xB5BB, H3),
        rec(0xB5BC, 0xB5BC, H2),
        rec(0xB5BD, 0xB5D7, H3),
        rec(0xB5D8, 0xB5D8, H2),
        rec(0xB5D9, 0xB5F3, H3),
        rec(0xB5F4, 0xB5F4, H2),
        rec(0xB5F5, 0xB60F, H3),
        rec(0xB610, 0xB610, H2),
        rec(0xB611, 0xB62B, H3),
        rec(0xB62C, 0xB62C, H2),
        rec(0xB62D, 0xB647, H3),
        rec(0xB648, 0xB648, H2),
        rec(0xB649, 0xB663, H3),
        rec(0xB664, 0xB664, H2),
        rec(0xB665, 0xB67F, H3),
        rec(0xB680, 0xB680, H2),
        rec(0xB681, 0xB69B, H3),
        rec(0xB69C, 0xB69C, H2),
    ]
}

/// Records 0xB69D through 0xB958 of the Line_Break map.
pub open spec fn records_part29() -> Seq<Record> {
    seq![
        rec(0xB69D, 0xB6B7, H3),
        rec(0xB6B8, 0xB6B8, H2),
        rec(0xB6B9, 0xB6D3, H3),
        rec(0xB6D4, 0xB6D4, H2),
        rec(0xB6D5, 0xB6EF, H3),
        rec(0xB6F0, 0xB6F0, H2),
        rec(0xB6F1, 0xB70B, H3),
        rec(0xB70C, 0xB70C, H2),
        rec(0xB70D, 0xB727, H3),
        rec(0xB728, 0xB728, H2),
        rec(0xB729, 0xB743, H3),
        rec(0xB744, 0xB744, H2),
        rec(0xB745, 0xB75F, H3),
        rec(0xB760, 0xB760, H2),
        rec(0xB761, 0xB77B, H3),
        rec(0xB77C, 0xB77C, H2),
        rec(0xB77D, 0xB797, H3),
        rec(0xB798, 0xB798, H2),
        rec(0xB799, 0xB7B3, H3),
        rec(0xB7B4, 0xB7B4, H2),
        rec(0xB7B5, 0xB7CF, H3),
        rec(0xB7D0, 0xB7D0, H2),
        rec(0xB7D1, 0xB7EB, H3),
        rec(0xB7EC, 0xB7EC, H2),
        rec(0xB7ED, 0xB807, H3),
        rec(0xB808, 0xB808, H2),
        rec(0xB809, 0xB823, H3),
        rec(0xB824, 0xB824, H2),
        rec(0xB825, 0xB83F, H3),
        rec(0xB840, 0xB840, H2),
        rec(0xB841, 0xB85B, H3),
        rec(0xB85C, 0xB85C, H2),
        rec(0xB85D, 0xB877, H3),
        rec(0xB878, 0xB878, H2),
        rec(0xB879, 0xB893, H3),
        rec(0xB894, 0xB894, H2),
        rec(0xB895, 0xB8AF, H3),
        rec(0xB8B0, 0xB8B0, H2),
        rec(0xB8B1, 0xB8CB, H3),
        rec(0xB8CC, 0xB8CC, H2),
        rec(0xB8CD, 0xB8E7, H3),
        rec(0xB8E8, 0xB8E8, H2),
        rec(0xB8E9, 0xB903, H3),
        rec(0xB904, 0xB904, H2),
        rec(0xB905, 0xB91F, H3),
        rec(0xB920, 0xB920, H2),
        rec(0xB921, 0xB93B, H3),
        rec(0xB93C, 0xB93C, H2),
        rec(0xB93D, 0xB957, H3),
        rec(0xB958, 0xB958, H2),
    ]
}

/// Records 0xB959 through 0xBC14 of the Line_Break map.
pub open spec fn records_part30() -> Seq<Record> {
    seq![
        rec(0xB959, 0xB973, H3),
        rec(0xB974, 0xB974, H2),
        rec(0xB975, 0xB98F, H3),
        rec(0xB990, 0xB990, H2),
        rec(0xB991, 0xB9AB, H3),
        rec(0xB9AC, 0xB9AC, H2),
        rec(0xB9AD, 0xB9C7, H3),
        rec(0xB9C8, 0xB9C8, H2),
        rec(0xB9C9, 0xB9E3, H3),
        rec(0xB9E4, 0xB9E4, H2),
        rec(0xB9E5, 0xB9FF, H3),
        rec(0xBA00, 0xBA00, H2),
        rec(0xBA01, 0xBA1B, H3),
        rec(0xBA1C, 0xBA1C, H2),
        rec(0xBA1D, 0xBA37, H3),
        rec(0xBA38, 0xBA38, H2),
        rec(0xBA39, 0xBA53, H3),
        rec(0xBA54, 0xBA54, H2),
        rec(0xBA55, 0xBA6F, H3),
        rec(0xBA70, 0xBA70, H2),
        rec(0xBA71, 0xBA8B, H3),
        rec(0xBA8C, 0xBA8C, H2),
        rec(0xBA8D, 0xBAA7, H3),
        rec(0xBAA8, 0xBAA8, H2),
        rec(0xBAA9, 0xBAC3, H3),
        rec(0xBAC4, 0xBAC4, H2),
        rec(0xBAC5, 0xBADF, H3),
        rec(0xBAE0, 0xBAE0, H2),
        rec(0xBAE1, 0xBAFB, H3),
        rec(0xBAFC, 0xBAFC, H2),
        rec(0xBAFD, 0xBB17, H3),
        rec(0xBB18, 0xBB18, H2),
        rec(0xBB19, 0xBB33, H3),
        rec(0xBB34, 0xBB34, H2),
        rec(0xBB35, 0xBB4F, H3),
        rec(0xBB50, 0xBB50, H2),
        rec(0xBB51, 0xBB6B, H3),
        rec(0xBB6C, 0xBB6C, H2),
        rec(0xBB6D, 0xBB87, H3),
        rec(0xBB88, 0xBB88, H2),
        rec(0xBB89, 0xBBA3, H3),
        rec(0xBBA4, 0xBBA4, H2),
        rec(0xBBA5, 0xBBBF, H3),
        rec(0xBBC0, 0xBBC0, H2),
        rec(0xBBC1, 0xBBDB, H3),
        rec(0xBBDC, 0xBBDC, H2),
        rec(0xBBDD, 0xBBF7, H3),
        rec(0xBBF8, 0xBBF8, H2),
        rec(0xBBF9, 0xBC13, H3),
        rec(0xBC14, 0xBC14, H2),
    ]
}

/// Records 0xBC15 through 0xBED0 of the Line_Break map.
pub open spec fn records_part31() -> Seq<Record> {
    seq![
        rec(0xBC15, 0xBC2F, H3),
        rec(0xBC30, 0xBC30, H2),
        rec(0xBC31, 0xBC4B, H3),
        rec(0xBC4C, 0xBC4C, H2),
        rec(0xBC4D, 0xBC67, H3),
        rec(0xBC68, 0xBC68, H2),
        rec(0xBC69, 0xBC83, H3),
        rec(0xBC84, 0xBC84, H2),
        rec(0xBC85, 0xBC9F, H3),
        rec(0xBCA0, 0xBCA0, H2),
        rec(0xBCA1, 0xBCBB, H3),
        rec(0xBCBC, 0xBCBC, H2),
        rec(0xBCBD, 0xBCD7, H3),
        rec(0xBCD8, 0xBCD8, H2),
        rec(0xBCD9, 0xBCF3, H3),
        rec(0xBCF4, 0xBCF4, H2),
        rec(0xBCF5, 0xBD0F, H3),
        rec(0xBD10, 0xBD10, H2),
        rec(0xBD11, 0xBD2B, H3),
        rec(0xBD2C, 0xBD2C, H2),
        rec(0xBD2D, 0xBD47, H3),
        rec(0xBD48, 0xBD48, H2),
        rec(0xBD49, 0xBD63, H3),
        rec(0xBD64, 0xBD64, H2),
        rec(0xBD65, 0xBD7F, H3),
        rec(0xBD80, 0xBD80, H2),
        rec(0xBD81, 0xBD9B, H3),
        rec(0xBD9C, 0xBD9C, H2),
        rec(0xBD9D, 0xBDB7, H3),
        rec(0xBDB8, 0xBDB8, H2),
        rec(0xBDB9, 0xBDD3, H3),
        rec(0xBDD4, 0xBDD4, H2),
        rec(0xBDD5, 0xBDEF, H3),
        rec(0xBDF0, 0xBDF0, H2),
        rec(0xBDF1, 0xBE0B, H3),
        rec(0xBE0C, 0xBE0C, H2),
        rec(0xBE0D, 0xBE27, H3),
        rec(0xBE28, 0xBE28, H2),
        rec(0xBE29, 0xBE43, H3),
        rec(0xBE44, 0xBE44, H2),
        rec(0xBE45, 0xBE5F, H3),
        rec(0xBE60, 0xBE60, H2),
        rec(0xBE61, 0xBE7B, H3),
        rec(0xBE7C, 0xBE7C, H2),
        rec(0xBE7D, 0xBE97, H3),
        rec(0xBE98, 0xBE98, H2),
        rec(0xBE99, 0xBEB3, H3),
        rec(0xBEB4, 0xBEB4, H2),
        rec(0xBEB5, 0xBECF, H3),
        rec(0xBED0, 0xBED0, H2),
    ]
}

/// Records 0xBED1 through 0xC18C of the Line_Break map.
pub open spec fn records_part32() -> Seq<Record> {
    seq![
        rec(0xBED1, 0xBEEB, H3),
        rec(0xBEEC, 0xBEEC, H2),
        rec(0xBEED, 0xBF07, H3),
        rec(0xBF08, 0xBF08, H2),
        rec(0xBF09, 0xBF23, H3),
        rec(0xBF24, 0xBF24, H2),
        rec(0xBF25, 0xBF3F, H3),
        rec(0xBF40, 0xBF40, H2),
        rec(0xBF41, 0xBF5B, H3),
        rec(0xBF5C, 0xBF5C, H2),
        rec(0xBF5D, 0xBF77, H3),
        rec(0xBF78, 0xBF78, H2),
        rec(0xBF79, 0xBF93, H3),
        rec(0xBF94, 0xBF94, H2),
        rec(0xBF95, 0xBFAF, H3),
        rec(0xBFB0, 0xBFB0, H2),
        rec(0xBFB1, 0xBFCB, H3),
        rec(0xBFCC, 0xBFCC, H2),
        rec(0xBFCD, 0xBFE7, H3),
        rec(0xBFE8, 0xBFE8, H2),
        rec(0xBFE9, 0xC003, H3),
        rec(0xC004, 0xC004, H2),
        rec(0xC005, 0xC01F, H3),
        rec(0xC020, 0xC020, H2),
        rec(0xC021, 0xC03B, H3),
        rec(0xC03C, 0xC03C, H2),
        rec(0xC03D, 0xC057, H3),
        rec(0xC058, 0xC058, H2),
        rec(0xC059, 0xC073, H3),
        rec(0xC074, 0xC074, H2),
        rec(0xC075, 0xC08F, H3),
        rec(0xC090, 0xC090, H2),
        rec(0xC091, 0xC0AB, H3),
        rec(0xC0AC, 0xC0AC, H2),
        rec(0xC0AD, 0xC0C7, H3),
        rec(0xC0C8, 0xC0C8, H2),
        rec(0xC0C9, 0xC0E3, H3),
        rec(0xC0E4, 0xC0E4, H2),
        rec(0xC0E5, 0xC0FF, H3),
        rec(0xC100, 0xC100, H2),
        rec(0xC101, 0xC11B, H3),
        rec(0xC11C, 0xC11C, H2),
        rec(0xC11D, 0xC137, H3),
        rec(0xC138, 0xC138, H2),
        rec(0xC139, 0xC153, H3),
        rec(0xC154, 0xC154, H2),
        rec(0xC155, 0xC16F, H3),
        rec(0xC170, 0xC170, H2),
        rec(0xC171, 0xC18B, H3),
        rec(0xC18C, 0xC18C, H2),
    ]
}

/// Records 0xC18D through 0xC448 of the Line_Break map.
pub open spec fn records_part33() -> Seq<Record> {
    seq![
        rec(0xC18D, 0xC1A7, H3),
        rec(0xC1A8, 0xC1A8, H2),
        rec(0xC1A9, 0xC1C3, H3),
        rec(0xC1C4, 0xC1C4, H2),
        rec(0xC1C5, 0xC1DF, H3),
        rec(0xC1E0, 0xC1E0, H2),
        rec(0xC1E1, 0xC1FB, H3),
        rec(0xC1FC, 0xC1FC, H2),
        rec(0xC1FD, 0xC217, H3),
        rec(0xC218, 0xC218, H2),
        rec(0xC219, 0xC233, H3),
        rec(0xC234, 0xC234, H2),
        rec(0xC235, 0xC24F, H3),
        rec(0xC250, 0xC250, H2),
        rec(0xC251, 0xC26B, H3),
        rec(0xC26C, 0xC26C, H2),
        rec(0xC26D, 0xC287, H3),
        rec(0xC288, 0xC288, H2),
        rec(0xC289, 0xC2A3, H3),
        rec(0xC2A4, 0xC2A4, H2),
        rec(0xC2A5, 0xC2BF, H3),
        rec(0xC2C0, 0xC2C0, H2),
        rec(0xC2C1, 0xC2DB, H3),
        rec(0xC2DC, 0xC2DC, H2),
        rec(0xC2DD, 0xC2F7, H3),
        rec(0xC2F8, 0xC2F8, H2),
        rec(0xC2F9, 0xC313, H3),
        rec(0xC314, 0xC314, H2),
        rec(0xC315, 0xC32F, H3),
        rec(0xC330, 0xC330, H2),
        rec(0xC331, 0xC34B, H3),
        rec(0xC34C, 0xC34C, H2),
        rec(0xC34D, 0xC367, H3),
        rec(0xC368, 0xC368, H2),
        rec(0xC369, 0xC383, H3),
        rec(0xC384, 0xC384, H2),
        rec(0xC385, 0xC39F, H3),
        rec(0xC3A0, 0xC3A0, H2),
        rec(0xC3A1, 0xC3BB, H3),
        rec(0xC3BC, 0xC3BC, H2),
        rec(0xC3BD, 0xC3D7, H3),
        rec(0xC3D8, 0xC3D8, H2),
        rec(0xC3D9, 0xC3F3, H3),
        rec(0xC3F4, 0xC3F4, H2),
        rec(0xC3F5, 0xC40F, H3),
        rec(0xC410, 0xC410, H2),
        rec(0xC411, 0xC42B, H3),
        rec(0xC42C, 0xC42C, H2),
        rec(0xC42D, 0xC447, H3),
        rec(0xC448, 0xC448, H2),
    ]
}

/// Records 0xC449 through 0xC704 of the Line_Break map.
pub open spec fn records_part34() -> Seq<Record> {
    seq![
        rec(0xC449, 0xC463, H3),
        rec(0xC464, 0xC464, H2),
        rec(0xC465, 0xC47F, H3),
        rec(0xC480, 0xC480, H2),
        rec(0xC481, 0xC49B, H3),
        rec(0xC49C, 0xC49C, H2),
        rec(0xC49D, 0xC4B7, H3),
        rec(0xC4B8, 0xC4B8, H2),
        rec(0xC4B9, 0xC4D3, H3),
        rec(0xC4D4, 0xC4D4, H2),
        rec(0xC4D5, 0xC4EF, H3),
        rec(0xC4F0, 0xC4F0, H2),
        rec(0xC4F1, 0xC50B, H3),
        rec(0xC50C, 0xC50C, H2),
        rec(0xC50D, 0xC527, H3),
        rec(0xC528, 0xC528, H2),
        rec(0xC529, 0xC543, H3),
        rec(0xC544, 0xC544, H2),
        rec(0xC545, 0xC55F, H3),
        rec(0xC560, 0xC560, H2),
        rec(0xC561, 0xC57B, H3),
        rec(0xC57C, 0xC57C, H2),
        rec(0xC57D, 0xC597, H3),
        rec(0xC598, 0xC598, H2),
        rec(0xC599, 0xC5B3, H3),
        rec(0xC5B4, 0xC5B4, H2),
        rec(0xC5B5, 0xC5CF, H3),
        rec(0xC5D0, 0xC5D0, H2),
        rec(0xC5D1, 0xC5EB, H3),
        rec(0xC5EC, 0xC5EC, H2),
        rec(0xC5ED, 0xC607, H3),
        rec(0xC608, 0xC608, H2),
        rec(0xC609, 0xC623, H3),
        rec(0xC624, 0xC624, H2),
        rec(0xC625, 0xC63F, H3),
        rec(0xC640, 0xC640, H2),
        rec(0xC641, 0xC65B, H3),
        rec(0xC65C, 0xC65C, H2),
        rec(0xC65D, 0xC677, H3),
        rec(0xC678, 0xC678, H2),
        rec(0xC679, 0xC693, H3),
        rec(0xC694, 0xC694, H2),
        rec(0xC695, 0xC6AF, H3),
        rec(0xC6B0, 0xC6B0, H2),
        rec(0xC6B1, 0xC6CB, H3),
        rec(0xC6CC, 0xC6CC, H2),
        rec(0xC6CD, 0xC6E7, H3),
        rec(0xC6E8, 0xC6E8, H2),
        rec(0xC6E9, 0xC703, H3),
        rec(0xC704, 0xC704, H2),
    ]
}

/// Records 0xC705 through 0xC9C0 of the Line_Break map.
pub open spec fn records_part35() -> Seq<Record> {
    seq![
        rec(0xC705, 0xC71F, H3),
        rec(0xC720, 0xC720, H2),
        rec(0xC721, 0xC73B, H3),
        rec(0xC73C, 0xC73C, H2),
        rec(0xC73D, 0xC757, H3),
        rec(0xC758, 0xC758, H2),
        rec(0xC759, 0xC773, H3),
        rec(0xC774, 0xC774, H2),
        rec(0xC775, 0xC78F, H3),
        rec(0xC790, 0xC790, H2),
        rec(0xC791, 0xC7AB, H3),
        rec(0xC7AC, 0xC7AC, H2),
        rec(0xC7AD, 0xC7C7, H3),
        rec(0xC7C8, 0xC7C8, H2),
        rec(0xC7C9, 0xC7E3, H3),
        rec(0xC7E4, 0xC7E4, H2),
        rec(0xC7E5, 0xC7FF, H3),
        rec(0xC800, 0xC800, H2),
        rec(0xC801, 0xC81B, H3),
        rec(0xC81C, 0xC81C, H2),
        rec(0xC81D, 0xC837, H3),
        rec(0xC838, 0xC838, H2),
        rec(0xC839, 0xC853, H3),
        rec(0xC854, 0xC854, H2),
        rec(0xC855, 0xC86F, H3),
        rec(0xC870, 0xC870, H2),
        rec(0xC871, 0xC88B, H3),
        rec(0xC88C, 0xC88C, H2),
        rec(0xC88D, 0xC8A7, H3),
        rec(0xC8A8, 0xC8A8, H2),
        rec(0xC8A9, 0xC8C3, H3),
        rec(0xC8C4, 0xC8C4, H2),
        rec(0xC8C5, 0xC8DF, H3),
        rec(0xC8E0, 0xC8E0, H2),
        rec(0xC8E1, 0xC8FB, H3),
        rec(0xC8FC, 0xC8FC, H2),
        rec(0xC8FD, 0xC917, H3),
        rec(0xC918, 0xC918, H2),
        rec(0xC919, 0xC933, H3),
        rec(0xC934, 0xC934, H2),
        rec(0xC935, 0xC94F, H3),
        rec(0xC950, 0xC950, H2),
        rec(0xC951, 0xC96B, H3),
        rec(0xC96C, 0xC96C, H2),
        rec(0xC96D, 0xC987, H3),
        rec(0xC988, 0xC988, H2),
        rec(0xC989, 0xC9A3, H3),
        rec(0xC9A4, 0xC9A4, H2),
        rec(0xC9A5, 0xC9BF, H3),
        rec(0xC9C0, 0xC9C0, H2),
    ]
}

/// Records 0xC9C1 through 0xCC7C of the Line_Break map.
pub open spec fn records_part36() -> Seq<Record> {
    seq![
        rec(0xC9C1, 0xC9DB, H3),
        rec(0xC9DC, 0xC9DC, H2),
        rec(0xC9DD, 0xC9F7, H3),
        rec(0xC9F8, 0xC9F8, H2),
        rec(0xC9F9, 0xCA13, H3),
        rec(0xCA14, 0xCA14, H2),
        rec(0xCA15, 0xCA2F, H3),
        rec(0xCA30, 0xCA30, H2),
        rec(0xCA31, 0xCA4B, H3),
        rec(0xCA4C, 0xCA4C, H2),
        rec(0xCA4D, 0xCA67, H3),
        rec(0xCA68, 0xCA68, H2),
        rec(0xCA69, 0xCA83, H3),
        rec(0xCA84, 0xCA84, H2),
        rec(0xCA85, 0xCA9F, H3),
        rec(0xCAA0, 0xCAA0, H2),
        rec(0xCAA1, 0xCABB, H3),
        rec(0xCABC, 0xCABC, H2),
        rec(0xCABD, 0xCAD7, H3),
        rec(0xCAD8, 0xCAD8, H2),
        rec(0xCAD9, 0xCAF3, H3),
        rec(0xCAF4, 0xCAF4, H2),
        rec(0xCAF5, 0xCB0F, H3),
        rec(0xCB10, 0xCB10, H2),
        rec(0xCB11, 0xCB2B, H3),
        rec(0xCB2C, 0xCB2C, H2),
        rec(0xCB2D, 0xCB47, H3),
        rec(0xCB48, 0xCB48, H2),
        rec(0xCB49, 0xCB63, H3),
        rec(0xCB64, 0xCB64, H2),
        rec(0xCB65, 0xCB7F, H3),
        rec(0xCB80, 0xCB80, H2),
        rec(0xCB81, 0xCB9B, H3),
        rec(0xCB9C, 0xCB9C, H2),
        rec(0xCB9D, 0xCBB7, H3),
        rec(0xCBB8, 0xCBB8, H2),
        rec(0xCBB9, 0xCBD3, H3),
        rec(0xCBD4, 0xCBD4, H2),
        rec(0xCBD5, 0xCBEF, H3),
        rec(0xCBF0, 0xCBF0, H2),
        rec(0xCBF1, 0xCC0B, H3),
        rec(0xCC0C, 0xCC0C, H2),
        rec(0xCC0D, 0xCC27, H3),
        rec(0xCC28, 0xCC28, H2),
        rec(0xCC29, 0xCC43, H3),
        rec(0xCC44, 0xCC44, H2),
        rec(0xCC45, 0xCC5F, H3),
        rec(0xCC60, 0xCC60, H2),
        rec(0xCC61, 0xCC7B, H3),
        rec(0xCC7C, 0xCC7C, H2),
    ]
}

/// Records 0xCC7D through 0xCF38 of the Line_Break map.
pub open spec fn records_part37() -> Seq<Record> {
    seq![
        rec(0xCC7D, 0xCC97, H3),
        rec(0xCC98, 0xCC98, H2),
        rec(0xCC99, 0xCCB3, H3),
        rec(0xCCB4, 0xCCB4, H2),
        rec(0xCCB5, 0xCCCF, H3),
        rec(0xCCD0, 0xCCD0, H2),
        rec(0xCCD1, 0xCCEB, H3),
        rec(0xCCEC, 0xCCEC, H2),
        rec(0xCCED, 0xCD07, H3),
        rec(0xCD08, 0xCD08, H2),
        rec(0xCD09, 0xCD23, H3),
        rec(0xCD24, 0xCD24, H2),
        rec(0xCD25, 0xCD3F, H3),
        rec(0xCD40, 0xCD40, H2),
        rec(0xCD41, 0xCD5B, H3),
        rec(0xCD5C, 0xCD5C, H2),
        rec(0xCD5D, 0xCD77, H3),
        rec(0xCD78, 0xCD78, H2),
        rec(0xCD79, 0xCD93, H3),
        rec(0xCD94, 0xCD94, H2),
        rec(0xCD95, 0xCDAF, H3),
        rec(0xCDB0, 0xCDB0, H2),
        rec(0xCDB1, 0xCDCB, H3),
        rec(0xCDCC, 0xCDCC, H2),
        rec(0xCDCD, 0xCDE7, H3),
        rec(0xCDE8, 0xCDE8, H2),
        rec(0xCDE9, 0xCE03, H3),
        rec(0xCE04, 0xCE04, H2),
        rec(0xCE05, 0xCE1F, H3),
        rec(0xCE20, 0xCE20, H2),
        rec(0xCE21, 0xCE3B, H3),
        rec(0xCE3C, 0xCE3C, H2),
        rec(0xCE3D, 0xCE57, H3),
        rec(0xCE58, 0xCE58, H2),
        rec(0xCE59, 0xCE73, H3),
        rec(0xCE74, 0xCE74, H2),
        rec(0xCE75, 0xCE8F, H3),
        rec(0xCE90, 0xCE90, H2),
        rec(0xCE91, 0xCEAB, H3),
        rec(0xCEAC, 0xCEAC, H2),
        rec(0xCEAD, 0xCEC7, H3),
        rec(0xCEC8, 0xCEC8, H2),
        rec(0xCEC9, 0xCEE3, H3),
        rec(0xCEE4, 0xCEE4, H2),
        rec(0xCEE5, 0xCEFF, H3),
        rec(0xCF00, 0xCF00, H2),
        rec(0xCF01, 0xCF1B, H3),
        rec(0xCF1C, 0xCF1C, H2),
        rec(0xCF1D, 0xCF37, H3),
        rec(0xCF38, 0xCF38, H2),
    ]
}

/// Records 0xCF39 through 0xD1F4 of the Line_Break map.
pub open spec fn records_part38() -> Seq<Record> {
    seq![
        rec(0xCF39, 0xCF53, H3),
        rec(0xCF54, 0xCF54, H2),
        rec(0xCF55, 0xCF6F, H3),
        rec(0xCF70, 0xCF70, H2),
        rec(0xCF71, 0xCF8B, H3),
        rec(0xCF8C, 0xCF8C, H2),
        rec(0xCF8D, 0xCFA7, H3),
        rec(0xCFA8, 0xCFA8, H2),
        rec(0xCFA9, 0xCFC3, H3),
        rec(0xCFC4, 0xCFC4, H2),
        rec(0xCFC5, 0xCFDF, H3),
        rec(0xCFE0, 0xCFE0, H2),
        rec(0xCFE1, 0xCFFB, H3),
        rec(0xCFFC, 0xCFFC, H2),
        rec(0xCFFD, 0xD017, H3),
        rec(0xD018, 0xD018, H2),
        rec(0xD019, 0xD033, H3),
        rec(0xD034, 0xD034, H2),
        rec(0xD035, 0xD04F, H3),
        rec(0xD050, 0xD050, H2),
        rec(0xD051, 0xD06B, H3),
        rec(0xD06C, 0xD06C, H2),
        rec(0xD06D, 0xD087, H3),
        rec(0xD088, 0xD088, H2),
        rec(0xD089, 0xD0A3, H3),
        rec(0xD0A4, 0xD0A4, H2),
        rec(0xD0A5, 0xD0BF, H3),
        rec(0xD0C0, 0xD0C0, H2),
        rec(0xD0C1, 0xD0DB, H3),
        rec(0xD0DC, 0xD0DC, H2),
        rec(0xD0DD, 0xD0F7, H3),
        rec(0xD0F8, 0xD0F8, H2),
        rec(0xD0F9, 0xD113, H3),
        rec(0xD114, 0xD114, H2),
        rec(0xD115, 0xD12F, H3),
        rec(0xD130, 0xD130, H2),
        rec(0xD131, 0xD14B, H3),
        rec(0xD14C, 0xD14C, H2),
        rec(0xD14D, 0xD167, H3),
        rec(0xD168, 0xD168, H2),
        rec(0xD169, 0xD183, H3),
        rec(0xD184, 0xD184, H2),
        rec(0xD185, 0xD19F, H3),
        rec(0xD1A0, 0xD1A0, H2),
        rec(0xD1A1, 0xD1BB, H3),
        rec(0xD1BC, 0xD1BC, H2),
        rec(0xD1BD, 0xD1D7, H3),
        rec(0xD1D8, 0xD1D8, H2),
        rec(0xD1D9, 0xD1F3, H3),
        rec(0xD1F4, 0xD1F4, H2),
    ]
}

/// Records 0xD1F5 through 0xD4B0 of the Line_Break map.
pub open spec fn records_part39() -> Seq<Record> {
    seq![
        rec(0xD1F5, 0xD20F, H3),
        rec(0xD210, 0xD210, H2),
        rec(0xD211, 0xD22B, H3),
        rec(0xD22C, 0xD22C, H2),
        rec(0xD22D, 0xD247, H3),
        rec(0xD248, 0xD248, H2),
        rec(0xD249, 0xD263, H3),
        rec(0xD264, 0xD264, H2),
        rec(0xD265, 0xD27F, H3),
        rec(0xD280, 0xD280, H2),
        rec(0xD281, 0xD29B, H3),
        rec(0xD29C, 0xD29C, H2),
        rec(0xD29D, 0xD2B7, H3),
        rec(0xD2B8, 0xD2B8, H2),
        rec(0xD2B9, 0xD2D3, H3),
        rec(0xD2D4, 0xD2D4, H2),
        rec(0xD2D5, 0xD2EF, H3),
        rec(0xD2F0, 0xD2F0, H2),
        rec(0xD2F1, 0xD30B, H3),
        rec(0xD30C, 0xD30C, H2),
        rec(0xD30D, 0xD327, H3),
        rec(0xD328, 0xD328, H2),
        rec(0xD329, 0xD343, H3),
        rec(0xD344, 0xD344, H2),
        rec(0xD345, 0xD35F, H3),
        rec(0xD360, 0xD360, H2),
        rec(0xD361, 0xD37B, H3),
        rec(0xD37C, 0xD37C, H2),
        rec(0xD37D, 0xD397, H3),
        rec(0xD398, 0xD398, H2),
        rec(0xD399, 0xD3B3, H3),
        rec(0xD3B4, 0xD3B4, H2),
        rec(0xD3B5, 0xD3CF, H3),
        rec(0xD3D0, 0xD3D0, H2),
        rec(0xD3D1, 0xD3EB, H3),
        rec(0xD3EC, 0xD3EC, H2),
        rec(0xD3ED, 0xD407, H3),
        rec(0xD408, 0xD408, H2),
        rec(0xD409, 0xD423, H3),
        rec(0xD424, 0xD424, H2),
        rec(0xD425, 0xD43F, H3),
        rec(0xD440, 0xD440, H2),
        rec(0xD441, 0xD45B, H3),
        rec(0xD45C, 0xD45C, H2),
        rec(0xD45D, 0xD477, H3),
        rec(0xD478, 0xD478, H2),
        rec(0xD479, 0xD493, H3),
        rec(0xD494, 0xD494, H2),
        rec(0xD495, 0xD4AF, H3),
        rec(0xD4B0, 0xD4B0, H2),
    ]
}

/// Records 0xD4B1 through 0xD76C of the Line_Break map.
pub open spec fn records_part40() -> Seq<Record> {
    seq![
        rec(0xD4B1, 0xD4CB, H3),
        rec(0xD4CC, 0xD4CC, H2),
        rec(0xD4CD, 0xD4E7, H3),
        rec(0xD4E8, 0xD4E8, H2),
        rec(0xD4E9, 0xD503, H3),
        rec(0xD504, 0xD504, H2),
        rec(0xD505, 0xD51F, H3),
        rec(0xD520, 0xD520, H2),
        rec(0xD521, 0xD53B, H3),
        rec(0xD53C, 0xD53C, H2),
        rec(0xD53D, 0xD557, H3),
        rec(0xD558, 0xD558, H2),
        rec(0xD559, 0xD573, H3),
        rec(0xD574, 0xD574, H2),
        rec(0xD575, 0xD58F, H3),
        rec(0xD590, 0xD590, H2),
        rec(0xD591, 0xD5AB, H3),
        rec(0xD5AC, 0xD5AC, H2),
        rec(0xD5AD, 0xD5C7, H3),
        rec(0xD5C8, 0xD5C8, H2),
        rec(0xD5C9, 0xD5E3, H3),
        rec(0xD5E4, 0xD5E4, H2),
        rec(0xD5E5, 0xD5FF, H3),
        rec(0xD600, 0xD600, H2),
        rec(0xD601, 0xD61B, H3),
        rec(0xD61C, 0xD61C, H2),
        rec(0xD61D, 0xD637, H3),
        rec(0xD638, 0xD638, H2),
        rec(0xD639, 0xD653, H3),
        rec(0xD654, 0xD654, H2),
        rec(0xD655, 0xD66F, H3),
        rec(0xD670, 0xD670, H2),
        rec(0xD671, 0xD68B, H3),
        rec(0xD68C, 0xD68C, H2),
        rec(0xD68D, 0xD6A7, H3),
        rec(0xD6A8, 0xD6A8, H2),
        rec(0xD6A9, 0xD6C3, H3),
        rec(0xD6C4, 0xD6C4, H2),
        rec(0xD6C5, 0xD6DF, H3),
        rec(0xD6E0, 0xD6E0, H2),
        rec(0xD6E1, 0xD6FB, H3),
        rec(0xD6FC, 0xD6FC, H2),
        rec(0xD6FD, 0xD717, H3),
        rec(0xD718, 0xD718, H2),
        rec(0xD719, 0xD733, H3),
        rec(0xD734, 0xD734, H2),
        rec(0xD735, 0xD74F, H3),
        rec(0xD750, 0xD750, H2),
        rec(0xD751, 0xD76B, H3),
        rec(0xD76C, 0xD76C, H2),
    ]
}

/// Records 0xD76D through 0xFE3F of the Line_Break map.
pub open spec fn records_part41() -> Seq<Record> {
    seq![
        rec(0xD76D, 0xD787, H3),
        rec(0xD788, 0xD788, H2),
        rec(0xD789, 0xD7A3, H3),
        rec(0xD7B0, 0xD7C6, JV),
        rec(0xD7CB, 0xD7FB, JT),
        rec(0xD800, 0xDFFF, SG),
        rec(0xF900, 0xFAFF, ID),
        rec(0xFB00, 0xFB06, AL),
        rec(0xFB13, 0xFB17, AL),
        rec(0xFB1D, 0xFB1D, HL),
        rec(0xFB1E, 0xFB1E, CM),
        rec(0xFB1F, 0xFB28, HL),
        rec(0xFB29, 0xFB29, AL),
        rec(0xFB2A, 0xFB36, HL),
        rec(0xFB38, 0xFB3C, HL),
        rec(0xFB3E, 0xFB3E, HL),
        rec(0xFB40, 0xFB41, HL),
        rec(0xFB43, 0xFB44, HL),
        rec(0xFB46, 0xFB4F, HL),
        rec(0xFB50, 0xFBC2, AL),
        rec(0xFBD3, 0xFD3D, AL),
        rec(0xFD3E, 0xFD3E, CL),
        rec(0xFD3F, 0xFD3F, OP),
        rec(0xFD40, 0xFD8F, AL),
        rec(0xFD92, 0xFDC7, AL),
        rec(0xFDCF, 0xFDCF, AL),
        rec(0xFDF0, 0xFDFB, AL),
        rec(0xFDFC, 0xFDFC, PO),
        rec(0xFDFD, 0xFDFF, AL),
        rec(0xFE00, 0xFE0F, CM),
        rec(0xFE10, 0xFE10, IS),
        rec(0xFE11, 0xFE12, CL),
        rec(0xFE13, 0xFE14, IS),
        rec(0xFE15, 0xFE16, EX),
        rec(0xFE17, 0xFE17, OP),
        rec(0xFE18, 0xFE18, CL),
        rec(0xFE19, 0xFE19, IN),
        rec(0xFE20, 0xFE2F, CM),
        rec(0xFE30, 0xFE34, ID),
        rec(0xFE35, 0xFE35, OP),
        rec(0xFE36, 0xFE36, CL),
        rec(0xFE37, 0xFE37, OP),
        rec(0xFE38, 0xFE38, CL),
        rec(0xFE39, 0xFE39, OP),
        rec(0xFE3A, 0xFE3A, CL),
        rec(0xFE3B, 0xFE3B, OP),
        rec(0xFE3C, 0xFE3C, CL),
        rec(0xFE3D, 0xFE3D, OP),
        rec(0xFE3E, 0xFE3E, CL),
        rec(0xFE3F, 0xFE3F, OP),
    ]
}

/// Records 0xFE40 through 0xFF5B of the Line_Break map.
pub open spec fn records_part42() -> Seq<Record> {
    seq![
        rec(0xFE40, 0xFE40, CL),
        rec(0xFE41, 0xFE41, OP),
        rec(0xFE42, 0xFE42, CL),
        rec(0xFE43, 0xFE43, OP),
        rec(0xFE44, 0xFE44, CL),
        rec(0xFE45, 0xFE46, ID),
        rec(0xFE47, 0xFE47, OP),
        rec(0xFE48, 0xFE48, CL),
        rec(0xFE49, 0xFE4F, ID),
        rec(0xFE50, 0xFE50, CL),
        rec(0xFE51, 0xFE51, ID),
        rec(0xFE52, 0xFE52, CL),
        rec(0xFE54, 0xFE55, NS),
        rec(0xFE56, 0xFE57, EX),
        rec(0xFE58, 0xFE58, ID),
        rec(0xFE59, 0xFE59, OP),
        rec(0xFE5A, 0xFE5A, CL),
        rec(0xFE5B, 0xFE5B, OP),
        rec(0xFE5C, 0xFE5C, CL),
        rec(0xFE5D, 0xFE5D, OP),
        rec(0xFE5E, 0xFE5E, CL),
        rec(0xFE5F, 0xFE66, ID),
        rec(0xFE68, 0xFE68, ID),
        rec(0xFE69, 0xFE69, PR),
        rec(0xFE6A, 0xFE6A, PO),
        rec(0xFE6B, 0xFE6B, ID),
        rec(0xFE70, 0xFE74, AL),
        rec(0xFE76, 0xFEFC, AL),
        rec(0xFEFF, 0xFEFF, WJ),
        rec(0xFF01, 0xFF01, EX),
        rec(0xFF02, 0xFF03, ID),
        rec(0xFF04, 0xFF04, PR),
        rec(0xFF05, 0xFF05, PO),
        rec(0xFF06, 0xFF07, ID),
        rec(0xFF08, 0xFF08, OP),
        rec(0xFF09, 0xFF09, CL),
        rec(0xFF0A, 0xFF0B, ID),
        rec(0xFF0C, 0xFF0C, CL),
        rec(0xFF0D, 0xFF0D, ID),
        rec(0xFF0E, 0xFF0E, CL),
        rec(0xFF0F, 0xFF19, ID),
        rec(0xFF1A, 0xFF1B, NS),
        rec(0xFF1C, 0xFF1E, ID),
        rec(0xFF1F, 0xFF1F, EX),
        rec(0xFF20, 0xFF3A, ID),
        rec(0xFF3B, 0xFF3B, OP),
        rec(0xFF3C, 0xFF3C, ID),
        rec(0xFF3D, 0xFF3D, CL),
        rec(0xFF3E, 0xFF5A, ID),
        rec(0xFF5B, 0xFF5B, OP),
    ]
}

/// Records 0xFF5C through 0x103C3 of the Line_Break map.
pub open spec fn records_part43() -> Seq<Record> {
    seq![
        rec(0xFF5C, 0xFF5C, ID),
        rec(0xFF5D, 0xFF5D, CL),
        rec(0xFF5E, 0xFF5E, ID),
        rec(0xFF5F, 0xFF5F, OP),
        rec(0xFF60, 0xFF61, CL),
        rec(0xFF62, 0xFF62, OP),
        rec(0xFF63, 0xFF64, CL),
        rec(0xFF65, 0xFF65, NS),
        rec(0xFF66, 0xFF66, ID),
        rec(0xFF67, 0xFF70, CJ),
        rec(0xFF71, 0xFF9D, ID),
        rec(0xFF9E, 0xFF9F, NS),
        rec(0xFFA0, 0xFFBE, ID),
        rec(0xFFC2, 0xFFC7, ID),
        rec(0xFFCA, 0xFFCF, ID),
        rec(0xFFD2, 0xFFD7, ID),
        rec(0xFFDA, 0xFFDC, ID),
        rec(0xFFE0, 0xFFE0, PO),
        rec(0xFFE1, 0xFFE1, PR),
        rec(0xFFE2, 0xFFE4, ID),
        rec(0xFFE5, 0xFFE6, PR),
        rec(0xFFE8, 0xFFEE, AL),
        rec(0xFFF9, 0xFFFB, CM),
        rec(0xFFFC, 0xFFFC, CB),
        rec(0xFFFD, 0xFFFD, AI),
        rec(0x10000, 0x1000B, AL),
        rec(0x1000D, 0x10026, AL),
        rec(0x10028, 0x1003A, AL),
        rec(0x1003C, 0x1003D, AL),
        rec(0x1003F, 0x1004D, AL),
        rec(0x10050, 0x1005D, AL),
        rec(0x10080, 0x100FA, AL),
        rec(0x10100, 0x10102, BA),
        rec(0x10107, 0x10133, AL),
        rec(0x10137, 0x1018E, AL),
        rec(0x10190, 0x1019C, AL),
        rec(0x101A0, 0x101A0, AL),
        rec(0x101D0, 0x101FC, AL),
        rec(0x101FD, 0x101FD, CM),
        rec(0x10280, 0x1029C, AL),
        rec(0x102A0, 0x102D0, AL),
        rec(0x102E0, 0x102E0, CM),
        rec(0x102E1, 0x102FB, AL),
        rec(0x10300, 0x10323, AL),
        rec(0x1032D, 0x1034A, AL),
        rec(0x10350, 0x10375, AL),
        rec(0x10376, 0x1037A, CM),
        rec(0x10380, 0x1039D, AL),
        rec(0x1039F, 0x1039F, BA),
        rec(0x103A0, 0x103C3, AL),
    ]
}

/// Records 0x103C8 through 0x10A48 of the Line_Break map.
pub open spec fn records_part44() -> Seq<Record> {
    seq![
        rec(0x103C8, 0x103CF, AL),
        rec(0x103D0, 0x103D0, BA),
        rec(0x103D1, 0x103D5, AL),
        rec(0x10400, 0x1049D, AL),
        rec(0x104A0, 0x104A9, NU),
        rec(0x104B0, 0x104D3, AL),
        rec(0x104D8, 0x104FB, AL),
        rec(0x10500, 0x10527, AL),
        rec(0x10530, 0x10563, AL),
        rec(0x1056F, 0x1057A, AL),
        rec(0x1057C, 0x1058A, AL),
        rec(0x1058C, 0x10592, AL),
        rec(0x10594, 0x10595, AL),
        rec(0x10597, 0x105A1, AL),
        rec(0x105A3, 0x105B1, AL),
        rec(0x105B3, 0x105B9, AL),
        rec(0x105BB, 0x105BC, AL),
        rec(0x10600, 0x10736, AL),
        rec(0x10740, 0x10755, AL),
        rec(0x10760, 0x10767, AL),
        rec(0x10780, 0x10785, AL),
        rec(0x10787, 0x107B0, AL),
        rec(0x107B2, 0x107BA, AL),
        rec(0x10800, 0x10805, AL),
        rec(0x10808, 0x10808, AL),
        rec(0x1080A, 0x10835, AL),
        rec(0x10837, 0x10838, AL),
        rec(0x1083C, 0x1083C, AL),
        rec(0x1083F, 0x10855, AL),
        rec(0x10857, 0x10857, BA),
        rec(0x10858, 0x1089E, AL),
        rec(0x108A7, 0x108AF, AL),
        rec(0x108E0, 0x108F2, AL),
        rec(0x108F4, 0x108F5, AL),
        rec(0x108FB, 0x1091B, AL),
        rec(0x1091F, 0x1091F, BA),
        rec(0x10920, 0x10939, AL),
        rec(0x1093F, 0x1093F, AL),
        rec(0x10980, 0x109B7, AL),
        rec(0x109BC, 0x109CF, AL),
        rec(0x109D2, 0x10A00, AL),
        rec(0x10A01, 0x10A03, CM),
        rec(0x10A05, 0x10A06, CM),
        rec(0x10A0C, 0x10A0F, CM),
        rec(0x10A10, 0x10A13, AL),
        rec(0x10A15, 0x10A17, AL),
        rec(0x10A19, 0x10A35, AL),
        rec(0x10A38, 0x10A3A, CM),
        rec(0x10A3F, 0x10A3F, CM),
        rec(0x10A40, 0x10A48, AL),
    ]
}

/// Records 0x10A50 through 0x110BD of the Line_Break map.
pub open spec fn records_part45() -> Seq<Record> {
    seq![
        rec(0x10A50, 0x10A57, BA),
        rec(0x10A58, 0x10A58, AL),
        rec(0x10A60, 0x10A9F, AL),
        rec(0x10AC0, 0x10AE4, AL),
        rec(0x10AE5, 0x10AE6, CM),
        rec(0x10AEB, 0x10AEF, AL),
        rec(0x10AF0, 0x10AF5, BA),
        rec(0x10AF6, 0x10AF6, IN),
        rec(0x10B00, 0x10B35, AL),
        rec(0x10B39, 0x10B3F, BA),
        rec(0x10B40, 0x10B55, AL),
        rec(0x10B58, 0x10B72, AL),
        rec(0x10B78, 0x10B91, AL),
        rec(0x10B99, 0x10B9C, AL),
        rec(0x10BA9, 0x10BAF, AL),
        rec(0x10C00, 0x10C48, AL),
        rec(0x10C80, 0x10CB2, AL),
        rec(0x10CC0, 0x10CF2, AL),
        rec(0x10CFA, 0x10D23, AL),
        rec(0x10D24, 0x10D27, CM),
        rec(0x10D30, 0x10D39, NU),
        rec(0x10E60, 0x10E7E, AL),
        rec(0x10E80, 0x10EA9, AL),
        rec(0x10EAB, 0x10EAC, CM),
        rec(0x10EAD, 0x10EAD, BA),
        rec(0x10EB0, 0x10EB1, AL),
        rec(0x10F00, 0x10F27, AL),
        rec(0x10F30, 0x10F45, AL),
        rec(0x10F46, 0x10F50, CM),
        rec(0x10F51, 0x10F59, AL),
        rec(0x10F70, 0x10F81, AL),
        rec(0x10F82, 0x10F85, CM),
        rec(0x10F86, 0x10F89, AL),
        rec(0x10FB0, 0x10FCB, AL),
        rec(0x10FE0, 0x10FF6, AL),
        rec(0x11000, 0x11002, CM),
        rec(0x11003, 0x11037, AL),
        rec(0x11038, 0x11046, CM),
        rec(0x11047, 0x11048, BA),
        rec(0x11049, 0x1104D, AL),
        rec(0x11052, 0x11065, AL),
        rec(0x11066, 0x1106F, NU),
        rec(0x11070, 0x11070, CM),
        rec(0x11071, 0x11072, AL),
        rec(0x11073, 0x11074, CM),
        rec(0x11075, 0x11075, AL),
        rec(0x1107F, 0x11082, CM),
        rec(0x11083, 0x110AF, AL),
        rec(0x110B0, 0x110BA, CM),
        rec(0x110BB, 0x110BD, AL),
    ]
}

/// Records 0x110BE through 0x112EA of the Line_Break map.
pub open spec fn records_part46() -> Seq<Record> {
    seq![
        rec(0x110BE, 0x110C1, BA),
        rec(0x110C2, 0x110C2, CM),
        rec(0x110CD, 0x110CD, AL),
        rec(0x110D0, 0x110E8, AL),
        rec(0x110F0, 0x110F9, NU),
        rec(0x11100, 0x11102, CM),
        rec(0x11103, 0x11126, AL),
        rec(0x11127, 0x11134, CM),
        rec(0x11136, 0x1113F, NU),
        rec(0x11140, 0x11143, BA),
        rec(0x11144, 0x11144, AL),
        rec(0x11145, 0x11146, CM),
        rec(0x11147, 0x11147, AL),
        rec(0x11150, 0x11172, AL),
        rec(0x11173, 0x11173, CM),
        rec(0x11174, 0x11174, AL),
        rec(0x11175, 0x11175, BB),
        rec(0x11176, 0x11176, AL),
        rec(0x11180, 0x11182, CM),
        rec(0x11183, 0x111B2, AL),
        rec(0x111B3, 0x111C0, CM),
        rec(0x111C1, 0x111C4, AL),
        rec(0x111C5, 0x111C6, BA),
        rec(0x111C7, 0x111C7, AL),
        rec(0x111C8, 0x111C8, BA),
        rec(0x111C9, 0x111CC, CM),
        rec(0x111CD, 0x111CD, AL),
        rec(0x111CE, 0x111CF, CM),
        rec(0x111D0, 0x111D9, NU),
        rec(0x111DA, 0x111DA, AL),
        rec(0x111DB, 0x111DB, BB),
        rec(0x111DC, 0x111DC, AL),
        rec(0x111DD, 0x111DF, BA),
        rec(0x111E1, 0x111F4, AL),
        rec(0x11200, 0x11211, AL),
        rec(0x11213, 0x1122B, AL),
        rec(0x1122C, 0x11237, CM),
        rec(0x11238, 0x11239, BA),
        rec(0x1123A, 0x1123A, AL),
        rec(0x1123B, 0x1123C, BA),
        rec(0x1123D, 0x1123D, AL),
        rec(0x1123E, 0x1123E, CM),
        rec(0x11280, 0x11286, AL),
        rec(0x11288, 0x11288, AL),
        rec(0x1128A, 0x1128D, AL),
        rec(0x1128F, 0x1129D, AL),
        rec(0x1129F, 0x112A8, AL),
        rec(0x112A9, 0x112A9, BA),
        rec(0x112B0, 0x112DE, AL),
        rec(0x112DF, 0x112EA, CM),
    ]
}

/// Records 0x112F0 through 0x116AA of the Line_Break map.
pub open spec fn records_part47() -> Seq<Record> {
    seq![
        rec(0x112F0, 0x112F9, NU),
        rec(0x11300, 0x11303, CM),
        rec(0x11305, 0x1130C, AL),
        rec(0x1130F, 0x11310, AL),
        rec(0x11313, 0x11328, AL),
        rec(0x1132A, 0x11330, AL),
        rec(0x11332, 0x11333, AL),
        rec(0x11335, 0x11339, AL),
        rec(0x1133B, 0x1133C, CM),
        rec(0x1133D, 0x1133D, AL),
        rec(0x1133E, 0x11344, CM),
        rec(0x11347, 0x11348, CM),
        rec(0x1134B, 0x1134D, CM),
        rec(0x11350, 0x11350, AL),
        rec(0x11357, 0x11357, CM),
        rec(0x1135D, 0x11361, AL),
        rec(0x11362, 0x11363, CM),
        rec(0x11366, 0x1136C, CM),
        rec(0x11370, 0x11374, CM),
        rec(0x11400, 0x11434, AL),
        rec(0x11435, 0x11446, CM),
        rec(0x11447, 0x1144A, AL),
        rec(0x1144B, 0x1144E, BA),
        rec(0x1144F, 0x1144F, AL),
        rec(0x11450, 0x11459, NU),
        rec(0x1145A, 0x1145B, BA),
        rec(0x1145D, 0x1145D, AL),
        rec(0x1145E, 0x1145E, CM),
        rec(0x1145F, 0x11461, AL),
        rec(0x11480, 0x114AF, AL),
        rec(0x114B0, 0x114C3, CM),
        rec(0x114C4, 0x114C7, AL),
        rec(0x114D0, 0x114D9, NU),
        rec(0x11580, 0x115AE, AL),
        rec(0x115AF, 0x115B5, CM),
        rec(0x115B8, 0x115C0, CM),
        rec(0x115C1, 0x115C1, BB),
        rec(0x115C2, 0x115C3, BA),
        rec(0x115C4, 0x115C5, EX),
        rec(0x115C6, 0x115C8, AL),
        rec(0x115C9, 0x115D7, BA),
        rec(0x115D8, 0x115DB, AL),
        rec(0x115DC, 0x115DD, CM),
        rec(0x11600, 0x1162F, AL),
        rec(0x11630, 0x11640, CM),
        rec(0x11641, 0x11642, BA),
        rec(0x11643, 0x11644, AL),
        rec(0x11650, 0x11659, NU),
        rec(0x11660, 0x1166C, BB),
        rec(0x11680, 0x116AA, AL),
    ]
}

/// Records 0x116AB through 0x11A50 of the Line_Break map.
pub open spec fn records_part48() -> Seq<Record> {
    seq![
        rec(0x116AB, 0x116B7, CM),
        rec(0x116B8, 0x116B9, AL),
        rec(0x116C0, 0x116C9, NU),
        rec(0x11700, 0x1171A, SA),
        rec(0x1171D, 0x1172B, SA),
        rec(0x11730, 0x11739, NU),
        rec(0x1173A, 0x1173B, SA),
        rec(0x1173C, 0x1173E, BA),
        rec(0x1173F, 0x11746, SA),
        rec(0x11800, 0x1182B, AL),
        rec(0x1182C, 0x1183A, CM),
        rec(0x1183B, 0x1183B, AL),
        rec(0x118A0, 0x118DF, AL),
        rec(0x118E0, 0x118E9, NU),
        rec(0x118EA, 0x118F2, AL),
        rec(0x118FF, 0x11906, AL),
        rec(0x11909, 0x11909, AL),
        rec(0x1190C, 0x11913, AL),
        rec(0x11915, 0x11916, AL),
        rec(0x11918, 0x1192F, AL),
        rec(0x11930, 0x11935, CM),
        rec(0x11937, 0x11938, CM),
        rec(0x1193B, 0x1193E, CM),
        rec(0x1193F, 0x1193F, AL),
        rec(0x11940, 0x11940, CM),
        rec(0x11941, 0x11941, AL),
        rec(0x11942, 0x11943, CM),
        rec(0x11944, 0x11946, BA),
        rec(0x11950, 0x11959, NU),
        rec(0x119A0, 0x119A7, AL),
        rec(0x119AA, 0x119D0, AL),
        rec(0x119D1, 0x119D7, CM),
        rec(0x119DA, 0x119E0, CM),
        rec(0x119E1, 0x119E1, AL),
        rec(0x119E2, 0x119E2, BB),
        rec(0x119E3, 0x119E3, AL),
        rec(0x119E4, 0x119E4, CM),
        rec(0x11A00, 0x11A00, AL),
        rec(0x11A01, 0x11A0A, CM),
        rec(0x11A0B, 0x11A32, AL),
        rec(0x11A33, 0x11A39, CM),
        rec(0x11A3A, 0x11A3A, AL),
        rec(0x11A3B, 0x11A3E, CM),
        rec(0x11A3F, 0x11A3F, BB),
        rec(0x11A40, 0x11A40, AL),
        rec(0x11A41, 0x11A44, BA),
        rec(0x11A45, 0x11A45, BB),
        rec(0x11A46, 0x11A46, AL),
        rec(0x11A47, 0x11A47, CM),
        rec(0x11A50, 0x11A50, AL),
    ]
}

/// Records 0x11A51 through 0x12474 of the Line_Break map.
pub open spec fn records_part49() -> Seq<Record> {
    seq![
        rec(0x11A51, 0x11A5B, CM),
        rec(0x11A5C, 0x11A89, AL),
        rec(0x11A8A, 0x11A99, CM),
        rec(0x11A9A, 0x11A9C, BA),
        rec(0x11A9D, 0x11A9D, AL),
        rec(0x11A9E, 0x11AA0, BB),
        rec(0x11AA1, 0x11AA2, BA),
        rec(0x11AB0, 0x11AF8, AL),
        rec(0x11C00, 0x11C08, AL),
        rec(0x11C0A, 0x11C2E, AL),
        rec(0x11C2F, 0x11C36, CM),
        rec(0x11C38, 0x11C3F, CM),
        rec(0x11C40, 0x11C40, AL),
        rec(0x11C41, 0x11C45, BA),
        rec(0x11C50, 0x11C59, NU),
        rec(0x11C5A, 0x11C6C, AL),
        rec(0x11C70, 0x11C70, BB),
        rec(0x11C71, 0x11C71, EX),
        rec(0x11C72, 0x11C8F, AL),
        rec(0x11C92, 0x11CA7, CM),
        rec(0x11CA9, 0x11CB6, CM),
        rec(0x11D00, 0x11D06, AL),
        rec(0x11D08, 0x11D09, AL),
        rec(0x11D0B, 0x11D30, AL),
        rec(0x11D31, 0x11D36, CM),
        rec(0x11D3A, 0x11D3A, CM),
        rec(0x11D3C, 0x11D3D, CM),
        rec(0x11D3F, 0x11D45, CM),
        rec(0x11D46, 0x11D46, AL),
        rec(0x11D47, 0x11D47, CM),
        rec(0x11D50, 0x11D59, NU),
        rec(0x11D60, 0x11D65, AL),
        rec(0x11D67, 0x11D68, AL),
        rec(0x11D6A, 0x11D89, AL),
        rec(0x11D8A, 0x11D8E, CM),
        rec(0x11D90, 0x11D91, CM),
        rec(0x11D93, 0x11D97, CM),
        rec(0x11D98, 0x11D98, AL),
        rec(0x11DA0, 0x11DA9, NU),
        rec(0x11EE0, 0x11EF2, AL),
        rec(0x11EF3, 0x11EF6, CM),
        rec(0x11EF7, 0x11EF8, AL),
        rec(0x11FB0, 0x11FB0, AL),
        rec(0x11FC0, 0x11FDC, AL),
        rec(0x11FDD, 0x11FE0, PO),
        rec(0x11FE1, 0x11FF1, AL),
        rec(0x11FFF, 0x11FFF, BA),
        rec(0x12000, 0x12399, AL),
        rec(0x12400, 0x1246E, AL),
        rec(0x12470, 0x12474, BA),
    ]
}

/// Records 0x12480 through 0x16F92 of the Line_Break map.
pub open spec fn records_part50() -> Seq<Record> {
    seq![
        rec(0x12480, 0x12543, AL),
        rec(0x12F90, 0x12FF2, AL),
        rec(0x13000, 0x13257, AL),
        rec(0x13258, 0x1325A, OP),
        rec(0x1325B, 0x1325D, CL),
        rec(0x1325E, 0x13281, AL),
        rec(0x13282, 0x13282, CL),
        rec(0x13283, 0x13285, AL),
        rec(0x13286, 0x13286, OP),
        rec(0x13287, 0x13287, CL),
        rec(0x13288, 0x13288, OP),
        rec(0x13289, 0x13289, CL),
        rec(0x1328A, 0x13378, AL),
        rec(0x13379, 0x13379, OP),
        rec(0x1337A, 0x1337B, CL),
        rec(0x1337C, 0x1342E, AL),
        rec(0x13430, 0x13436, GL),
        rec(0x13437, 0x13437, OP),
        rec(0x13438, 0x13438, CL),
        rec(0x14400, 0x145CD, AL),
        rec(0x145CE, 0x145CE, OP),
        rec(0x145CF, 0x145CF, CL),
        rec(0x145D0, 0x14646, AL),
        rec(0x16800, 0x16A38, AL),
        rec(0x16A40, 0x16A5E, AL),
        rec(0x16A60, 0x16A69, NU),
        rec(0x16A6E, 0x16A6F, BA),
        rec(0x16A70, 0x16ABE, AL),
        rec(0x16AC0, 0x16AC9, NU),
        rec(0x16AD0, 0x16AED, AL),
        rec(0x16AF0, 0x16AF4, CM),
        rec(0x16AF5, 0x16AF5, BA),
        rec(0x16B00, 0x16B2F, AL),
        rec(0x16B30, 0x16B36, CM),
        rec(0x16B37, 0x16B39, BA),
        rec(0x16B3A, 0x16B43, AL),
        rec(0x16B44, 0x16B44, BA),
        rec(0x16B45, 0x16B45, AL),
        rec(0x16B50, 0x16B59, NU),
        rec(0x16B5B, 0x16B61, AL),
        rec(0x16B63, 0x16B77, AL),
        rec(0x16B7D, 0x16B8F, AL),
        rec(0x16E40, 0x16E96, AL),
        rec(0x16E97, 0x16E98, BA),
        rec(0x16E99, 0x16E9A, AL),
        rec(0x16F00, 0x16F4A, AL),
        rec(0x16F4F, 0x16F4F, CM),
        rec(0x16F50, 0x16F50, AL),
        rec(0x16F51, 0x16F87, CM),
        rec(0x16F8F, 0x16F92, CM),
    ]
}

/// Records 0x16F93 through 0x1D4B9 of the Line_Break map.
pub open spec fn records_part51() -> Seq<Record> {
    seq![
        rec(0x16F93, 0x16F9F, AL),
        rec(0x16FE0, 0x16FE3, NS),
        rec(0x16FE4, 0x16FE4, GL),
        rec(0x16FF0, 0x16FF1, CM),
        rec(0x17000, 0x187F7, ID),
        rec(0x18800, 0x18AFF, ID),
        rec(0x18B00, 0x18CD5, AL),
        rec(0x18D00, 0x18D08, ID),
        rec(0x1AFF0, 0x1AFF3, AL),
        rec(0x1AFF5, 0x1AFFB, AL),
        rec(0x1AFFD, 0x1AFFE, AL),
        rec(0x1B000, 0x1B122, ID),
        rec(0x1B150, 0x1B152, CJ),
        rec(0x1B164, 0x1B167, CJ),
        rec(0x1B170, 0x1B2FB, ID),
        rec(0x1BC00, 0x1BC6A, AL),
        rec(0x1BC70, 0x1BC7C, AL),
        rec(0x1BC80, 0x1BC88, AL),
        rec(0x1BC90, 0x1BC99, AL),
        rec(0x1BC9C, 0x1BC9C, AL),
        rec(0x1BC9D, 0x1BC9E, CM),
        rec(0x1BC9F, 0x1BC9F, BA),
        rec(0x1BCA0, 0x1BCA3, CM),
        rec(0x1CF00, 0x1CF2D, CM),
        rec(0x1CF30, 0x1CF46, CM),
        rec(0x1CF50, 0x1CFC3, AL),
        rec(0x1D000, 0x1D0F5, AL),
        rec(0x1D100, 0x1D126, AL),
        rec(0x1D129, 0x1D164, AL),
        rec(0x1D165, 0x1D169, CM),
        rec(0x1D16A, 0x1D16C, AL),
        rec(0x1D16D, 0x1D182, CM),
        rec(0x1D183, 0x1D184, AL),
        rec(0x1D185, 0x1D18B, CM),
        rec(0x1D18C, 0x1D1A9, AL),
        rec(0x1D1AA, 0x1D1AD, CM),
        rec(0x1D1AE, 0x1D1EA, AL),
        rec(0x1D200, 0x1D241, AL),
        rec(0x1D242, 0x1D244, CM),
        rec(0x1D245, 0x1D245, AL),
        rec(0x1D2E0, 0x1D2F3, AL),
        rec(0x1D300, 0x1D356, AL),
        rec(0x1D360, 0x1D378, AL),
        rec(0x1D400, 0x1D454, AL),
        rec(0x1D456, 0x1D49C, AL),
        rec(0x1D49E, 0x1D49F, AL),
        rec(0x1D4A2, 0x1D4A2, AL),
        rec(0x1D4A5, 0x1D4A6, AL),
        rec(0x1D4A9, 0x1D4AC, AL),
        rec(0x1D4AE, 0x1D4B9, AL),
    ]
}

/// Records 0x1D4BB through 0x1E8CF of the Line_Break map.
pub open spec fn records_part52() -> Seq<Record> {
    seq![
        rec(0x1D4BB, 0x1D4BB, AL),
        rec(0x1D4BD, 0x1D4C3, AL),
        rec(0x1D4C5, 0x1D505, AL),
        rec(0x1D507, 0x1D50A, AL),
        rec(0x1D50D, 0x1D514, AL),
        rec(0x1D516, 0x1D51C, AL),
        rec(0x1D51E, 0x1D539, AL),
        rec(0x1D53B, 0x1D53E, AL),
        rec(0x1D540, 0x1D544, AL),
        rec(0x1D546, 0x1D546, AL),
        rec(0x1D54A, 0x1D550, AL),
        rec(0x1D552, 0x1D6A5, AL),
        rec(0x1D6A8, 0x1D7CB, AL),
        rec(0x1D7CE, 0x1D7FF, NU),
        rec(0x1D800, 0x1D9FF, AL),
        rec(0x1DA00, 0x1DA36, CM),
        rec(0x1DA37, 0x1DA3A, AL),
        rec(0x1DA3B, 0x1DA6C, CM),
        rec(0x1DA6D, 0x1DA74, AL),
        rec(0x1DA75, 0x1DA75, CM),
        rec(0x1DA76, 0x1DA83, AL),
        rec(0x1DA84, 0x1DA84, CM),
        rec(0x1DA85, 0x1DA86, AL),
        rec(0x1DA87, 0x1DA8A, BA),
        rec(0x1DA8B, 0x1DA8B, AL),
        rec(0x1DA9B, 0x1DA9F, CM),
        rec(0x1DAA1, 0x1DAAF, CM),
        rec(0x1DF00, 0x1DF1E, AL),
        rec(0x1E000, 0x1E006, CM),
        rec(0x1E008, 0x1E018, CM),
        rec(0x1E01B, 0x1E021, CM),
        rec(0x1E023, 0x1E024, CM),
        rec(0x1E026, 0x1E02A, CM),
        rec(0x1E100, 0x1E12C, AL),
        rec(0x1E130, 0x1E136, CM),
        rec(0x1E137, 0x1E13D, AL),
        rec(0x1E140, 0x1E149, NU),
        rec(0x1E14E, 0x1E14F, AL),
        rec(0x1E290, 0x1E2AD, AL),
        rec(0x1E2AE, 0x1E2AE, CM),
        rec(0x1E2C0, 0x1E2EB, AL),
        rec(0x1E2EC, 0x1E2EF, CM),
        rec(0x1E2F0, 0x1E2F9, NU),
        rec(0x1E2FF, 0x1E2FF, PR),
        rec(0x1E7E0, 0x1E7E6, AL),
        rec(0x1E7E8, 0x1E7EB, AL),
        rec(0x1E7ED, 0x1E7EE, AL),
        rec(0x1E7F0, 0x1E7FE, AL),
        rec(0x1E800, 0x1E8C4, AL),
        rec(0x1E8C7, 0x1E8CF, AL),
    ]
}

/// Records 0x1E8D0 through 0x1F12D of the Line_Break map.
pub open spec fn records_part53() -> Seq<Record> {
    seq![
        rec(0x1E8D0, 0x1E8D6, CM),
        rec(0x1E900, 0x1E943, AL),
        rec(0x1E944, 0x1E94A, CM),
        rec(0x1E94B, 0x1E94B, AL),
        rec(0x1E950, 0x1E959, NU),
        rec(0x1E95E, 0x1E95F, OP),
        rec(0x1EC71, 0x1ECAB, AL),
        rec(0x1ECAC, 0x1ECAC, PO),
        rec(0x1ECAD, 0x1ECAF, AL),
        rec(0x1ECB0, 0x1ECB0, PO),
        rec(0x1ECB1, 0x1ECB4, AL),
        rec(0x1ED01, 0x1ED3D, AL),
        rec(0x1EE00, 0x1EE03, AL),
        rec(0x1EE05, 0x1EE1F, AL),
        rec(0x1EE21, 0x1EE22, AL),
        rec(0x1EE24, 0x1EE24, AL),
        rec(0x1EE27, 0x1EE27, AL),
        rec(0x1EE29, 0x1EE32, AL),
        rec(0x1EE34, 0x1EE37, AL),
        rec(0x1EE39, 0x1EE39, AL),
        rec(0x1EE3B, 0x1EE3B, AL),
        rec(0x1EE42, 0x1EE42, AL),
        rec(0x1EE47, 0x1EE47, AL),
        rec(0x1EE49, 0x1EE49, AL),
        rec(0x1EE4B, 0x1EE4B, AL),
        rec(0x1EE4D, 0x1EE4F, AL),
        rec(0x1EE51, 0x1EE52, AL),
        rec(0x1EE54, 0x1EE54, AL),
        rec(0x1EE57, 0x1EE57, AL),
        rec(0x1EE59, 0x1EE59, AL),
        rec(0x1EE5B, 0x1EE5B, AL),
        rec(0x1EE5D, 0x1EE5D, AL),
        rec(0x1EE5F, 0x1EE5F, AL),
        rec(0x1EE61, 0x1EE62, AL),
        rec(0x1EE64, 0x1EE64, AL),
        rec(0x1EE67, 0x1EE6A, AL),
        rec(0x1EE6C, 0x1EE72, AL),
        rec(0x1EE74, 0x1EE77, AL),
        rec(0x1EE79, 0x1EE7C, AL),
        rec(0x1EE7E, 0x1EE7E, AL),
        rec(0x1EE80, 0x1EE89, AL),
        rec(0x1EE8B, 0x1EE9B, AL),
        rec(0x1EEA1, 0x1EEA3, AL),
        rec(0x1EEA5, 0x1EEA9, AL),
        rec(0x1EEAB, 0x1EEBB, AL),
        rec(0x1EEF0, 0x1EEF1, AL),
        rec(0x1F000, 0x1F0FF, ID),
        rec(0x1F100, 0x1F10C, AI),
        rec(0x1F10D, 0x1F10F, ID),
        rec(0x1F110, 0x1F12D, AI),
    ]
}

/// Records 0x1F12E through 0x1F4B0 of the Line_Break map.
pub open spec fn records_part54() -> Seq<Record> {
    seq![
        rec(0x1F12E, 0x1F12F, AL),
        rec(0x1F130, 0x1F169, AI),
        rec(0x1F16A, 0x1F16C, AL),
        rec(0x1F16D, 0x1F16F, ID),
        rec(0x1F170, 0x1F1AC, AI),
        rec(0x1F1AD, 0x1F1E5, ID),
        rec(0x1F1E6, 0x1F1FF, RI),
        rec(0x1F200, 0x1F384, ID),
        rec(0x1F385, 0x1F385, EB),
        rec(0x1F386, 0x1F39B, ID),
        rec(0x1F39C, 0x1F39D, AL),
        rec(0x1F39E, 0x1F3B4, ID),
        rec(0x1F3B5, 0x1F3B6, AL),
        rec(0x1F3B7, 0x1F3BB, ID),
        rec(0x1F3BC, 0x1F3BC, AL),
        rec(0x1F3BD, 0x1F3C1, ID),
        rec(0x1F3C2, 0x1F3C4, EB),
        rec(0x1F3C5, 0x1F3C6, ID),
        rec(0x1F3C7, 0x1F3C7, EB),
        rec(0x1F3C8, 0x1F3C9, ID),
        rec(0x1F3CA, 0x1F3CC, EB),
        rec(0x1F3CD, 0x1F3FA, ID),
        rec(0x1F3FB, 0x1F3FF, EM),
        rec(0x1F400, 0x1F441, ID),
        rec(0x1F442, 0x1F443, EB),
        rec(0x1F444, 0x1F445, ID),
        rec(0x1F446, 0x1F450, EB),
        rec(0x1F451, 0x1F465, ID),
        rec(0x1F466, 0x1F478, EB),
        rec(0x1F479, 0x1F47B, ID),
        rec(0x1F47C, 0x1F47C, EB),
        rec(0x1F47D, 0x1F480, ID),
        rec(0x1F481, 0x1F483, EB),
        rec(0x1F484, 0x1F484, ID),
        rec(0x1F485, 0x1F487, EB),
        rec(0x1F488, 0x1F48E, ID),
        rec(0x1F48F, 0x1F48F, EB),
        rec(0x1F490, 0x1F490, ID),
        rec(0x1F491, 0x1F491, EB),
        rec(0x1F492, 0x1F49F, ID),
        rec(0x1F4A0, 0x1F4A0, AL),
        rec(0x1F4A1, 0x1F4A1, ID),
        rec(0x1F4A2, 0x1F4A2, AL),
        rec(0x1F4A3, 0x1F4A3, ID),
        rec(0x1F4A4, 0x1F4A4, AL),
        rec(0x1F4A5, 0x1F4A9, ID),
        rec(0x1F4AA, 0x1F4AA, EB),
        rec(0x1F4AB, 0x1F4AE, ID),
        rec(0x1F4AF, 0x1F4AF, AL),
        rec(0x1F4B0, 0x1F4B0, ID),
    ]
}

/// Records 0x1F4B1 through 0x1F8FF of the Line_Break map.
pub open spec fn records_part55() -> Seq<Record> {
    seq![
        rec(0x1F4B1, 0x1F4B2, AL),
        rec(0x1F4B3, 0x1F4FF, ID),
        rec(0x1F500, 0x1F506, AL),
        rec(0x1F507, 0x1F516, ID),
        rec(0x1F517, 0x1F524, AL),
        rec(0x1F525, 0x1F531, ID),
        rec(0x1F532, 0x1F549, AL),
        rec(0x1F54A, 0x1F573, ID),
        rec(0x1F574, 0x1F575, EB),
        rec(0x1F576, 0x1F579, ID),
        rec(0x1F57A, 0x1F57A, EB),
        rec(0x1F57B, 0x1F58F, ID),
        rec(0x1F590, 0x1F590, EB),
        rec(0x1F591, 0x1F594, ID),
        rec(0x1F595, 0x1F596, EB),
        rec(0x1F597, 0x1F5D3, ID),
        rec(0x1F5D4, 0x1F5DB, AL),
        rec(0x1F5DC, 0x1F5F3, ID),
        rec(0x1F5F4, 0x1F5F9, AL),
        rec(0x1F5FA, 0x1F644, ID),
        rec(0x1F645, 0x1F647, EB),
        rec(0x1F648, 0x1F64A, ID),
        rec(0x1F64B, 0x1F64F, EB),
        rec(0x1F650, 0x1F675, AL),
        rec(0x1F676, 0x1F678, QU),
        rec(0x1F679, 0x1F67B, NS),
        rec(0x1F67C, 0x1F67F, AL),
        rec(0x1F680, 0x1F6A2, ID),
        rec(0x1F6A3, 0x1F6A3, EB),
        rec(0x1F6A4, 0x1F6B3, ID),
        rec(0x1F6B4, 0x1F6B6, EB),
        rec(0x1F6B7, 0x1F6BF, ID),
        rec(0x1F6C0, 0x1F6C0, EB),
        rec(0x1F6C1, 0x1F6CB, ID),
        rec(0x1F6CC, 0x1F6CC, EB),
        rec(0x1F6CD, 0x1F6FF, ID),
        rec(0x1F700, 0x1F773, AL),
        rec(0x1F774, 0x1F77F, ID),
        rec(0x1F780, 0x1F7D4, AL),
        rec(0x1F7D5, 0x1F7FF, ID),
        rec(0x1F800, 0x1F80B, AL),
        rec(0x1F80C, 0x1F80F, ID),
        rec(0x1F810, 0x1F847, AL),
        rec(0x1F848, 0x1F84F, ID),
        rec(0x1F850, 0x1F859, AL),
        rec(0x1F85A, 0x1F85F, ID),
        rec(0x1F860, 0x1F887, AL),
        rec(0x1F888, 0x1F88F, ID),
        rec(0x1F890, 0x1F8AD, AL),
        rec(0x1F8AE, 0x1F8FF, ID),
    ]
}

/// Records 0x1F900 through 0xE01EF of the Line_Break map.
pub open spec fn records_part56() -> Seq<Record> {
    seq![
        rec(0x1F900, 0x1F90B, AL),
        rec(0x1F90C, 0x1F90C, EB),
        rec(0x1F90D, 0x1F90E, ID),
        rec(0x1F90F, 0x1F90F, EB),
        rec(0x1F910, 0x1F917, ID),
        rec(0x1F918, 0x1F91F, EB),
        rec(0x1F920, 0x1F925, ID),
        rec(0x1F926, 0x1F926, EB),
        rec(0x1F927, 0x1F92F, ID),
        rec(0x1F930, 0x1F939, EB),
        rec(0x1F93A, 0x1F93B, ID),
        rec(0x1F93C, 0x1F93E, EB),
        rec(0x1F93F, 0x1F976, ID),
        rec(0x1F977, 0x1F977, EB),
        rec(0x1F978, 0x1F9B4, ID),
        rec(0x1F9B5, 0x1F9B6, EB),
        rec(0x1F9B7, 0x1F9B7, ID),
        rec(0x1F9B8, 0x1F9B9, EB),
        rec(0x1F9BA, 0x1F9BA, ID),
        rec(0x1F9BB, 0x1F9BB, EB),
        rec(0x1F9BC, 0x1F9CC, ID),
        rec(0x1F9CD, 0x1F9CF, EB),
        rec(0x1F9D0, 0x1F9D0, ID),
        rec(0x1F9D1, 0x1F9DD, EB),
        rec(0x1F9DE, 0x1F9FF, ID),
        rec(0x1FA00, 0x1FA53, AL),
        rec(0x1FA54, 0x1FAC2, ID),
        rec(0x1FAC3, 0x1FAC5, EB),
        rec(0x1FAC6, 0x1FAEF, ID),
        rec(0x1FAF0, 0x1FAF6, EB),
        rec(0x1FAF7, 0x1FAFF, ID),
        rec(0x1FB00, 0x1FB92, AL),
        rec(0x1FB94, 0x1FBCA, AL),
        rec(0x1FBF0, 0x1FBF9, NU),
        rec(0x1FC00, 0x1FFFD, ID),
        rec(0x20000, 0x2FFFD, ID),
        rec(0x30000, 0x3FFFD, ID),
        rec(0xE0001, 0xE0001, CM),
        rec(0xE0020, 0xE007F, CM),
        rec(0xE0100, 0xE01EF, CM),
    ]
}

/// The bundled record set: the parts in ascending order.
pub open spec fn bundled_records() -> Seq<Record> {
    records_part1() + records_part2() + records_part3() + records_part4() + records_part5() +
        records_part6() + records_part7() + records_part8() + records_part9() + records_part10() +
        records_part11() + records_part12() + records_part13() + records_part14() +
        records_part15() + records_part16() + records_part17() + records_part18() +
        records_part19() + records_part20() + records_part21() + records_part22() +
        records_part23() + records_part24() + records_part25() + records_part26() +
        records_part27() + records_part28() + records_part29() + records_part30() +
        records_part31() + records_part32() + records_part33() + records_part34() +
        records_part35() + records_part36() + records_part37() + records_part38() +
        records_part39() + records_part40() + records_part41() + records_part42() +
        records_part43() + records_part44() + records_part45() + records_part46() +
        records_part47() + records_part48() + records_part49() + records_part50() +
        records_part51() + records_part52() + records_part53() + records_part54() +
        records_part55() + records_part56()
}

/// The part's length, order and endpoints.
#[verifier::rlimit(100)]
#[verifier::spinoff_prover]
proof fn lemma_part1_sorted()
    ensures
        records_part1().len() == 50,
        records_sorted(records_part1()),
        records_part1()[0].start == 0x0000,
        records_part1()[49].end == 0x00AF,
{
    let p = records_part1();
    assert forall|i: int|
        0 <= i < p.len() implies ((#[trigger] p[i]).start <= p[i].end && p[i].end <= 0x10FFFF && (
    i + 1 < p.len() ==> p[i].end < p[i + 1].start)) by {
        if i == 0 { assert(p[0] == rec(0x0000, 0x0008, CM)); assert(p[1] == rec(0x0009, 0x0009, BA));
        } else if i == 1 { assert(p[1] == rec(0x0009, 0x0009, BA)); assert(p[2] == rec(0x000A, 0x000A, LF));
        } else if i == 2 { assert(p[2] == rec(0x000A, 0x000A, LF)); assert(p[3] == rec(0x000B, 0x000C, BK));
        } else if i == 3 { assert(p[3] == rec(0x000B, 0x000C, BK)); assert(p[4] == rec(0x000D, 0x000D, CR));
        } else if i == 4 { assert(p[4] == rec(0x000D, 0x000D, CR)); assert(p[5] == rec(0x000E, 0x001F, CM));
        } else if i == 5 { assert(p[5] == rec(0x000E, 0x001F, CM)); assert(p[6] == rec(0x0020, 0x0020, SP));
        } else if i == 6 { assert(p[6] == rec(0x0020, 0x0020, SP)); assert(p[7] == rec(0x0021, 0x0021, EX));
        } else if i == 7 { assert(p[7] == rec(0x0021, 0x0021, EX)); assert(p[8] == rec(0x0022, 0x0022, QU));
        } else if i == 8 { assert(p[8] == rec(0x0022, 0x0022, QU)); assert(p[9] == rec(0x0023, 0x0023, AL));
        } else if i == 9 { assert(p[9] == rec(0x0023, 0x0023, AL)); assert(p[10] == rec(0x0024, 0x0024, PR));
        } else if i == 10 { assert(p[10] == rec(0x0024, 0x0024, PR)); assert(p[11] == rec(0x0025, 0x0025, PO));
        } else if i == 11 { assert(p[11] == rec(0x0025, 0x0025, PO)); assert(p[12] == rec(0x0026, 0x0026, AL));
        } else if i == 12 { assert(p[12] == rec(0x0026, 0x0026, AL)); assert(p[13] == rec(0x0027, 0x0027, QU));
        } else if i == 13 { assert(p[13] == rec(0x0027, 0x0027, QU)); assert(p[14] == rec(0x0028, 0x0028, OP));
        } else if i == 14 { assert(p[14] == rec(0x0028, 0x0028, OP)); assert(p[15] == rec(0x0029, 0x0029, CP));
        } else if i == 15 { assert(p[15] == rec(0x0029, 0x0029, CP)); assert(p[16] == rec(0x002A, 0x002A, AL));
        } else if i == 16 { assert(p[16] == rec(0x002A, 0x002A, AL)); assert(p[17] == rec(0x002B, 0x002B, PR));
        } else if i == 17 { assert(p[17] == rec(0x002B, 0x002B, PR)); assert(p[18] == rec(0x002C, 0x002C, IS));
        } else if i == 18 { assert(p[18] == rec(0x002C, 0x002C, IS)); assert(p[19] == rec(0x002D, 0x002D, HY));
        } else if i == 19 { assert(p[19] == rec(0x002D, 0x002D, HY)); assert(p[20] == rec(0x002E, 0x002E, IS));
        } else if i == 20 { assert(p[20] == rec(0x002E, 0x002E, IS)); assert(p[21] == rec(0x002F, 0x002F, SY));
        } else if i == 21 { assert(p[21] == rec(0x002F, 0x002F, SY)); assert(p[22] == rec(0x0030, 0x0039, NU));
        } else if i == 22 { assert(p[22] == rec(0x0030, 0x0039, NU)); assert(p[23] == rec(0x003A, 0x003B, IS));
        } else if i == 23 { assert(p[23] == rec(0x003A, 0x003B, IS)); assert(p[24] == rec(0x003C, 0x003E, AL));
        } else if i == 24 { assert(p[24] == rec(0x003C, 0x003E, AL)); assert(p[25] == rec(0x003F, 0x003F, EX));
        } else if i == 25 { assert(p[25] == rec(0x003F, 0x003F, EX)); assert(p[26] == rec(0x0040, 0x005A, AL));
        } else if i == 26 { assert(p[26] == rec(0x0040, 0x005A, AL)); assert(p[27] == rec(0x005B, 0x005B, OP));
        } else if i == 27 { assert(p[27] == rec(0x005B, 0x005B, OP)); assert(p[28] == rec(0x005C, 0x005C, PR));
        } else if i == 28 { assert(p[28] == rec(0x005C, 0x005C, PR)); assert(p[29] == rec(0x005D, 0x005D, CP));
        } else if i == 29 { assert(p[29] == rec(0x005D, 0x005D, CP)); assert(p[30] == rec(0x005E, 0x007A, AL));
        } else if i == 30 { assert(p[30] == rec(0x005E, 0x007A, AL)); assert(p[31] == rec(0x007B, 0x007B, OP));
        } else if i == 31 { assert(p[31] == rec(0x007B, 0x007B, OP)); assert(p[32] == rec(0x007C, 0x007C, BA));
        } else if i == 32 { assert(p[32] == rec(0x007C, 0x007C, BA)); assert(p[33] == rec(0x007D, 0x007D, CL));
        } else if i == 33 { assert(p[33] == rec(0x007D, 0x007D, CL)); assert(p[34] == rec(0x007E, 0x007E, AL));
        } else if i == 34 { assert(p[34] == rec(0x007E, 0x007E, AL)); assert(p[35] == rec(0x007F, 0x0084, CM));
        } else if i == 35 { assert(p[35] == rec(0x007F, 0x0084, CM)); assert(p[36] == rec(0x0085, 0x0085, NL));
        } else if i == 36 { assert(p[36] == rec(0x0085, 0x0085, NL)); assert(p[37] == rec(0x0086, 0x009F, CM));
        } else if i == 37 { assert(p[37] == rec(0x0086, 0x009F, CM)); assert(p[38] == rec(0x00A0, 0x00A0, GL));
        } else if i == 38 { assert(p[38] == rec(0x00A0, 0x00A0, GL)); assert(p[39] == rec(0x00A1, 0x00A1, OP));
        } else if i == 39 { assert(p[39] == rec(0x00A1, 0x00A1, OP)); assert(p[40] == rec(0x00A2, 0x00A2, PO));
        } else if i == 40 { assert(p[40] == rec(0x00A2, 0x00A2, PO)); assert(p[41] == rec(0x00A3, 0x00A5, PR));
        } else if i == 41 { assert(p[41] == rec(0x00A3, 0x00A5, PR)); assert(p[42] == rec(0x00A6, 0x00A6, AL));
        } else if i == 42 { assert(p[42] == rec(0x00A6, 0x00A6, AL)); assert(p[43] == rec(0x00A7, 0x00A8, AI));
        } else if i == 43 { assert(p[43] == rec(0x00A7, 0x00A8, AI)); assert(p[44] == rec(0x00A9, 0x00A9, AL));
        } else if i == 44 { assert(p[44] == rec(0x00A9, 0x00A9, AL)); assert(p[45] == rec(0x00AA, 0x00AA, AI));
        } else if i == 45 { assert(p[45] == rec(0x00AA, 0x00AA, AI)); assert(p[46] == rec(0x00AB, 0x00AB, QU));
        } else if i == 46 { assert(p[46] == rec(0x00AB, 0x00AB, QU)); assert(p[47] == rec(0x00AC, 0x00AC, AL));
        } else if i == 47 { assert(p[47] == rec(0x00AC, 0x00AC, AL)); assert(p[48] == rec(0x00AD, 0x00AD, BA));
        } else if i == 48 { assert(p[48] == rec(0x00AD, 0x00AD, BA)); assert(p[49] == rec(0x00AE, 0x00AF, AL));
        } else if i == 49 { assert(p[49] == rec(0x00AE, 0x00AF, AL));
        }
    }
    assert forall|i: int|
        #![trigger p[i], p[i + 1]]
        0 <= i && i + 1 < p.len() implies p[i].end < p[i + 1].start by {}
    assert(p[0] == rec(0x0000, 0x0008, CM));
    assert(p[49] == rec(0x00AE, 0x00AF, AL));
}

/// The part's length, order and endpoints.
#[verifier::rlimit(100)]
#[verifier::spinoff_prover]
proof fn lemma_part2_sorted()
    ensures
        records_part2().len() == 50,
        records_sorted(records_part2()),
        records_part2()[0].start == 0x00B0,
        records_part2()[49].end == 0x05BD,
{
    let p = records_part2();
    assert forall|i: int|
        0 <= i < p.len() implies ((#[trigger] p[i]).start <= p[i].end && p[i].end <= 0x10FFFF && (
    i + 1 < p.len() ==> p[i].end < p[i + 1].start)) by {
        if i == 0 { assert(p[0] == rec(0x00B0, 0x00B0, PO)); assert(p[1] == rec(0x00B1, 0x00B1, PR));
        } else if i == 1 { assert(p[1] == rec(0x00B1, 0x00B1, PR)); assert(p[2] == rec(0x00B2, 0x00B3, AI));
        } else if i == 2 { assert(p[2] == rec(0x00B2, 0x00B3, AI)); assert(p[3] == rec(0x00B4, 0x00B4, BB));
        } else if i == 3 { assert(p[3] == rec(0x00B4, 0x00B4, BB)); assert(p[4] == rec(0x00B5, 0x00B5, AL));
        } else if i == 4 { assert(p[4] == rec(0x00B5, 0x00B5, AL)); assert(p[5] == rec(0x00B6, 0x00BA, AI));
        } else if i == 5 { assert(p[5] == rec(0x00B6, 0x00BA, AI)); assert(p[6] == rec(0x00BB, 0x00BB, QU));
        } else if i == 6 { assert(p[6] == rec(0x00BB, 0x00BB, QU)); assert(p[7] == rec(0x00BC, 0x00BE, AI));
        } else if i == 7 { assert(p[7] == rec(0x00BC, 0x00BE, AI)); assert(p[8] == rec(0x00BF, 0x00BF, OP));
        } else if i == 8 { assert(p[8] == rec(0x00BF, 0x00BF, OP)); assert(p[9] == rec(0x00C0, 0x00D6, AL));
        } else if i == 9 { assert(p[9] == rec(0x00C0, 0x00D6, AL)); assert(p[10] == rec(0x00D7, 0x00D7, AI));
        } else if i == 10 { assert(p[10] == rec(0x00D7, 0x00D7, AI)); assert(p[11] == rec(0x00D8, 0x00F6, AL));
        } else if i == 11 { assert(p[11] == rec(0x00D8, 0x00F6, AL)); assert(p[12] == rec(0x00F7, 0x00F7, AI));
        } else if i == 12 { assert(p[12] == rec(0x00F7, 0x00F7, AI)); assert(p[13] == rec(0x00F8, 0x02C6, AL));
        } else if i == 13 { assert(p[13] == rec(0x00F8, 0x02C6, AL)); assert(p[14] == rec(0x02C7, 0x02C7, AI));
        } else if i == 14 { assert(p[14] == rec(0x02C7, 0x02C7, AI)); assert(p[15] == rec(0x02C8, 0x02C8, BB));
        } else if i == 15 { assert(p[15] == rec(0x02C8, 0x02C8, BB)); assert(p[16] == rec(0x02C9, 0x02CB, AI));
        } else if i == 16 { assert(p[16] == rec(0x02C9, 0x02CB, AI)); assert(p[17] == rec(0x02CC, 0x02CC, BB));
        } else if i == 17 { assert(p[17] == rec(0x02CC, 0x02CC, BB)); assert(p[18] == rec(0x02CD, 0x02CD, AI));
        } else if i == 18 { assert(p[18] == rec(0x02CD, 0x02CD, AI)); assert(p[19] == rec(0x02CE, 0x02CF, AL));
        } else if i == 19 { assert(p[19] == rec(0x02CE, 0x02CF, AL)); assert(p[20] == rec(0x02D0, 0x02D0, AI));
        } else if i == 20 { assert(p[20] == rec(0x02D0, 0x02D0, AI)); assert(p[21] == rec(0x02D1, 0x02D7, AL));
        } else if i == 21 { assert(p[21] == rec(0x02D1, 0x02D7, AL)); assert(p[22] == rec(0x02D8, 0x02DB, AI));
        } else if i == 22 { assert(p[22] == rec(0x02D8, 0x02DB, AI)); assert(p[23] == rec(0x02DC, 0x02DC, AL));
        } else if i == 23 { assert(p[23] == rec(0x02DC, 0x02DC, AL)); assert(p[24] == rec(0x02DD, 0x02DD, AI));
        } else if i == 24 { assert(p[24] == rec(0x02DD, 0x02DD, AI)); assert(p[25] == rec(0x02DE, 0x02DE, AL));
        } else if i == 25 { assert(p[25] == rec(0x02DE, 0x02DE, AL)); assert(p[26] == rec(0x02DF, 0x02DF, BB));
        } else if i == 26 { assert(p[26] == rec(0x02DF, 0x02DF, BB)); assert(p[27] == rec(0x02E0, 0x02FF, AL));
        } else if i == 27 { assert(p[27] == rec(0x02E0, 0x02FF, AL)); assert(p[28] == rec(0x0300, 0x034E, CM));
        } else if i == 28 { assert(p[28] == rec(0x0300, 0x034E, CM)); assert(p[29] == rec(0x034F, 0x034F, GL));
        } else if i == 29 { assert(p[29] == rec(0x034F, 0x034F, GL)); assert(p[30] == rec(0x0350, 0x035B, CM));
        } else if i == 30 { assert(p[30] == rec(0x0350, 0x035B, CM)); assert(p[31] == rec(0x035C, 0x0362, GL));
        } else if i == 31 { assert(p[31] == rec(0x035C, 0x0362, GL)); assert(p[32] == rec(0x0363, 0x036F, CM));
        } else if i == 32 { assert(p[32] == rec(0x0363, 0x036F, CM)); assert(p[33] == rec(0x0370, 0x0377, AL));
        } else if i == 33 { assert(p[33] == rec(0x0370, 0x0377, AL)); assert(p[34] == rec(0x037A, 0x037D, AL));
        } else if i == 34 { assert(p[34] == rec(0x037A, 0x037D, AL)); assert(p[35] == rec(0x037E, 0x037E, IS));
        } else if i == 35 { assert(p[35] == rec(0x037E, 0x037E, IS)); assert(p[36] == rec(0x037F, 0x037F, AL));
        } else if i == 36 { assert(p[36] == rec(0x037F, 0x037F, AL)); assert(p[37] == rec(0x0384, 0x038A, AL));
        } else if i == 37 { assert(p[37] == rec(0x0384, 0x038A, AL)); assert(p[38] == rec(0x038C, 0x038C, AL));
        } else if i == 38 { assert(p[38] == rec(0x038C, 0x038C, AL)); assert(p[39] == rec(0x038E, 0x03A1, AL));
        } else if i == 39 { assert(p[39] == rec(0x038E, 0x03A1, AL)); assert(p[40] == rec(0x03A3, 0x0482, AL));
        } else if i == 40 { assert(p[40] == rec(0x03A3, 0x0482, AL)); assert(p[41] == rec(0x0483, 0x0489, CM));
        } else if i == 41 { assert(p[41] == rec(0x0483, 0x0489, CM)); assert(p[42] == rec(0x048A, 0x052F, AL));
        } else if i == 42 { assert(p[42] == rec(0x048A, 0x052F, AL)); assert(p[43] == rec(0x0531, 0x0556, AL));
        } else if i == 43 { assert(p[43] == rec(0x0531, 0x0556, AL)); assert(p[44] == rec(0x0559, 0x0588, AL));
        } else if i == 44 { assert(p[44] == rec(0x0559, 0x0588, AL)); assert(p[45] == rec(0x0589, 0x0589, IS));
        } else if i == 45 { assert(p[45] == rec(0x0589, 0x0589, IS)); assert(p[46] == rec(0x058A, 0x058A, BA));
        } else if i == 46 { assert(p[46] == rec(0x058A, 0x058A, BA)); assert(p[47] == rec(0x058D, 0x058E, AL));
        } else if i == 47 { assert(p[47] == rec(0x058D, 0x058E, AL)); assert(p[48] == rec(0x058F, 0x058F, PR));
        } else if i == 48 { assert(p[48] == rec(0x058F, 0x058F, PR)); assert(p[49] == rec(0x0591, 0x05BD, CM));
        } else if i == 49 { assert(p[49] == rec(0x0591, 0x05BD, CM));
        }
    }
    assert forall|i: int|
        #![trigger p[i], p[i + 1]]
        0 <= i && i + 1 < p.len() implies p[i].end < p[i + 1].start by {}
    assert(p[0] == rec(0x00B0, 0x00B0, PO));
    assert(p[49] == rec(0x0591, 0x05BD, CM));
}

/// The part's length, order and endpoints.
#[verifier::rlimit(100)]
#[verifier::spinoff_prover]
proof fn lemma_part3_sorted()
    ensures
        records_part3().len() == 50,
        records_sorted(records_part3()),
        records_part3()[0].start == 0x05BE,
        records_part3()[49].end == 0x07F7,
{
    let p = records_part3();
    assert forall|i: int|
        0 <= i < p.len() implies ((#[trigger] p[i]).start <= p[i].end && p[i].end <= 0x10FFFF && (
    i + 1 < p.len() ==> p[i].end < p[i + 1].start)) by {
        if i == 0 { assert(p[0] == rec(0x05BE, 0x05BE, BA)); assert(p[1] == rec(0x05BF, 0x05BF, CM));
        } else if i == 1 { assert(p[1] == rec(0x05BF, 0x05BF, CM)); assert(p[2] == rec(0x05C0, 0x05C0, AL));
        } else if i == 2 { assert(p[2] == rec(0x05C0, 0x05C0, AL)); assert(p[3] == rec(0x05C1, 0x05C2, CM));
        } else if i == 3 { assert(p[3] == rec(0x05C1, 0x05C2, CM)); assert(p[4] == rec(0x05C3, 0x05C3, AL));
        } else if i == 4 { assert(p[4] == rec(0x05C3, 0x05C3, AL)); assert(p[5] == rec(0x05C4, 0x05C5, CM));
        } else if i == 5 { assert(p[5] == rec(0x05C4, 0x05C5, CM)); assert(p[6] == rec(0x05C6, 0x05C6, EX));
        } else if i == 6 { assert(p[6] == rec(0x05C6, 0x05C6, EX)); assert(p[7] == rec(0x05C7, 0x05C7, CM));
        } else if i == 7 { assert(p[7] == rec(0x05C7, 0x05C7, CM)); assert(p[8] == rec(0x05D0, 0x05EA, HL));
        } else if i == 8 { assert(p[8] == rec(0x05D0, 0x05EA, HL)); assert(p[9] == rec(0x05EF, 0x05F2, HL));
        } else if i == 9 { assert(p[9] == rec(0x05EF, 0x05F2, HL)); assert(p[10] == rec(0x05F3, 0x05F4, AL));
        } else if i == 10 { assert(p[10] == rec(0x05F3, 0x05F4, AL)); assert(p[11] == rec(0x0600, 0x0608, AL));
        } else if i == 11 { assert(p[11] == rec(0x0600, 0x0608, AL)); assert(p[12] == rec(0x0609, 0x060B, PO));
        } else if i == 12 { assert(p[12] == rec(0x0609, 0x060B, PO)); assert(p[13] == rec(0x060C, 0x060D, IS));
        } else if i == 13 { assert(p[13] == rec(0x060C, 0x060D, IS)); assert(p[14] == rec(0x060E, 0x060F, AL));
        } else if i == 14 { assert(p[14] == rec(0x060E, 0x060F, AL)); assert(p[15] == rec(0x0610, 0x061A, CM));
        } else if i == 15 { assert(p[15] == rec(0x0610, 0x061A, CM)); assert(p[16] == rec(0x061B, 0x061B, EX));
        } else if i == 16 { assert(p[16] == rec(0x061B, 0x061B, EX)); assert(p[17] == rec(0x061C, 0x061C, CM));
        } else if i == 17 { assert(p[17] == rec(0x061C, 0x061C, CM)); assert(p[18] == rec(0x061D, 0x061F, EX));
        } else if i == 18 { assert(p[18] == rec(0x061D, 0x061F, EX)); assert(p[19] == rec(0x0620, 0x064A, AL));
        } else if i == 19 { assert(p[19] == rec(0x0620, 0x064A, AL)); assert(p[20] == rec(0x064B, 0x065F, CM));
        } else if i == 20 { assert(p[20] == rec(0x064B, 0x065F, CM)); assert(p[21] == rec(0x0660, 0x0669, NU));
        } else if i == 21 { assert(p[21] == rec(0x0660, 0x0669, NU)); assert(p[22] == rec(0x066A, 0x066A, PO));
        } else if i == 22 { assert(p[22] == rec(0x066A, 0x066A, PO)); assert(p[23] == rec(0x066B, 0x066C, NU));
        } else if i == 23 { assert(p[23] == rec(0x066B, 0x066C, NU)); assert(p[24] == rec(0x066D, 0x066F, AL));
        } else if i == 24 { assert(p[24] == rec(0x066D, 0x066F, AL)); assert(p[25] == rec(0x0670, 0x0670, CM));
        } else if i == 25 { assert(p[25] == rec(0x0670, 0x0670, CM)); assert(p[26] == rec(0x0671, 0x06D3, AL));
        } else if i == 26 { assert(p[26] == rec(0x0671, 0x06D3, AL)); assert(p[27] == rec(0x06D4, 0x06D4, EX));
        } else if i == 27 { assert(p[27] == rec(0x06D4, 0x06D4, EX)); assert(p[28] == rec(0x06D5, 0x06D5, AL));
        } else if i == 28 { assert(p[28] == rec(0x06D5, 0x06D5, AL)); assert(p[29] == rec(0x06D6, 0x06DC, CM));
        } else if i == 29 { assert(p[29] == rec(0x06D6, 0x06DC, CM)); assert(p[30] == rec(0x06DD, 0x06DE, AL));
        } else if i == 30 { assert(p[30] == rec(0x06DD, 0x06DE, AL)); assert(p[31] == rec(0x06DF, 0x06E4, CM));
        } else if i == 31 { assert(p[31] == rec(0x06DF, 0x06E4, CM)); assert(p[32] == rec(0x06E5, 0x06E6, AL));
        } else if i == 32 { assert(p[32] == rec(0x06E5, 0x06E6, AL)); assert(p[33] == rec(0x06E7, 0x06E8, CM));
        } else if i == 33 { assert(p[33] == rec(0x06E7, 0x06E8, CM)); assert(p[34] == rec(0x06E9, 0x06E9, AL));
        } else if i == 34 { assert(p[34] == rec(0x06E9, 0x06E9, AL)); assert(p[35] == rec(0x06EA, 0x06ED, CM));
        } else if i == 35 { assert(p[35] == rec(0x06EA, 0x06ED, CM)); assert(p[36] == rec(0x06EE, 0x06EF, AL));
        } else if i == 36 { assert(p[36] == rec(0x06EE, 0x06EF, AL)); assert(p[37] == rec(0x06F0, 0x06F9, NU));
        } else if i == 37 { assert(p[37] == rec(0x06F0, 0x06F9, NU)); assert(p[38] == rec(0x06FA, 0x070D, AL));
        } else if i == 38 { assert(p[38] == rec(0x06FA, 0x070D, AL)); assert(p[39] == rec(0x070F, 0x0710, AL));
        } else if i == 39 { assert(p[39] == rec(0x070F, 0x0710, AL)); assert(p[40] == rec(0x0711, 0x0711, CM));
        } else if i == 40 { assert(p[40] == rec(0x0711, 0x0711, CM)); assert(p[41] == rec(0x0712, 0x072F, AL));
        } else if i == 41 { assert(p[41] == rec(0x0712, 0x072F, AL)); assert(p[42] == rec(0x0730, 0x074A, CM));
        } else if i == 42 { assert(p[42] == rec(0x0730, 0x074A, CM)); assert(p[43] == rec(0x074D, 0x07A5, AL));
        } else if i == 43 { assert(p[43] == rec(0x074D, 0x07A5, AL)); assert(p[44] == rec(0x07A6, 0x07B0, CM));
        } else if i == 44 { assert(p[44] == rec(0x07A6, 0x07B0, CM)); assert(p[45] == rec(0x07B1, 0x07B1, AL));
        } else if i == 45 { assert(p[45] == rec(0x07B1, 0x07B1, AL)); assert(p[46] == rec(0x07C0, 0x07C9, NU));
        } else if i == 46 { assert(p[46] == rec(0x07C0, 0x07C9, NU)); assert(p[47] == rec(0x07CA, 0x07EA, AL));
        } else if i == 47 { assert(p[47] == rec(0x07CA, 0x07EA, AL)); assert(p[48] == rec(0x07EB, 0x07F3, CM));
        } else if i == 48 { assert(p[48] == rec(0x07EB, 0x07F3, CM)); assert(p[49] == rec(0x07F4, 0x07F7, AL));
        } else if i == 49 { assert(p[49] == rec(0x07F4, 0x07F7, AL));
        }
    }
    assert forall|i: int|
        #![trigger p[i], p[i + 1]]
        0 <= i && i + 1 < p.len() implies p[i].end < p[i + 1].start by {}
    assert(p[0] == rec(0x05BE, 0x05BE, BA));
    assert(p[49] == rec(0x07F4, 0x07F7, AL));
}

/// The part's length, order and endpoints.
#[verifier::rlimit(100)]
#[verifier::spinoff_prover]
proof fn lemma_part4_sorted()
    ensures
        records_part4().len() == 50,
        records_sorted(records_part4()),
        records_part4()[0].start == 0x07F8,
        records_part4()[49].end == 0x09D7,
{
    let p = records_part4();
    assert forall|i: int|
        0 <= i < p.len() implies ((#[trigger] p[i]).start <= p[i].end && p[i].end <= 0x10FFFF && (
    i + 1 < p.len() ==> p[i].end < p[i + 1].start)) by {
        if i == 0 { assert(p[0] == rec(0x07F8, 0x07F8, IS)); assert(p[1] == rec(0x07F9, 0x07F9, EX));
        } else if i == 1 { assert(p[1] == rec(0x07F9, 0x07F9, EX)); assert(p[2] == rec(0x07FA, 0x07FA, AL));
        } else if i == 2 { assert(p[2] == rec(0x07FA, 0x07FA, AL)); assert(p[3] == rec(0x07FD, 0x07FD, CM));
        } else if i == 3 { assert(p[3] == rec(0x07FD, 0x07FD, CM)); assert(p[4] == rec(0x07FE, 0x07FF, PR));
        } else if i == 4 { assert(p[4] == rec(0x07FE, 0x07FF, PR)); assert(p[5] == rec(0x0800, 0x0815, AL));
        } else if i == 5 { assert(p[5] == rec(0x0800, 0x0815, AL)); assert(p[6] == rec(0x0816, 0x0819, CM));
        } else if i == 6 { assert(p[6] == rec(0x0816, 0x0819, CM)); assert(p[7] == rec(0x081A, 0x081A, AL));
        } else if i == 7 { assert(p[7] == rec(0x081A, 0x081A, AL)); assert(p[8] == rec(0x081B, 0x0823, CM));
        } else if i == 8 { assert(p[8] == rec(0x081B, 0x0823, CM)); assert(p[9] == rec(0x0824, 0x0824, AL));
        } else if i == 9 { assert(p[9] == rec(0x0824, 0x0824, AL)); assert(p[10] == rec(0x0825, 0x0827, CM));
        } else if i == 10 { assert(p[10] == rec(0x0825, 0x0827, CM)); assert(p[11] == rec(0x0828, 0x0828, AL));
        } else if i == 11 { assert(p[11] == rec(0x0828, 0x0828, AL)); assert(p[12] == rec(0x0829, 0x082D, CM));
        } else if i == 12 { assert(p[12] == rec(0x0829, 0x082D, CM)); assert(p[13] == rec(0x0830, 0x083E, AL));
        } else if i == 13 { assert(p[13] == rec(0x0830, 0x083E, AL)); assert(p[14] == rec(0x0840, 0x0858, AL));
        } else if i == 14 { assert(p[14] == rec(0x0840, 0x0858, AL)); assert(p[15] == rec(0x0859, 0x085B, CM));
        } else if i == 15 { assert(p[15] == rec(0x0859, 0x085B, CM)); assert(p[16] == rec(0x085E, 0x085E, AL));
        } else if i == 16 { assert(p[16] == rec(0x085E, 0x085E, AL)); assert(p[17] == rec(0x0860, 0x086A, AL));
        } else if i == 17 { assert(p[17] == rec(0x0860, 0x086A, AL)); assert(p[18] == rec(0x0870, 0x088E, AL));
        } else if i == 18 { assert(p[18] == rec(0x0870, 0x088E, AL)); assert(p[19] == rec(0x0890, 0x0891, AL));
        } else if i == 19 { assert(p[19] == rec(0x0890, 0x0891, AL)); assert(p[20] == rec(0x0898, 0x089F, CM));
        } else if i == 20 { assert(p[20] == rec(0x0898, 0x089F, CM)); assert(p[21] == rec(0x08A0, 0x08C9, AL));
        } else if i == 21 { assert(p[21] == rec(0x08A0, 0x08C9, AL)); assert(p[22] == rec(0x08CA, 0x08E1, CM));
        } else if i == 22 { assert(p[22] == rec(0x08CA, 0x08E1, CM)); assert(p[23] == rec(0x08E2, 0x08E2, AL));
        } else if i == 23 { assert(p[23] == rec(0x08E2, 0x08E2, AL)); assert(p[24] == rec(0x08E3, 0x0903, CM));
        } else if i == 24 { assert(p[24] == rec(0x08E3, 0x0903, CM)); assert(p[25] == rec(0x0904, 0x0939, AL));
        } else if i == 25 { assert(p[25] == rec(0x0904, 0x0939, AL)); assert(p[26] == rec(0x093A, 0x093C, CM));
        } else if i == 26 { assert(p[26] == rec(0x093A, 0x093C, CM)); assert(p[27] == rec(0x093D, 0x093D, AL));
        } else if i == 27 { assert(p[27] == rec(0x093D, 0x093D, AL)); assert(p[28] == rec(0x093E, 0x094F, CM));
        } else if i == 28 { assert(p[28] == rec(0x093E, 0x094F, CM)); assert(p[29] == rec(0x0950, 0x0950, AL));
        } else if i == 29 { assert(p[29] == rec(0x0950, 0x0950, AL)); assert(p[30] == rec(0x0951, 0x0957, CM));
        } else if i == 30 { assert(p[30] == rec(0x0951, 0x0957, CM)); assert(p[31] == rec(0x0958, 0x0961, AL));
        } else if i == 31 { assert(p[31] == rec(0x0958, 0x0961, AL)); assert(p[32] == rec(0x0962, 0x0963, CM));
        } else if i == 32 { assert(p[32] == rec(0x0962, 0x0963, CM)); assert(p[33] == rec(0x0964, 0x0965, BA));
        } else if i == 33 { assert(p[33] == rec(0x0964, 0x0965, BA)); assert(p[34] == rec(0x0966, 0x096F, NU));
        } else if i == 34 { assert(p[34] == rec(0x0966, 0x096F, NU)); assert(p[35] == rec(0x0970, 0x0980, AL));
        } else if i == 35 { assert(p[35] == rec(0x0970, 0x0980, AL)); assert(p[36] == rec(0x0981, 0x0983, CM));
        } else if i == 36 { assert(p[36] == rec(0x0981, 0x0983, CM)); assert(p[37] == rec(0x0985, 0x098C, AL));
        } else if i == 37 { assert(p[37] == rec(0x0985, 0x098C, AL)); assert(p[38] == rec(0x098F, 0x0990, AL));
        } else if i == 38 { assert(p[38] == rec(0x098F, 0x0990, AL)); assert(p[39] == rec(0x0993, 0x09A8, AL));
        } else if i == 39 { assert(p[39] == rec(0x0993, 0x09A8, AL)); assert(p[40] == rec(0x09AA, 0x09B0, AL));
        } else if i == 40 { assert(p[40] == rec(0x09AA, 0x09B0, AL)); assert(p[41] == rec(0x09B2, 0x09B2, AL));
        } else if i == 41 { assert(p[41] == rec(0x09B2, 0x09B2, AL)); assert(p[42] == rec(0x09B6, 0x09B9, AL));
        } else if i == 42 { assert(p[42] == rec(0x09B6, 0x09B9, AL)); assert(p[43] == rec(0x09BC, 0x09BC, CM));
        } else if i == 43 { assert(p[43] == rec(0x09BC, 0x09BC, CM)); assert(p[44] == rec(0x09BD, 0x09BD, AL));
        } else if i == 44 { assert(p[44] == rec(0x09BD, 0x09BD, AL)); assert(p[45] == rec(0x09BE, 0x09C4, CM));
        } else if i == 45 { assert(p[45] == rec(0x09BE, 0x09C4, CM)); assert(p[46] == rec(0x09C7, 0x09C8, CM));
        } else if i == 46 { assert(p[46] == rec(0x09C7, 0x09C8, CM)); assert(p[47] == rec(0x09CB, 0x09CD, CM));
        } else if i == 47 { assert(p[47] == rec(0x09CB, 0x09CD, CM)); assert(p[48] == rec(0x09CE, 0x09CE, AL));
        } else if i == 48 { assert(p[48] == rec(0x09CE, 0x09CE, AL)); assert(p[49] == rec(0x09D7, 0x09D7, CM));
        } else if i == 49 { assert(p[49] == rec(0x09D7, 0x09D7, CM));
        }
    }
    assert forall|i: int|
        #![trigger p[i], p[i + 1]]
        0 <= i && i + 1 < p.len() implies p[i].end < p[i + 1].start by {}
    assert(p[0] == rec(0x07F8, 0x07F8, IS));
    assert(p[49] == rec(0x09D7, 0x09D7, CM));
}

/// The part's length, order and endpoints.
#[verifier::rlimit(100)]
#[verifier::spinoff_prover]
proof fn lemma_part5_sorted()
    ensures
        records_part5().len() == 50,
        records_sorted(records_part5()),
        records_part5()[0].start == 0x09DC,
        records_part5()[49].end == 0x0AF1,
{
    let p = records_part5();
    assert forall|i: int|
        0 <= i < p.len() implies ((#[trigger] p[i]).start <= p[i].end && p[i].end <= 0x10FFFF && (
    i + 1 < p.len() ==> p[i].end < p[i + 1].start)) by {
        if i == 0 { assert(p[0] == rec(0x09DC, 0x09DD, AL)); assert(p[1] == rec(0x09DF, 0x09E1, AL));
        } else if i == 1 { assert(p[1] == rec(0x09DF, 0x09E1, AL)); assert(p[2] == rec(0x09E2, 0x09E3, CM));
        } else if i == 2 { assert(p[2] == rec(0x09E2, 0x09E3, CM)); assert(p[3] == rec(0x09E6, 0x09EF, NU));
        } else if i == 3 { assert(p[3] == rec(0x09E6, 0x09EF, NU)); assert(p[4] == rec(0x09F0, 0x09F1, AL));
        } else if i == 4 { assert(p[4] == rec(0x09F0, 0x09F1, AL)); assert(p[5] == rec(0x09F2, 0x09F3, PO));
        } else if i == 5 { assert(p[5] == rec(0x09F2, 0x09F3, PO)); assert(p[6] == rec(0x09F4, 0x09F8, AL));
        } else if i == 6 { assert(p[6] == rec(0x09F4, 0x09F8, AL)); assert(p[7] == rec(0x09F9, 0x09F9, PO));
        } else if i == 7 { assert(p[7] == rec(0x09F9, 0x09F9, PO)); assert(p[8] == rec(0x09FA, 0x09FA, AL));
        } else if i == 8 { assert(p[8] == rec(0x09FA, 0x09FA, AL)); assert(p[9] == rec(0x09FB, 0x09FB, PR));
        } else if i == 9 { assert(p[9] == rec(0x09FB, 0x09FB, PR)); assert(p[10] == rec(0x09FC, 0x09FD, AL));
        } else if i == 10 { assert(p[10] == rec(0x09FC, 0x09FD, AL)); assert(p[11] == rec(0x09FE, 0x09FE, CM));
        } else if i == 11 { assert(p[11] == rec(0x09FE, 0x09FE, CM)); assert(p[12] == rec(0x0A01, 0x0A03, CM));
        } else if i == 12 { assert(p[12] == rec(0x0A01, 0x0A03, CM)); assert(p[13] == rec(0x0A05, 0x0A0A, AL));
        } else if i == 13 { assert(p[13] == rec(0x0A05, 0x0A0A, AL)); assert(p[14] == rec(0x0A0F, 0x0A10, AL));
        } else if i == 14 { assert(p[14] == rec(0x0A0F, 0x0A10, AL)); assert(p[15] == rec(0x0A13, 0x0A28, AL));
        } else if i == 15 { assert(p[15] == rec(0x0A13, 0x0A28, AL)); assert(p[16] == rec(0x0A2A, 0x0A30, AL));
        } else if i == 16 { assert(p[16] == rec(0x0A2A, 0x0A30, AL)); assert(p[17] == rec(0x0A32, 0x0A33, AL));
        } else if i == 17 { assert(p[17] == rec(0x0A32, 0x0A33, AL)); assert(p[18] == rec(0x0A35, 0x0A36, AL));
        } else if i == 18 { assert(p[18] == rec(0x0A35, 0x0A36, AL)); assert(p[19] == rec(0x0A38, 0x0A39, AL));
        } else if i == 19 { assert(p[19] == rec(0x0A38, 0x0A39, AL)); assert(p[20] == rec(0x0A3C, 0x0A3C, CM));
        } else if i == 20 { assert(p[20] == rec(0x0A3C, 0x0A3C, CM)); assert(p[21] == rec(0x0A3E, 0x0A42, CM));
        } else if i == 21 { assert(p[21] == rec(0x0A3E, 0x0A42, CM)); assert(p[22] == rec(0x0A47, 0x0A48, CM));
        } else if i == 22 { assert(p[22] == rec(0x0A47, 0x0A48, CM)); assert(p[23] == rec(0x0A4B, 0x0A4D, CM));
        } else if i == 23 { assert(p[23] == rec(0x0A4B, 0x0A4D, CM)); assert(p[24] == rec(0x0A51, 0x0A51, CM));
        } else if i == 24 { assert(p[24] == rec(0x0A51, 0x0A51, CM)); assert(p[25] == rec(0x0A59, 0x0A5C, AL));
        } else if i == 25 { assert(p[25] == rec(0x0A59, 0x0A5C, AL)); assert(p[26] == rec(0x0A5E, 0x0A5E, AL));
        } else if i == 26 { assert(p[26] == rec(0x0A5E, 0x0A5E, AL)); assert(p[27] == rec(0x0A66, 0x0A6F, NU));
        } else if i == 27 { assert(p[27] == rec(0x0A66, 0x0A6F, NU)); assert(p[28] == rec(0x0A70, 0x0A71, CM));
        } else if i == 28 { assert(p[28] == rec(0x0A70, 0x0A71, CM)); assert(p[29] == rec(0x0A72, 0x0A74, AL));
        } else if i == 29 { assert(p[29] == rec(0x0A72, 0x0A74, AL)); assert(p[30] == rec(0x0A75, 0x0A75, CM));
        } else if i == 30 { assert(p[30] == rec(0x0A75, 0x0A75, CM)); assert(p[31] == rec(0x0A76, 0x0A76, AL));
        } else if i == 31 { assert(p[31] == rec(0x0A76, 0x0A76, AL)); assert(p[32] == rec(0x0A81, 0x0A83, CM));
        } else if i == 32 { assert(p[32] == rec(0x0A81, 0x0A83, CM)); assert(p[33] == rec(0x0A85, 0x0A8D, AL));
        } else if i == 33 { assert(p[33] == rec(0x0A85, 0x0A8D, AL)); assert(p[34] == rec(0x0A8F, 0x0A91, AL));
        } else if i == 34 { assert(p[34] == rec(0x0A8F, 0x0A91, AL)); assert(p[35] == rec(0x0A93, 0x0AA8, AL));
        } else if i == 35 { assert(p[35] == rec(0x0A93, 0x0AA8, AL)); assert(p[36] == rec(0x0AAA, 0x0AB0, AL));
        } else if i == 36 { assert(p[36] == rec(0x0AAA, 0x0AB0, AL)); assert(p[37] == rec(0x0AB2, 0x0AB3, AL));
        } else if i == 37 { assert(p[37] == rec(0x0AB2, 0x0AB3, AL)); assert(p[38] == rec(0x0AB5, 0x0AB9, AL));
        } else if i == 38 { assert(p[38] == rec(0x0AB5, 0x0AB9, AL)); assert(p[39] == rec(0x0ABC, 0x0ABC, CM));
        } else if i == 39 { assert(p[39] == rec(0x0ABC, 0x0ABC, CM)); assert(p[40] == rec(0x0ABD, 0x0ABD, AL));
        } else if i == 40 { assert(p[40] == rec(0x0ABD, 0x0ABD, AL)); assert(p[41] == rec(0x0ABE, 0x0AC5, CM));
        } else if i == 41 { assert(p[41] == rec(0x0ABE, 0x0AC5, CM)); assert(p[42] == rec(0x0AC7, 0x0AC9, CM));
        } else if i == 42 { assert(p[42] == rec(0x0AC7, 0x0AC9, CM)); assert(p[43] == rec(0x0ACB, 0x0ACD, CM));
        } else if i == 43 { assert(p[43] == rec(0x0ACB, 0x0ACD, CM)); assert(p[44] == rec(0x0AD0, 0x0AD0, AL));
        } else if i == 44 { assert(p[44] == rec(0x0AD0, 0x0AD0, AL)); assert(p[45] == rec(0x0AE0, 0x0AE1, AL));
        } else if i == 45 { assert(p[45] == rec(0x0AE0, 0x0AE1, AL)); assert(p[46] == rec(0x0AE2, 0x0AE3, CM));
        } else if i == 46 { assert(p[46] == rec(0x0AE2, 0x0AE3, CM)); assert(p[47] == rec(0x0AE6, 0x0AEF, NU));
        } else if i == 47 { assert(p[47] == rec(0x0AE6, 0x0AEF, NU)); assert(p[48] == rec(0x0AF0, 0x0AF0, AL));
        } else if i == 48 { assert(p[48] == rec(0x0AF0, 0x0AF0, AL)); assert(p[49] == rec(0x0AF1, 0x0AF1, PR));
        } else if i == 49 { assert(p[49] == rec(0x0AF1, 0x0AF1, PR));
        }
    }
    assert forall|i: int|
        #![trigger p[i], p[i + 1]]
        0 <= i && i + 1 < p.len() implies p[i].end < p[i + 1].start by {}
    assert(p[0] == rec(0x09DC, 0x09DD, AL));
    assert(p[49] == rec(0x0AF1, 0x0AF1, PR));
}

/// The part's length, order and endpoints.
#[verifier::rlimit(100)]
#[verifier::spinoff_prover]
proof fn lemma_part6_sorted()
    ensures
        records_part6().len() == 50,
        records_sorted(records_part6()),
        records_part6()[0].start == 0x0AF9,
        records_part6()[49].end == 0x0C4D,
{
    let p = records_part6();
    assert forall|i: int|
        0 <= i < p.len() implies ((#[trigger] p[i]).start <= p[i].end && p[i].end <= 0x10FFFF && (
    i + 1 < p.len() ==> p[i].end < p[i + 1].start)) by {
        if i == 0 { assert(p[0] == rec(0x0AF9, 0x0AF9, AL)); assert(p[1] == rec(0x0AFA, 0x0AFF, CM));
        } else if i == 1 { assert(p[1] == rec(0x0AFA, 0x0AFF, CM)); assert(p[2] == rec(0x0B01, 0x0B03, CM));
        } else if i == 2 { assert(p[2] == rec(0x0B01, 0x0B03, CM)); assert(p[3] == rec(0x0B05, 0x0B0C, AL));
        } else if i == 3 { assert(p[3] == rec(0x0B05, 0x0B0C, AL)); assert(p[4] == rec(0x0B0F, 0x0B10, AL));
        } else if i == 4 { assert(p[4] == rec(0x0B0F, 0x0B10, AL)); assert(p[5] == rec(0x0B13, 0x0B28, AL));
        } else if i == 5 { assert(p[5] == rec(0x0B13, 0x0B28, AL)); assert(p[6] == rec(0x0B2A, 0x0B30, AL));
        } else if i == 6 { assert(p[6] == rec(0x0B2A, 0x0B30, AL)); assert(p[7] == rec(0x0B32, 0x0B33, AL));
        } else if i == 7 { assert(p[7] == rec(0x0B32, 0x0B33, AL)); assert(p[8] == rec(0x0B35, 0x0B39, AL));
        } else if i == 8 { assert(p[8] == rec(0x0B35, 0x0B39, AL)); assert(p[9] == rec(0x0B3C, 0x0B3C, CM));
        } else if i == 9 { assert(p[9] == rec(0x0B3C, 0x0B3C, CM)); assert(p[10] == rec(0x0B3D, 0x0B3D, AL));
        } else if i == 10 { assert(p[10] == rec(0x0B3D, 0x0B3D, AL)); assert(p[11] == rec(0x0B3E, 0x0B44, CM));
        } else if i == 11 { assert(p[11] == rec(0x0B3E, 0x0B44, CM)); assert(p[12] == rec(0x0B47, 0x0B48, CM));
        } else if i == 12 { assert(p[12] == rec(0x0B47, 0x0B48, CM)); assert(p[13] == rec(0x0B4B, 0x0B4D, CM));
        } else if i == 13 { assert(p[13] == rec(0x0B4B, 0x0B4D, CM)); assert(p[14] == rec(0x0B55, 0x0B57, CM));
        } else if i == 14 { assert(p[14] == rec(0x0B55, 0x0B57, CM)); assert(p[15] == rec(0x0B5C, 0x0B5D, AL));
        } else if i == 15 { assert(p[15] == rec(0x0B5C, 0x0B5D, AL)); assert(p[16] == rec(0x0B5F, 0x0B61, AL));
        } else if i == 16 { assert(p[16] == rec(0x0B5F, 0x0B61, AL)); assert(p[17] == rec(0x0B62, 0x0B63, CM));
        } else if i == 17 { assert(p[17] == rec(0x0B62, 0x0B63, CM)); assert(p[18] == rec(0x0B66, 0x0B6F, NU));
        } else if i == 18 { assert(p[18] == rec(0x0B66, 0x0B6F, NU)); assert(p[19] == rec(0x0B70, 0x0B77, AL));
        } else if i == 19 { assert(p[19] == rec(0x0B70, 0x0B77, AL)); assert(p[20] == rec(0x0B82, 0x0B82, CM));
        } else if i == 20 { assert(p[20] == rec(0x0B82, 0x0B82, CM)); assert(p[21] == rec(0x0B83, 0x0B83, AL));
        } else if i == 21 { assert(p[21] == rec(0x0B83, 0x0B83, AL)); assert(p[22] == rec(0x0B85, 0x0B8A, AL));
        } else if i == 22 { assert(p[22] == rec(0x0B85, 0x0B8A, AL)); assert(p[23] == rec(0x0B8E, 0x0B90, AL));
        } else if i == 23 { assert(p[23] == rec(0x0B8E, 0x0B90, AL)); assert(p[24] == rec(0x0B92, 0x0B95, AL));
        } else if i == 24 { assert(p[24] == rec(0x0B92, 0x0B95, AL)); assert(p[25] == rec(0x0B99, 0x0B9A, AL));
        } else if i == 25 { assert(p[25] == rec(0x0B99, 0x0B9A, AL)); assert(p[26] == rec(0x0B9C, 0x0B9C, AL));
        } else if i == 26 { assert(p[26] == rec(0x0B9C, 0x0B9C, AL)); assert(p[27] == rec(0x0B9E, 0x0B9F, AL));
        } else if i == 27 { assert(p[27] == rec(0x0B9E, 0x0B9F, AL)); assert(p[28] == rec(0x0BA3, 0x0BA4, AL));
        } else if i == 28 { assert(p[28] == rec(0x0BA3, 0x0BA4, AL)); assert(p[29] == rec(0x0BA8, 0x0BAA, AL));
        } else if i == 29 { assert(p[29] == rec(0x0BA8, 0x0BAA, AL)); assert(p[30] == rec(0x0BAE, 0x0BB9, AL));
        } else if i == 30 { assert(p[30] == rec(0x0BAE, 0x0BB9, AL)); assert(p[31] == rec(0x0BBE, 0x0BC2, CM));
        } else if i == 31 { assert(p[31] == rec(0x0BBE, 0x0BC2, CM)); assert(p[32] == rec(0x0BC6, 0x0BC8, CM));
        } else if i == 32 { assert(p[32] == rec(0x0BC6, 0x0BC8, CM)); assert(p[33] == rec(0x0BCA, 0x0BCD, CM));
        } else if i == 33 { assert(p[33] == rec(0x0BCA, 0x0BCD, CM)); assert(p[34] == rec(0x0BD0, 0x0BD0, AL));
        } else if i == 34 { assert(p[34] == rec(0x0BD0, 0x0BD0, AL)); assert(p[35] == rec(0x0BD7, 0x0BD7, CM));
        } else if i == 35 { assert(p[35] == rec(0x0BD7, 0x0BD7, CM)); assert(p[36] == rec(0x0BE6, 0x0BEF, NU));
        } else if i == 36 { assert(p[36] == rec(0x0BE6, 0x0BEF, NU)); assert(p[37] == rec(0x0BF0, 0x0BF8, AL));
        } else if i == 37 { assert(p[37] == rec(0x0BF0, 0x0BF8, AL)); assert(p[38] == rec(0x0BF9, 0x0BF9, PR));
        } else if i == 38 { assert(p[38] == rec(0x0BF9, 0x0BF9, PR)); assert(p[39] == rec(0x0BFA, 0x0BFA, AL));
        } else if i == 39 { assert(p[39] == rec(0x0BFA, 0x0BFA, AL)); assert(p[40] == rec(0x0C00, 0x0C04, CM));
        } else if i == 40 { assert(p[40] == rec(0x0C00, 0x0C04, CM)); assert(p[41] == rec(0x0C05, 0x0C0C, AL));
        } else if i == 41 { assert(p[41] == rec(0x0C05, 0x0C0C, AL)); assert(p[42] == rec(0x0C0E, 0x0C10, AL));
        } else if i == 42 { assert(p[42] == rec(0x0C0E, 0x0C10, AL)); assert(p[43] == rec(0x0C12, 0x0C28, AL));
        } else if i == 43 { assert(p[43] == rec(0x0C12, 0x0C28, AL)); assert(p[44] == rec(0x0C2A, 0x0C39, AL));
        } else if i == 44 { assert(p[44] == rec(0x0C2A, 0x0C39, AL)); assert(p[45] == rec(0x0C3C, 0x0C3C, CM));
        } else if i == 45 { assert(p[45] == rec(0x0C3C, 0x0C3C, CM)); assert(p[46] == rec(0x0C3D, 0x0C3D, AL));
        } else if i == 46 { assert(p[46] == rec(0x0C3D, 0x0C3D, AL)); assert(p[47] == rec(0x0C3E, 0x0C44, CM));
        } else if i == 47 { assert(p[47] == rec(0x0C3E, 0x0C44, CM)); assert(p[48] == rec(0x0C46, 0x0C48, CM));
        } else if i == 48 { assert(p[48] == rec(0x0C46, 0x0C48, CM)); assert(p[49] == rec(0x0C4A, 0x0C4D, CM));
        } else if i == 49 { assert(p[49] == rec(0x0C4A, 0x0C4D, CM));
        }
    }
    assert forall|i: int|
        #![trigger p[i], p[i + 1]]
        0 <= i && i + 1 < p.len() implies p[i].end < p[i + 1].start by {}
    assert(p[0] == rec(0x0AF9, 0x0AF9, AL));
    assert(p[49] == rec(0x0C4A, 0x0C4D, CM));
}

/// The part's length, order and endpoints.
#[verifier::rlimit(100)]
#[verifier::spinoff_prover]
proof fn lemma_part7_sorted()
    ensures
        records_part7().len() == 50,
        records_sorted(records_part7()),
        records_part7()[0].start == 0x0C55,
        records_part7()[49].end == 0x0DC6,
{
    let p = records_part7();
    assert forall|i: int|
        0 <= i < p.len() implies ((#[trigger] p[i]).start <= p[i].end && p[i].end <= 0x10FFFF && (
    i + 1 < p.len() ==> p[i].end < p[i + 1].start)) by {
        if i == 0 { assert(p[0] == rec(0x0C55, 0x0C56, CM)); assert(p[1] == rec(0x0C58, 0x0C5A, AL));
        } else if i == 1 { assert(p[1] == rec(0x0C58, 0x0C5A, AL)); assert(p[2] == rec(0x0C5D, 0x0C5D, AL));
        } else if i == 2 { assert(p[2] == rec(0x0C5D, 0x0C5D, AL)); assert(p[3] == rec(0x0C60, 0x0C61, AL));
        } else if i == 3 { assert(p[3] == rec(0x0C60, 0x0C61, AL)); assert(p[4] == rec(0x0C62, 0x0C63, CM));
        } else if i == 4 { assert(p[4] == rec(0x0C62, 0x0C63, CM)); assert(p[5] == rec(0x0C66, 0x0C6F, NU));
        } else if i == 5 { assert(p[5] == rec(0x0C66, 0x0C6F, NU)); assert(p[6] == rec(0x0C77, 0x0C77, BB));
        } else if i == 6 { assert(p[6] == rec(0x0C77, 0x0C77, BB)); assert(p[7] == rec(0x0C78, 0x0C80, AL));
        } else if i == 7 { assert(p[7] == rec(0x0C78, 0x0C80, AL)); assert(p[8] == rec(0x0C81, 0x0C83, CM));
        } else if i == 8 { assert(p[8] == rec(0x0C81, 0x0C83, CM)); assert(p[9] == rec(0x0C84, 0x0C84, BB));
        } else if i == 9 { assert(p[9] == rec(0x0C84, 0x0C84, BB)); assert(p[10] == rec(0x0C85, 0x0C8C, AL));
        } else if i == 10 { assert(p[10] == rec(0x0C85, 0x0C8C, AL)); assert(p[11] == rec(0x0C8E, 0x0C90, AL));
        } else if i == 11 { assert(p[11] == rec(0x0C8E, 0x0C90, AL)); assert(p[12] == rec(0x0C92, 0x0CA8, AL));
        } else if i == 12 { assert(p[12] == rec(0x0C92, 0x0CA8, AL)); assert(p[13] == rec(0x0CAA, 0x0CB3, AL));
        } else if i == 13 { assert(p[13] == rec(0x0CAA, 0x0CB3, AL)); assert(p[14] == rec(0x0CB5, 0x0CB9, AL));
        } else if i == 14 { assert(p[14] == rec(0x0CB5, 0x0CB9, AL)); assert(p[15] == rec(0x0CBC, 0x0CBC, CM));
        } else if i == 15 { assert(p[15] == rec(0x0CBC, 0x0CBC, CM)); assert(p[16] == rec(0x0CBD, 0x0CBD, AL));
        } else if i == 16 { assert(p[16] == rec(0x0CBD, 0x0CBD, AL)); assert(p[17] == rec(0x0CBE, 0x0CC4, CM));
        } else if i == 17 { assert(p[17] == rec(0x0CBE, 0x0CC4, CM)); assert(p[18] == rec(0x0CC6, 0x0CC8, CM));
        } else if i == 18 { assert(p[18] == rec(0x0CC6, 0x0CC8, CM)); assert(p[19] == rec(0x0CCA, 0x0CCD, CM));
        } else if i == 19 { assert(p[19] == rec(0x0CCA, 0x0CCD, CM)); assert(p[20] == rec(0x0CD5, 0x0CD6, CM));
        } else if i == 20 { assert(p[20] == rec(0x0CD5, 0x0CD6, CM)); assert(p[21] == rec(0x0CDD, 0x0CDE, AL));
        } else if i == 21 { assert(p[21] == rec(0x0CDD, 0x0CDE, AL)); assert(p[22] == rec(0x0CE0, 0x0CE1, AL));
        } else if i == 22 { assert(p[22] == rec(0x0CE0, 0x0CE1, AL)); assert(p[23] == rec(0x0CE2, 0x0CE3, CM));
        } else if i == 23 { assert(p[23] == rec(0x0CE2, 0x0CE3, CM)); assert(p[24] == rec(0x0CE6, 0x0CEF, NU));
        } else if i == 24 { assert(p[24] == rec(0x0CE6, 0x0CEF, NU)); assert(p[25] == rec(0x0CF1, 0x0CF2, AL));
        } else if i == 25 { assert(p[25] == rec(0x0CF1, 0x0CF2, AL)); assert(p[26] == rec(0x0D00, 0x0D03, CM));
        } else if i == 26 { assert(p[26] == rec(0x0D00, 0x0D03, CM)); assert(p[27] == rec(0x0D04, 0x0D0C, AL));
        } else if i == 27 { assert(p[27] == rec(0x0D04, 0x0D0C, AL)); assert(p[28] == rec(0x0D0E, 0x0D10, AL));
        } else if i == 28 { assert(p[28] == rec(0x0D0E, 0x0D10, AL)); assert(p[29] == rec(0x0D12, 0x0D3A, AL));
        } else if i == 29 { assert(p[29] == rec(0x0D12, 0x0D3A, AL)); assert(p[30] == rec(0x0D3B, 0x0D3C, CM));
        } else if i == 30 { assert(p[30] == rec(0x0D3B, 0x0D3C, CM)); assert(p[31] == rec(0x0D3D, 0x0D3D, AL));
        } else if i == 31 { assert(p[31] == rec(0x0D3D, 0x0D3D, AL)); assert(p[32] == rec(0x0D3E, 0x0D44, CM));
        } else if i == 32 { assert(p[32] == rec(0x0D3E, 0x0D44, CM)); assert(p[33] == rec(0x0D46, 0x0D48, CM));
        } else if i == 33 { assert(p[33] == rec(0x0D46, 0x0D48, CM)); assert(p[34] == rec(0x0D4A, 0x0D4D, CM));
        } else if i == 34 { assert(p[34] == rec(0x0D4A, 0x0D4D, CM)); assert(p[35] == rec(0x0D4E, 0x0D4F, AL));
        } else if i == 35 { assert(p[35] == rec(0x0D4E, 0x0D4F, AL)); assert(p[36] == rec(0x0D54, 0x0D56, AL));
        } else if i == 36 { assert(p[36] == rec(0x0D54, 0x0D56, AL)); assert(p[37] == rec(0x0D57, 0x0D57, CM));
        } else if i == 37 { assert(p[37] == rec(0x0D57, 0x0D57, CM)); assert(p[38] == rec(0x0D58, 0x0D61, AL));
        } else if i == 38 { assert(p[38] == rec(0x0D58, 0x0D61, AL)); assert(p[39] == rec(0x0D62, 0x0D63, CM));
        } else if i == 39 { assert(p[39] == rec(0x0D62, 0x0D63, CM)); assert(p[40] == rec(0x0D66, 0x0D6F, NU));
        } else if i == 40 { assert(p[40] == rec(0x0D66, 0x0D6F, NU)); assert(p[41] == rec(0x0D70, 0x0D78, AL));
        } else if i == 41 { assert(p[41] == rec(0x0D70, 0x0D78, AL)); assert(p[42] == rec(0x0D79, 0x0D79, PO));
        } else if i == 42 { assert(p[42] == rec(0x0D79, 0x0D79, PO)); assert(p[43] == rec(0x0D7A, 0x0D7F, AL));
        } else if i == 43 { assert(p[43] == rec(0x0D7A, 0x0D7F, AL)); assert(p[44] == rec(0x0D81, 0x0D83, CM));
        } else if i == 44 { assert(p[44] == rec(0x0D81, 0x0D83, CM)); assert(p[45] == rec(0x0D85, 0x0D96, AL));
        } else if i == 45 { assert(p[45] == rec(0x0D85, 0x0D96, AL)); assert(p[46] == rec(0x0D9A, 0x0DB1, AL));
        } else if i == 46 { assert(p[46] == rec(0x0D9A, 0x0DB1, AL)); assert(p[47] == rec(0x0DB3, 0x0DBB, AL));
        } else if i == 47 { assert(p[47] == rec(0x0DB3, 0x0DBB, AL)); assert(p[48] == rec(0x0DBD, 0x0DBD, AL));
        } else if i == 48 { assert(p[48] == rec(0x0DBD, 0x0DBD, AL)); assert(p[49] == rec(0x0DC0, 0x0DC6, AL));
        } else if i == 49 { assert(p[49] == rec(0x0DC0, 0x0DC6, AL));
        }
    }
    assert forall|i: int|
        #![trigger p[i], p[i + 1]]
        0 <= i && i + 1 < p.len() implies p[i].end < p[i + 1].start by {}
    assert(p[0] == rec(0x0C55, 0x0C56, CM));
    assert(p[49] == rec(0x0DC0, 0x0DC6, AL));
}

/// The part's length, order and endpoints.
#[verifier::rlimit(100)]
#[verifier::spinoff_prover]
proof fn lemma_part8_sorted()
    ensures
        records_part8().len() == 50,
        records_sorted(records_part8()),
        records_part8()[0].start == 0x0DCA,
        records_part8()[49].end == 0x0F3C,
{
    let p = records_part8();
    assert forall|i: int|
        0 <= i < p.len() implies ((#[trigger] p[i]).start <= p[i].end && p[i].end <= 0x10FFFF && (
    i + 1 < p.len() ==> p[i].end < p[i + 1].start)) by {
        if i == 0 { assert(p[0] == rec(0x0DCA, 0x0DCA, CM)); assert(p[1] == rec(0x0DCF, 0x0DD4, CM));
        } else if i == 1 { assert(p[1] == rec(0x0DCF, 0x0DD4, CM)); assert(p[2] == rec(0x0DD6, 0x0DD6, CM));
        } else if i == 2 { assert(p[2] == rec(0x0DD6, 0x0DD6, CM)); assert(p[3] == rec(0x0DD8, 0x0DDF, CM));
        } else if i == 3 { assert(p[3] == rec(0x0DD8, 0x0DDF, CM)); assert(p[4] == rec(0x0DE6, 0x0DEF, NU));
        } else if i == 4 { assert(p[4] == rec(0x0DE6, 0x0DEF, NU)); assert(p[5] == rec(0x0DF2, 0x0DF3, CM));
        } else if i == 5 { assert(p[5] == rec(0x0DF2, 0x0DF3, CM)); assert(p[6] == rec(0x0DF4, 0x0DF4, AL));
        } else if i == 6 { assert(p[6] == rec(0x0DF4, 0x0DF4, AL)); assert(p[7] == rec(0x0E01, 0x0E3A, SA));
        } else if i == 7 { assert(p[7] == rec(0x0E01, 0x0E3A, SA)); assert(p[8] == rec(0x0E3F, 0x0E3F, PR));
        } else if i == 8 { assert(p[8] == rec(0x0E3F, 0x0E3F, PR)); assert(p[9] == rec(0x0E40, 0x0E4E, SA));
        } else if i == 9 { assert(p[9] == rec(0x0E40, 0x0E4E, SA)); assert(p[10] == rec(0x0E4F, 0x0E4F, AL));
        } else if i == 10 { assert(p[10] == rec(0x0E4F, 0x0E4F, AL)); assert(p[11] == rec(0x0E50, 0x0E59, NU));
        } else if i == 11 { assert(p[11] == rec(0x0E50, 0x0E59, NU)); assert(p[12] == rec(0x0E5A, 0x0E5B, BA));
        } else if i == 12 { assert(p[12] == rec(0x0E5A, 0x0E5B, BA)); assert(p[13] == rec(0x0E81, 0x0E82, SA));
        } else if i == 13 { assert(p[13] == rec(0x0E81, 0x0E82, SA)); assert(p[14] == rec(0x0E84, 0x0E84, SA));
        } else if i == 14 { assert(p[14] == rec(0x0E84, 0x0E84, SA)); assert(p[15] == rec(0x0E86, 0x0E8A, SA));
        } else if i == 15 { assert(p[15] == rec(0x0E86, 0x0E8A, SA)); assert(p[16] == rec(0x0E8C, 0x0EA3, SA));
        } else if i == 16 { assert(p[16] == rec(0x0E8C, 0x0EA3, SA)); assert(p[17] == rec(0x0EA5, 0x0EA5, SA));
        } else if i == 17 { assert(p[17] == rec(0x0EA5, 0x0EA5, SA)); assert(p[18] == rec(0x0EA7, 0x0EBD, SA));
        } else if i == 18 { assert(p[18] == rec(0x0EA7, 0x0EBD, SA)); assert(p[19] == rec(0x0EC0, 0x0EC4, SA));
        } else if i == 19 { assert(p[19] == rec(0x0EC0, 0x0EC4, SA)); assert(p[20] == rec(0x0EC6, 0x0EC6, SA));
        } else if i == 20 { assert(p[20] == rec(0x0EC6, 0x0EC6, SA)); assert(p[21] == rec(0x0EC8, 0x0ECD, SA));
        } else if i == 21 { assert(p[21] == rec(0x0EC8, 0x0ECD, SA)); assert(p[22] == rec(0x0ED0, 0x0ED9, NU));
        } else if i == 22 { assert(p[22] == rec(0x0ED0, 0x0ED9, NU)); assert(p[23] == rec(0x0EDC, 0x0EDF, SA));
        } else if i == 23 { assert(p[23] == rec(0x0EDC, 0x0EDF, SA)); assert(p[24] == rec(0x0F00, 0x0F00, AL));
        } else if i == 24 { assert(p[24] == rec(0x0F00, 0x0F00, AL)); assert(p[25] == rec(0x0F01, 0x0F04, BB));
        } else if i == 25 { assert(p[25] == rec(0x0F01, 0x0F04, BB)); assert(p[26] == rec(0x0F05, 0x0F05, AL));
        } else if i == 26 { assert(p[26] == rec(0x0F05, 0x0F05, AL)); assert(p[27] == rec(0x0F06, 0x0F07, BB));
        } else if i == 27 { assert(p[27] == rec(0x0F06, 0x0F07, BB)); assert(p[28] == rec(0x0F08, 0x0F08, GL));
        } else if i == 28 { assert(p[28] == rec(0x0F08, 0x0F08, GL)); assert(p[29] == rec(0x0F09, 0x0F0A, BB));
        } else if i == 29 { assert(p[29] == rec(0x0F09, 0x0F0A, BB)); assert(p[30] == rec(0x0F0B, 0x0F0B, BA));
        } else if i == 30 { assert(p[30] == rec(0x0F0B, 0x0F0B, BA)); assert(p[31] == rec(0x0F0C, 0x0F0C, GL));
        } else if i == 31 { assert(p[31] == rec(0x0F0C, 0x0F0C, GL)); assert(p[32] == rec(0x0F0D, 0x0F11, EX));
        } else if i == 32 { assert(p[32] == rec(0x0F0D, 0x0F11, EX)); assert(p[33] == rec(0x0F12, 0x0F12, GL));
        } else if i == 33 { assert(p[33] == rec(0x0F12, 0x0F12, GL)); assert(p[34] == rec(0x0F13, 0x0F13, AL));
        } else if i == 34 { assert(p[34] == rec(0x0F13, 0x0F13, AL)); assert(p[35] == rec(0x0F14, 0x0F14, EX));
        } else if i == 35 { assert(p[35] == rec(0x0F14, 0x0F14, EX)); assert(p[36] == rec(0x0F15, 0x0F17, AL));
        } else if i == 36 { assert(p[36] == rec(0x0F15, 0x0F17, AL)); assert(p[37] == rec(0x0F18, 0x0F19, CM));
        } else if i == 37 { assert(p[37] == rec(0x0F18, 0x0F19, CM)); assert(p[38] == rec(0x0F1A, 0x0F1F, AL));
        } else if i == 38 { assert(p[38] == rec(0x0F1A, 0x0F1F, AL)); assert(p[39] == rec(0x0F20, 0x0F29, NU));
        } else if i == 39 { assert(p[39] == rec(0x0F20, 0x0F29, NU)); assert(p[40] == rec(0x0F2A, 0x0F33, AL));
        } else if i == 40 { assert(p[40] == rec(0x0F2A, 0x0F33, AL)); assert(p[41] == rec(0x0F34, 0x0F34, BA));
        } else if i == 41 { assert(p[41] == rec(0x0F34, 0x0F34, BA)); assert(p[42] == rec(0x0F35, 0x0F35, CM));
        } else if i == 42 { assert(p[42] == rec(0x0F35, 0x0F35, CM)); assert(p[43] == rec(0x0F36, 0x0F36, AL));
        } else if i == 43 { assert(p[43] == rec(0x0F36, 0x0F36, AL)); assert(p[44] == rec(0x0F37, 0x0F37, CM));
        } else if i == 44 { assert(p[44] == rec(0x0F37, 0x0F37, CM)); assert(p[45] == rec(0x0F38, 0x0F38, AL));
        } else if i == 45 { assert(p[45] == rec(0x0F38, 0x0F38, AL)); assert(p[46] == rec(0x0F39, 0x0F39, CM));
        } else if i == 46 { assert(p[46] == rec(0x0F39, 0x0F39, CM)); assert(p[47] == rec(0x0F3A, 0x0F3A, OP));
        } else if i == 47 { assert(p[47] == rec(0x0F3A, 0x0F3A, OP)); assert(p[48] == rec(0x0F3B, 0x0F3B, CL));
        } else if i == 48 { assert(p[48] == rec(0x0F3B, 0x0F3B, CL)); assert(p[49] == rec(0x0F3C, 0x0F3C, OP));
        } else if i == 49 { assert(p[49] == rec(0x0F3C, 0x0F3C, OP));
        }
    }
    assert forall|i: int|
        #![trigger p[i], p[i + 1]]
        0 <= i && i + 1 < p.len() implies p[i].end < p[i + 1].start by {}
    assert(p[0] == rec(0x0DCA, 0x0DCA, CM));
    assert(p[49] == rec(0x0F3C, 0x0F3C, OP));
}

/// The part's length, order and endpoints.
#[verifier::rlimit(100)]
#[verifier::spinoff_prover]
proof fn lemma_part9_sorted()
    ensures
        records_part9().len() == 50,
        records_sorted(records_part9()),
        records_part9()[0].start == 0x0F3D,
        records_part9()[49].end == 0x1310,
{
    let p = records_part9();
    assert forall|i: int|
        0 <= i < p.len() implies ((#[trigger] p[i]).start <= p[i].end && p[i].end <= 0x10FFFF && (
    i + 1 < p.len() ==> p[i].end < p[i + 1].start)) by {
        if i == 0 { assert(p[0] == rec(0x0F3D, 0x0F3D, CL)); assert(p[1] == rec(0x0F3E, 0x0F3F, CM));
        } else if i == 1 { assert(p[1] == rec(0x0F3E, 0x0F3F, CM)); assert(p[2] == rec(0x0F40, 0x0F47, AL));
        } else if i == 2 { assert(p[2] == rec(0x0F40, 0x0F47, AL)); assert(p[3] == rec(0x0F49, 0x0F6C, AL));
        } else if i == 3 { assert(p[3] == rec(0x0F49, 0x0F6C, AL)); assert(p[4] == rec(0x0F71, 0x0F7E, CM));
        } else if i == 4 { assert(p[4] == rec(0x0F71, 0x0F7E, CM)); assert(p[5] == rec(0x0F7F, 0x0F7F, BA));
        } else if i == 5 { assert(p[5] == rec(0x0F7F, 0x0F7F, BA)); assert(p[6] == rec(0x0F80, 0x0F84, CM));
        } else if i == 6 { assert(p[6] == rec(0x0F80, 0x0F84, CM)); assert(p[7] == rec(0x0F85, 0x0F85, BA));
        } else if i == 7 { assert(p[7] == rec(0x0F85, 0x0F85, BA)); assert(p[8] == rec(0x0F86, 0x0F87, CM));
        } else if i == 8 { assert(p[8] == rec(0x0F86, 0x0F87, CM)); assert(p[9] == rec(0x0F88, 0x0F8C, AL));
        } else if i == 9 { assert(p[9] == rec(0x0F88, 0x0F8C, AL)); assert(p[10] == rec(0x0F8D, 0x0F97, CM));
        } else if i == 10 { assert(p[10] == rec(0x0F8D, 0x0F97, CM)); assert(p[11] == rec(0x0F99, 0x0FBC, CM));
        } else if i == 11 { assert(p[11] == rec(0x0F99, 0x0FBC, CM)); assert(p[12] == rec(0x0FBE, 0x0FBF, BA));
        } else if i == 12 { assert(p[12] == rec(0x0FBE, 0x0FBF, BA)); assert(p[13] == rec(0x0FC0, 0x0FC5, AL));
        } else if i == 13 { assert(p[13] == rec(0x0FC0, 0x0FC5, AL)); assert(p[14] == rec(0x0FC6, 0x0FC6, CM));
        } else if i == 14 { assert(p[14] == rec(0x0FC6, 0x0FC6, CM)); assert(p[15] == rec(0x0FC7, 0x0FCC, AL));
        } else if i == 15 { assert(p[15] == rec(0x0FC7, 0x0FCC, AL)); assert(p[16] == rec(0x0FCE, 0x0FCF, AL));
        } else if i == 16 { assert(p[16] == rec(0x0FCE, 0x0FCF, AL)); assert(p[17] == rec(0x0FD0, 0x0FD1, BB));
        } else if i == 17 { assert(p[17] == rec(0x0FD0, 0x0FD1, BB)); assert(p[18] == rec(0x0FD2, 0x0FD2, BA));
        } else if i == 18 { assert(p[18] == rec(0x0FD2, 0x0FD2, BA)); assert(p[19] == rec(0x0FD3, 0x0FD3, BB));
        } else if i == 19 { assert(p[19] == rec(0x0FD3, 0x0FD3, BB)); assert(p[20] == rec(0x0FD4, 0x0FD8, AL));
        } else if i == 20 { assert(p[20] == rec(0x0FD4, 0x0FD8, AL)); assert(p[21] == rec(0x0FD9, 0x0FDA, GL));
        } else if i == 21 { assert(p[21] == rec(0x0FD9, 0x0FDA, GL)); assert(p[22] == rec(0x1000, 0x103F, SA));
        } else if i == 22 { assert(p[22] == rec(0x1000, 0x103F, SA)); assert(p[23] == rec(0x1040, 0x1049, NU));
        } else if i == 23 { assert(p[23] == rec(0x1040, 0x1049, NU)); assert(p[24] == rec(0x104A, 0x104B, BA));
        } else if i == 24 { assert(p[24] == rec(0x104A, 0x104B, BA)); assert(p[25] == rec(0x104C, 0x104F, AL));
        } else if i == 25 { assert(p[25] == rec(0x104C, 0x104F, AL)); assert(p[26] == rec(0x1050, 0x108F, SA));
        } else if i == 26 { assert(p[26] == rec(0x1050, 0x108F, SA)); assert(p[27] == rec(0x1090, 0x1099, NU));
        } else if i == 27 { assert(p[27] == rec(0x1090, 0x1099, NU)); assert(p[28] == rec(0x109A, 0x109F, SA));
        } else if i == 28 { assert(p[28] == rec(0x109A, 0x109F, SA)); assert(p[29] == rec(0x10A0, 0x10C5, AL));
        } else if i == 29 { assert(p[29] == rec(0x10A0, 0x10C5, AL)); assert(p[30] == rec(0x10C7, 0x10C7, AL));
        } else if i == 30 { assert(p[30] == rec(0x10C7, 0x10C7, AL)); assert(p[31] == rec(0x10CD, 0x10CD, AL));
        } else if i == 31 { assert(p[31] == rec(0x10CD, 0x10CD, AL)); assert(p[32] == rec(0x10D0, 0x10FF, AL));
        } else if i == 32 { assert(p[32] == rec(0x10D0, 0x10FF, AL)); assert(p[33] == rec(0x1100, 0x115F, JL));
        } else if i == 33 { assert(p[33] == rec(0x1100, 0x115F, JL)); assert(p[34] == rec(0x1160, 0x11A7, JV));
        } else if i == 34 { assert(p[34] == rec(0x1160, 0x11A7, JV)); assert(p[35] == rec(0x11A8, 0x11FF, JT));
        } else if i == 35 { assert(p[35] == rec(0x11A8, 0x11FF, JT)); assert(p[36] == rec(0x1200, 0x1248, AL));
        } else if i == 36 { assert(p[36] == rec(0x1200, 0x1248, AL)); assert(p[37] == rec(0x124A, 0x124D, AL));
        } else if i == 37 { assert(p[37] == rec(0x124A, 0x124D, AL)); assert(p[38] == rec(0x1250, 0x1256, AL));
        } else if i == 38 { assert(p[38] == rec(0x1250, 0x1256, AL)); assert(p[39] == rec(0x1258, 0x1258, AL));
        } else if i == 39 { assert(p[39] == rec(0x1258, 0x1258, AL)); assert(p[40] == rec(0x125A, 0x125D, AL));
        } else if i == 40 { assert(p[40] == rec(0x125A, 0x125D, AL)); assert(p[41] == rec(0x1260, 0x1288, AL));
        } else if i == 41 { assert(p[41] == rec(0x1260, 0x1288, AL)); assert(p[42] == rec(0x128A, 0x128D, AL));
        } else if i == 42 { assert(p[42] == rec(0x128A, 0x128D, AL)); assert(p[43] == rec(0x1290, 0x12B0, AL));
        } else if i == 43 { assert(p[43] == rec(0x1290, 0x12B0, AL)); assert(p[44] == rec(0x12B2, 0x12B5, AL));
        } else if i == 44 { assert(p[44] == rec(0x12B2, 0x12B5, AL)); assert(p[45] == rec(0x12B8, 0x12BE, AL));
        } else if i == 45 { assert(p[45] == rec(0x12B8, 0x12BE, AL)); assert(p[46] == rec(0x12C0, 0x12C0, AL));
        } else if i == 46 { assert(p[46] == rec(0x12C0, 0x12C0, AL)); assert(p[47] == rec(0x12C2, 0x12C5, AL));
        } else if i == 47 { assert(p[47] == rec(0x12C2, 0x12C5, AL)); assert(p[48] == rec(0x12C8, 0x12D6, AL));
        } else if i == 48 { assert(p[48] == rec(0x12C8, 0x12D6, AL)); assert(p[49] == rec(0x12D8, 0x1310, AL));
        } else if i == 49 { assert(p[49] == rec(0x12D8, 0x1310, AL));
        }
    }
    assert forall|i: int|
        #![trigger p[i], p[i + 1]]
        0 <= i && i + 1 < p.len() implies p[i].end < p[i + 1].start by {}
    assert(p[0] == rec(0x0F3D, 0x0F3D, CL));
    assert(p[49] == rec(0x12D8, 0x1310, AL));
}

/// The part's length, order and endpoints.
#[verifier::rlimit(100)]
#[verifier::spinoff_prover]
proof fn lemma_part10_sorted()
    ensures
        records_part10().len() == 50,
        records_sorted(records_part10()),
        records_part10()[0].start == 0x1312,
        records_part10()[49].end == 0x1819,
{
    let p = records_part10();
    assert forall|i: int|
        0 <= i < p.len() implies ((#[trigger] p[i]).start <= p[i].end && p[i].end <= 0x10FFFF && (
    i + 1 < p.len() ==> p[i].end < p[i + 1].start)) by {
        if i == 0 { assert(p[0] == rec(0x1312, 0x1315, AL)); assert(p[1] == rec(0x1318, 0x135A, AL));
        } else if i == 1 { assert(p[1] == rec(0x1318, 0x135A, AL)); assert(p[2] == rec(0x135D, 0x135F, CM));
        } else if i == 2 { assert(p[2] == rec(0x135D, 0x135F, CM)); assert(p[3] == rec(0x1360, 0x1360, AL));
        } else if i == 3 { assert(p[3] == rec(0x1360, 0x1360, AL)); assert(p[4] == rec(0x1361, 0x1361, BA));
        } else if i == 4 { assert(p[4] == rec(0x1361, 0x1361, BA)); assert(p[5] == rec(0x1362, 0x137C, AL));
        } else if i == 5 { assert(p[5] == rec(0x1362, 0x137C, AL)); assert(p[6] == rec(0x1380, 0x1399, AL));
        } else if i == 6 { assert(p[6] == rec(0x1380, 0x1399, AL)); assert(p[7] == rec(0x13A0, 0x13F5, AL));
        } else if i == 7 { assert(p[7] == rec(0x13A0, 0x13F5, AL)); assert(p[8] == rec(0x13F8, 0x13FD, AL));
        } else if i == 8 { assert(p[8] == rec(0x13F8, 0x13FD, AL)); assert(p[9] == rec(0x1400, 0x1400, BA));
        } else if i == 9 { assert(p[9] == rec(0x1400, 0x1400, BA)); assert(p[10] == rec(0x1401, 0x167F, AL));
        } else if i == 10 { assert(p[10] == rec(0x1401, 0x167F, AL)); assert(p[11] == rec(0x1680, 0x1680, BA));
        } else if i == 11 { assert(p[11] == rec(0x1680, 0x1680, BA)); assert(p[12] == rec(0x1681, 0x169A, AL));
        } else if i == 12 { assert(p[12] == rec(0x1681, 0x169A, AL)); assert(p[13] == rec(0x169B, 0x169B, OP));
        } else if i == 13 { assert(p[13] == rec(0x169B, 0x169B, OP)); assert(p[14] == rec(0x169C, 0x169C, CL));
        } else if i == 14 { assert(p[14] == rec(0x169C, 0x169C, CL)); assert(p[15] == rec(0x16A0, 0x16EA, AL));
        } else if i == 15 { assert(p[15] == rec(0x16A0, 0x16EA, AL)); assert(p[16] == rec(0x16EB, 0x16ED, BA));
        } else if i == 16 { assert(p[16] == rec(0x16EB, 0x16ED, BA)); assert(p[17] == rec(0x16EE, 0x16F8, AL));
        } else if i == 17 { assert(p[17] == rec(0x16EE, 0x16F8, AL)); assert(p[18] == rec(0x1700, 0x1711, AL));
        } else if i == 18 { assert(p[18] == rec(0x1700, 0x1711, AL)); assert(p[19] == rec(0x1712, 0x1715, CM));
        } else if i == 19 { assert(p[19] == rec(0x1712, 0x1715, CM)); assert(p[20] == rec(0x171F, 0x1731, AL));
        } else if i == 20 { assert(p[20] == rec(0x171F, 0x1731, AL)); assert(p[21] == rec(0x1732, 0x1734, CM));
        } else if i == 21 { assert(p[21] == rec(0x1732, 0x1734, CM)); assert(p[22] == rec(0x1735, 0x1736, BA));
        } else if i == 22 { assert(p[22] == rec(0x1735, 0x1736, BA)); assert(p[23] == rec(0x1740, 0x1751, AL));
        } else if i == 23 { assert(p[23] == rec(0x1740, 0x1751, AL)); assert(p[24] == rec(0x1752, 0x1753, CM));
        } else if i == 24 { assert(p[24] == rec(0x1752, 0x1753, CM)); assert(p[25] == rec(0x1760, 0x176C, AL));
        } else if i == 25 { assert(p[25] == rec(0x1760, 0x176C, AL)); assert(p[26] == rec(0x176E, 0x1770, AL));
        } else if i == 26 { assert(p[26] == rec(0x176E, 0x1770, AL)); assert(p[27] == rec(0x1772, 0x1773, CM));
        } else if i == 27 { assert(p[27] == rec(0x1772, 0x1773, CM)); assert(p[28] == rec(0x1780, 0x17D3, SA));
        } else if i == 28 { assert(p[28] == rec(0x1780, 0x17D3, SA)); assert(p[29] == rec(0x17D4, 0x17D5, BA));
        } else if i == 29 { assert(p[29] == rec(0x17D4, 0x17D5, BA)); assert(p[30] == rec(0x17D6, 0x17D6, NS));
        } else if i == 30 { assert(p[30] == rec(0x17D6, 0x17D6, NS)); assert(p[31] == rec(0x17D7, 0x17D7, SA));
        } else if i == 31 { assert(p[31] == rec(0x17D7, 0x17D7, SA)); assert(p[32] == rec(0x17D8, 0x17D8, BA));
        } else if i == 32 { assert(p[32] == rec(0x17D8, 0x17D8, BA)); assert(p[33] == rec(0x17D9, 0x17D9, AL));
        } else if i == 33 { assert(p[33] == rec(0x17D9, 0x17D9, AL)); assert(p[34] == rec(0x17DA, 0x17DA, BA));
        } else if i == 34 { assert(p[34] == rec(0x17DA, 0x17DA, BA)); assert(p[35] == rec(0x17DB, 0x17DB, PR));
        } else if i == 35 { assert(p[35] == rec(0x17DB, 0x17DB, PR)); assert(p[36] == rec(0x17DC, 0x17DD, SA));
        } else if i == 36 { assert(p[36] == rec(0x17DC, 0x17DD, SA)); assert(p[37] == rec(0x17E0, 0x17E9, NU));
        } else if i == 37 { assert(p[37] == rec(0x17E0, 0x17E9, NU)); assert(p[38] == rec(0x17F0, 0x17F9, AL));
        } else if i == 38 { assert(p[38] == rec(0x17F0, 0x17F9, AL)); assert(p[39] == rec(0x1800, 0x1801, AL));
        } else if i == 39 { assert(p[39] == rec(0x1800, 0x1801, AL)); assert(p[40] == rec(0x1802, 0x1803, EX));
        } else if i == 40 { assert(p[40] == rec(0x1802, 0x1803, EX)); assert(p[41] == rec(0x1804, 0x1805, BA));
        } else if i == 41 { assert(p[41] == rec(0x1804, 0x1805, BA)); assert(p[42] == rec(0x1806, 0x1806, BB));
        } else if i == 42 { assert(p[42] == rec(0x1806, 0x1806, BB)); assert(p[43] == rec(0x1807, 0x1807, AL));
        } else if i == 43 { assert(p[43] == rec(0x1807, 0x1807, AL)); assert(p[44] == rec(0x1808, 0x1809, EX));
        } else if i == 44 { assert(p[44] == rec(0x1808, 0x1809, EX)); assert(p[45] == rec(0x180A, 0x180A, AL));
        } else if i == 45 { assert(p[45] == rec(0x180A, 0x180A, AL)); assert(p[46] == rec(0x180B, 0x180D, CM));
        } else if i == 46 { assert(p[46] == rec(0x180B, 0x180D, CM)); assert(p[47] == rec(0x180E, 0x180E, GL));
        } else if i == 47 { assert(p[47] == rec(0x180E, 0x180E, GL)); assert(p[48] == rec(0x180F, 0x180F, CM));
        } else if i == 48 { assert(p[48] == rec(0x180F, 0x180F, CM)); assert(p[49] == rec(0x1810, 0x1819, NU));
        } else if i == 49 { assert(p[49] == rec(0x1810, 0x1819, NU));
        }
    }
    assert forall|i: int|
        #![trigger p[i], p[i + 1]]
        0 <= i && i + 1 < p.len() implies p[i].end < p[i + 1].start by {}
    assert(p[0] == rec(0x1312, 0x1315, AL));
    assert(p[49] == rec(0x1810, 0x1819, NU));
}

/// The part's length, order and endpoints.
#[verifier::rlimit(100)]
#[verifier::spinoff_prover]
proof fn lemma_part11_sorted()
    ensures
        records_part11().len() == 50,
        records_sorted(records_part11()),
        records_part11()[0].start == 0x1820,
        records_part11()[49].end == 0x1C23,
{
    let p = records_part11();
    assert forall|i: int|
        0 <= i < p.len() implies ((#[trigger] p[i]).start <= p[i].end && p[i].end <= 0x10FFFF && (
    i + 1 < p.len() ==> p[i].end < p[i + 1].start)) by {
        if i == 0 { assert(p[0] == rec(0x1820, 0x1878, AL)); assert(p[1] == rec(0x1880, 0x1884, AL));
        } else if i == 1 { assert(p[1] == rec(0x1880, 0x1884, AL)); assert(p[2] == rec(0x1885, 0x1886, CM));
        } else if i == 2 { assert(p[2] == rec(0x1885, 0x1886, CM)); assert(p[3] == rec(0x1887, 0x18A8, AL));
        } else if i == 3 { assert(p[3] == rec(0x1887, 0x18A8, AL)); assert(p[4] == rec(0x18A9, 0x18A9, CM));
        } else if i == 4 { assert(p[4] == rec(0x18A9, 0x18A9, CM)); assert(p[5] == rec(0x18AA, 0x18AA, AL));
        } else if i == 5 { assert(p[5] == rec(0x18AA, 0x18AA, AL)); assert(p[6] == rec(0x18B0, 0x18F5, AL));
        } else if i == 6 { assert(p[6] == rec(0x18B0, 0x18F5, AL)); assert(p[7] == rec(0x1900, 0x191E, AL));
        } else if i == 7 { assert(p[7] == rec(0x1900, 0x191E, AL)); assert(p[8] == rec(0x1920, 0x192B, CM));
        } else if i == 8 { assert(p[8] == rec(0x1920, 0x192B, CM)); assert(p[9] == rec(0x1930, 0x193B, CM));
        } else if i == 9 { assert(p[9] == rec(0x1930, 0x193B, CM)); assert(p[10] == rec(0x1940, 0x1940, AL));
        } else if i == 10 { assert(p[10] == rec(0x1940, 0x1940, AL)); assert(p[11] == rec(0x1944, 0x1945, EX));
        } else if i == 11 { assert(p[11] == rec(0x1944, 0x1945, EX)); assert(p[12] == rec(0x1946, 0x194F, NU));
        } else if i == 12 { assert(p[12] == rec(0x1946, 0x194F, NU)); assert(p[13] == rec(0x1950, 0x196D, SA));
        } else if i == 13 { assert(p[13] == rec(0x1950, 0x196D, SA)); assert(p[14] == rec(0x1970, 0x1974, SA));
        } else if i == 14 { assert(p[14] == rec(0x1970, 0x1974, SA)); assert(p[15] == rec(0x1980, 0x19AB, SA));
        } else if i == 15 { assert(p[15] == rec(0x1980, 0x19AB, SA)); assert(p[16] == rec(0x19B0, 0x19C9, SA));
        } else if i == 16 { assert(p[16] == rec(0x19B0, 0x19C9, SA)); assert(p[17] == rec(0x19D0, 0x19D9, NU));
        } else if i == 17 { assert(p[17] == rec(0x19D0, 0x19D9, NU)); assert(p[18] == rec(0x19DA, 0x19DA, SA));
        } else if i == 18 { assert(p[18] == rec(0x19DA, 0x19DA, SA)); assert(p[19] == rec(0x19DE, 0x19DF, SA));
        } else if i == 19 { assert(p[19] == rec(0x19DE, 0x19DF, SA)); assert(p[20] == rec(0x19E0, 0x1A16, AL));
        } else if i == 20 { assert(p[20] == rec(0x19E0, 0x1A16, AL)); assert(p[21] == rec(0x1A17, 0x1A1B, CM));
        } else if i == 21 { assert(p[21] == rec(0x1A17, 0x1A1B, CM)); assert(p[22] == rec(0x1A1E, 0x1A1F, AL));
        } else if i == 22 { assert(p[22] == rec(0x1A1E, 0x1A1F, AL)); assert(p[23] == rec(0x1A20, 0x1A5E, SA));
        } else if i == 23 { assert(p[23] == rec(0x1A20, 0x1A5E, SA)); assert(p[24] == rec(0x1A60, 0x1A7C, SA));
        } else if i == 24 { assert(p[24] == rec(0x1A60, 0x1A7C, SA)); assert(p[25] == rec(0x1A7F, 0x1A7F, CM));
        } else if i == 25 { assert(p[25] == rec(0x1A7F, 0x1A7F, CM)); assert(p[26] == rec(0x1A80, 0x1A89, NU));
        } else if i == 26 { assert(p[26] == rec(0x1A80, 0x1A89, NU)); assert(p[27] == rec(0x1A90, 0x1A99, NU));
        } else if i == 27 { assert(p[27] == rec(0x1A90, 0x1A99, NU)); assert(p[28] == rec(0x1AA0, 0x1AAD, SA));
        } else if i == 28 { assert(p[28] == rec(0x1AA0, 0x1AAD, SA)); assert(p[29] == rec(0x1AB0, 0x1ACE, CM));
        } else if i == 29 { assert(p[29] == rec(0x1AB0, 0x1ACE, CM)); assert(p[30] == rec(0x1B00, 0x1B04, CM));
        } else if i == 30 { assert(p[30] == rec(0x1B00, 0x1B04, CM)); assert(p[31] == rec(0x1B05, 0x1B33, AL));
        } else if i == 31 { assert(p[31] == rec(0x1B05, 0x1B33, AL)); assert(p[32] == rec(0x1B34, 0x1B44, CM));
        } else if i == 32 { assert(p[32] == rec(0x1B34, 0x1B44, CM)); assert(p[33] == rec(0x1B45, 0x1B4C, AL));
        } else if i == 33 { assert(p[33] == rec(0x1B45, 0x1B4C, AL)); assert(p[34] == rec(0x1B50, 0x1B59, NU));
        } else if i == 34 { assert(p[34] == rec(0x1B50, 0x1B59, NU)); assert(p[35] == rec(0x1B5A, 0x1B5B, BA));
        } else if i == 35 { assert(p[35] == rec(0x1B5A, 0x1B5B, BA)); assert(p[36] == rec(0x1B5C, 0x1B5C, AL));
        } else if i == 36 { assert(p[36] == rec(0x1B5C, 0x1B5C, AL)); assert(p[37] == rec(0x1B5D, 0x1B60, BA));
        } else if i == 37 { assert(p[37] == rec(0x1B5D, 0x1B60, BA)); assert(p[38] == rec(0x1B61, 0x1B6A, AL));
        } else if i == 38 { assert(p[38] == rec(0x1B61, 0x1B6A, AL)); assert(p[39] == rec(0x1B6B, 0x1B73, CM));
        } else if i == 39 { assert(p[39] == rec(0x1B6B, 0x1B73, CM)); assert(p[40] == rec(0x1B74, 0x1B7C, AL));
        } else if i == 40 { assert(p[40] == rec(0x1B74, 0x1B7C, AL)); assert(p[41] == rec(0x1B7D, 0x1B7E, BA));
        } else if i == 41 { assert(p[41] == rec(0x1B7D, 0x1B7E, BA)); assert(p[42] == rec(0x1B80, 0x1B82, CM));
        } else if i == 42 { assert(p[42] == rec(0x1B80, 0x1B82, CM)); assert(p[43] == rec(0x1B83, 0x1BA0, AL));
        } else if i == 43 { assert(p[43] == rec(0x1B83, 0x1BA0, AL)); assert(p[44] == rec(0x1BA1, 0x1BAD, CM));
        } else if i == 44 { assert(p[44] == rec(0x1BA1, 0x1BAD, CM)); assert(p[45] == rec(0x1BAE, 0x1BAF, AL));
        } else if i == 45 { assert(p[45] == rec(0x1BAE, 0x1BAF, AL)); assert(p[46] == rec(0x1BB0, 0x1BB9, NU));
        } else if i == 46 { assert(p[46] == rec(0x1BB0, 0x1BB9, NU)); assert(p[47] == rec(0x1BBA, 0x1BE5, AL));
        } else if i == 47 { assert(p[47] == rec(0x1BBA, 0x1BE5, AL)); assert(p[48] == rec(0x1BE6, 0x1BF3, CM));
        } else if i == 48 { assert(p[48] == rec(0x1BE6, 0x1BF3, CM)); assert(p[49] == rec(0x1BFC, 0x1C23, AL));
        } else if i == 49 { assert(p[49] == rec(0x1BFC, 0x1C23, AL));
        }
    }
    assert forall|i: int|
        #![trigger p[i], p[i + 1]]
        0 <= i && i + 1 < p.len() implies p[i].end < p[i + 1].start by {}
    assert(p[0] == rec(0x1820, 0x1878, AL));
    assert(p[49] == rec(0x1BFC, 0x1C23, AL));
}

/// The part's length, order and endpoints.
#[verifier::rlimit(100)]
#[verifier::spinoff_prover]
proof fn lemma_part12_sorted()
    ensures
        records_part12().len() == 50,
        records_sorted(records_part12()),
        records_part12()[0].start == 0x1C24,
        records_part12()[49].end == 0x2013,
{
    let p = records_part12();
    assert forall|i: int|
        0 <= i < p.len() implies ((#[trigger] p[i]).start <= p[i].end && p[i].end <= 0x10FFFF && (
    i + 1 < p.len() ==> p[i].end < p[i + 1].start)) by {
        if i == 0 { assert(p[0] == rec(0x1C24, 0x1C37, CM)); assert(p[1] == rec(0x1C3B, 0x1C3F, BA));
        } else if i == 1 { assert(p[1] == rec(0x1C3B, 0x1C3F, BA)); assert(p[2] == rec(0x1C40, 0x1C49, NU));
        } else if i == 2 { assert(p[2] == rec(0x1C40, 0x1C49, NU)); assert(p[3] == rec(0x1C4D, 0x1C4F, AL));
        } else if i == 3 { assert(p[3] == rec(0x1C4D, 0x1C4F, AL)); assert(p[4] == rec(0x1C50, 0x1C59, NU));
        } else if i == 4 { assert(p[4] == rec(0x1C50, 0x1C59, NU)); assert(p[5] == rec(0x1C5A, 0x1C7D, AL));
        } else if i == 5 { assert(p[5] == rec(0x1C5A, 0x1C7D, AL)); assert(p[6] == rec(0x1C7E, 0x1C7F, BA));
        } else if i == 6 { assert(p[6] == rec(0x1C7E, 0x1C7F, BA)); assert(p[7] == rec(0x1C80, 0x1C88, AL));
        } else if i == 7 { assert(p[7] == rec(0x1C80, 0x1C88, AL)); assert(p[8] == rec(0x1C90, 0x1CBA, AL));
        } else if i == 8 { assert(p[8] == rec(0x1C90, 0x1CBA, AL)); assert(p[9] == rec(0x1CBD, 0x1CC7, AL));
        } else if i == 9 { assert(p[9] == rec(0x1CBD, 0x1CC7, AL)); assert(p[10] == rec(0x1CD0, 0x1CD2, CM));
        } else if i == 10 { assert(p[10] == rec(0x1CD0, 0x1CD2, CM)); assert(p[11] == rec(0x1CD3, 0x1CD3, AL));
        } else if i == 11 { assert(p[11] == rec(0x1CD3, 0x1CD3, AL)); assert(p[12] == rec(0x1CD4, 0x1CE8, CM));
        } else if i == 12 { assert(p[12] == rec(0x1CD4, 0x1CE8, CM)); assert(p[13] == rec(0x1CE9, 0x1CEC, AL));
        } else if i == 13 { assert(p[13] == rec(0x1CE9, 0x1CEC, AL)); assert(p[14] == rec(0x1CED, 0x1CED, CM));
        } else if i == 14 { assert(p[14] == rec(0x1CED, 0x1CED, CM)); assert(p[15] == rec(0x1CEE, 0x1CF3, AL));
        } else if i == 15 { assert(p[15] == rec(0x1CEE, 0x1CF3, AL)); assert(p[16] == rec(0x1CF4, 0x1CF4, CM));
        } else if i == 16 { assert(p[16] == rec(0x1CF4, 0x1CF4, CM)); assert(p[17] == rec(0x1CF5, 0x1CF6, AL));
        } else if i == 17 { assert(p[17] == rec(0x1CF5, 0x1CF6, AL)); assert(p[18] == rec(0x1CF7, 0x1CF9, CM));
        } else if i == 18 { assert(p[18] == rec(0x1CF7, 0x1CF9, CM)); assert(p[19] == rec(0x1CFA, 0x1CFA, AL));
        } else if i == 19 { assert(p[19] == rec(0x1CFA, 0x1CFA, AL)); assert(p[20] == rec(0x1D00, 0x1DBF, AL));
        } else if i == 20 { assert(p[20] == rec(0x1D00, 0x1DBF, AL)); assert(p[21] == rec(0x1DC0, 0x1DFF, CM));
        } else if i == 21 { assert(p[21] == rec(0x1DC0, 0x1DFF, CM)); assert(p[22] == rec(0x1E00, 0x1F15, AL));
        } else if i == 22 { assert(p[22] == rec(0x1E00, 0x1F15, AL)); assert(p[23] == rec(0x1F18, 0x1F1D, AL));
        } else if i == 23 { assert(p[23] == rec(0x1F18, 0x1F1D, AL)); assert(p[24] == rec(0x1F20, 0x1F45, AL));
        } else if i == 24 { assert(p[24] == rec(0x1F20, 0x1F45, AL)); assert(p[25] == rec(0x1F48, 0x1F4D, AL));
        } else if i == 25 { assert(p[25] == rec(0x1F48, 0x1F4D, AL)); assert(p[26] == rec(0x1F50, 0x1F57, AL));
        } else if i == 26 { assert(p[26] == rec(0x1F50, 0x1F57, AL)); assert(p[27] == rec(0x1F59, 0x1F59, AL));
        } else if i == 27 { assert(p[27] == rec(0x1F59, 0x1F59, AL)); assert(p[28] == rec(0x1F5B, 0x1F5B, AL));
        } else if i == 28 { assert(p[28] == rec(0x1F5B, 0x1F5B, AL)); assert(p[29] == rec(0x1F5D, 0x1F5D, AL));
        } else if i == 29 { assert(p[29] == rec(0x1F5D, 0x1F5D, AL)); assert(p[30] == rec(0x1F5F, 0x1F7D, AL));
        } else if i == 30 { assert(p[30] == rec(0x1F5F, 0x1F7D, AL)); assert(p[31] == rec(0x1F80, 0x1FB4, AL));
        } else if i == 31 { assert(p[31] == rec(0x1F80, 0x1FB4, AL)); assert(p[32] == rec(0x1FB6, 0x1FC4, AL));
        } else if i == 32 { assert(p[32] == rec(0x1FB6, 0x1FC4, AL)); assert(p[33] == rec(0x1FC6, 0x1FD3, AL));
        } else if i == 33 { assert(p[33] == rec(0x1FC6, 0x1FD3, AL)); assert(p[34] == rec(0x1FD6, 0x1FDB, AL));
        } else if i == 34 { assert(p[34] == rec(0x1FD6, 0x1FDB, AL)); assert(p[35] == rec(0x1FDD, 0x1FEF, AL));
        } else if i == 35 { assert(p[35] == rec(0x1FDD, 0x1FEF, AL)); assert(p[36] == rec(0x1FF2, 0x1FF4, AL));
        } else if i == 36 { assert(p[36] == rec(0x1FF2, 0x1FF4, AL)); assert(p[37] == rec(0x1FF6, 0x1FFC, AL));
        } else if i == 37 { assert(p[37] == rec(0x1FF6, 0x1FFC, AL)); assert(p[38] == rec(0x1FFD, 0x1FFD, BB));
        } else if i == 38 { assert(p[38] == rec(0x1FFD, 0x1FFD, BB)); assert(p[39] == rec(0x1FFE, 0x1FFE, AL));
        } else if i == 39 { assert(p[39] == rec(0x1FFE, 0x1FFE, AL)); assert(p[40] == rec(0x2000, 0x2006, BA));
        } else if i == 40 { assert(p[40] == rec(0x2000, 0x2006, BA)); assert(p[41] == rec(0x2007, 0x2007, GL));
        } else if i == 41 { assert(p[41] == rec(0x2007, 0x2007, GL)); assert(p[42] == rec(0x2008, 0x200A, BA));
        } else if i == 42 { assert(p[42] == rec(0x2008, 0x200A, BA)); assert(p[43] == rec(0x200B, 0x200B, ZW));
        } else if i == 43 { assert(p[43] == rec(0x200B, 0x200B, ZW)); assert(p[44] == rec(0x200C, 0x200C, CM));
        } else if i == 44 { assert(p[44] == rec(0x200C, 0x200C, CM)); assert(p[45] == rec(0x200D, 0x200D, ZWJ));
        } else if i == 45 { assert(p[45] == rec(0x200D, 0x200D, ZWJ)); assert(p[46] == rec(0x200E, 0x200F, CM));
        } else if i == 46 { assert(p[46] == rec(0x200E, 0x200F, CM)); assert(p[47] == rec(0x2010, 0x2010, BA));
        } else if i == 47 { assert(p[47] == rec(0x2010, 0x2010, BA)); assert(p[48] == rec(0x2011, 0x2011, GL));
        } else if i == 48 { assert(p[48] == rec(0x2011, 0x2011, GL)); assert(p[49] == rec(0x2012, 0x2013, BA));
        } else if i == 49 { assert(p[49] == rec(0x2012, 0x2013, BA));
        }
    }
    assert forall|i: int|
        #![trigger p[i], p[i + 1]]
        0 <= i && i + 1 < p.len() implies p[i].end < p[i + 1].start by {}
    assert(p[0] == rec(0x1C24, 0x1C37, CM));
    assert(p[49] == rec(0x2012, 0x2013, BA));
}

/// The part's length, order and endpoints.
#[verifier::rlimit(100)]
#[verifier::spinoff_prover]
proof fn lemma_part13_sorted()
    ensures
        records_part13().len() == 50,
        records_sorted(records_part13()),
        records_part13()[0].start == 0x2014,
        records_part13()[49].end == 0x20B6,
{
    let p = records_part13();
    assert forall|i: int|
        0 <= i < p.len() implies ((#[trigger] p[i]).start <= p[i].end && p[i].end <= 0x10FFFF && (
    i + 1 < p.len() ==> p[i].end < p[i + 1].start)) by {
        if i == 0 { assert(p[0] == rec(0x2014, 0x2014, B2)); assert(p[1] == rec(0x2015, 0x2016, AI));
        } else if i == 1 { assert(p[1] == rec(0x2015, 0x2016, AI)); assert(p[2] == rec(0x2017, 0x2017, AL));
        } else if i == 2 { assert(p[2] == rec(0x2017, 0x2017, AL)); assert(p[3] == rec(0x2018, 0x2019, QU));
        } else if i == 3 { assert(p[3] == rec(0x2018, 0x2019, QU)); assert(p[4] == rec(0x201A, 0x201A, OP));
        } else if i == 4 { assert(p[4] == rec(0x201A, 0x201A, OP)); assert(p[5] == rec(0x201B, 0x201D, QU));
        } else if i == 5 { assert(p[5] == rec(0x201B, 0x201D, QU)); assert(p[6] == rec(0x201E, 0x201E, OP));
        } else if i == 6 { assert(p[6] == rec(0x201E, 0x201E, OP)); assert(p[7] == rec(0x201F, 0x201F, QU));
        } else if i == 7 { assert(p[7] == rec(0x201F, 0x201F, QU)); assert(p[8] == rec(0x2020, 0x2021, AI));
        } else if i == 8 { assert(p[8] == rec(0x2020, 0x2021, AI)); assert(p[9] == rec(0x2022, 0x2023, AL));
        } else if i == 9 { assert(p[9] == rec(0x2022, 0x2023, AL)); assert(p[10] == rec(0x2024, 0x2026, IN));
        } else if i == 10 { assert(p[10] == rec(0x2024, 0x2026, IN)); assert(p[11] == rec(0x2027, 0x2027, BA));
        } else if i == 11 { assert(p[11] == rec(0x2027, 0x2027, BA)); assert(p[12] == rec(0x2028, 0x2029, BK));
        } else if i == 12 { assert(p[12] == rec(0x2028, 0x2029, BK)); assert(p[13] == rec(0x202A, 0x202E, CM));
        } else if i == 13 { assert(p[13] == rec(0x202A, 0x202E, CM)); assert(p[14] == rec(0x202F, 0x202F, GL));
        } else if i == 14 { assert(p[14] == rec(0x202F, 0x202F, GL)); assert(p[15] == rec(0x2030, 0x2037, PO));
        } else if i == 15 { assert(p[15] == rec(0x2030, 0x2037, PO)); assert(p[16] == rec(0x2038, 0x2038, AL));
        } else if i == 16 { assert(p[16] == rec(0x2038, 0x2038, AL)); assert(p[17] == rec(0x2039, 0x203A, QU));
        } else if i == 17 { assert(p[17] == rec(0x2039, 0x203A, QU)); assert(p[18] == rec(0x203B, 0x203B, AI));
        } else if i == 18 { assert(p[18] == rec(0x203B, 0x203B, AI)); assert(p[19] == rec(0x203C, 0x203D, NS));
        } else if i == 19 { assert(p[19] == rec(0x203C, 0x203D, NS)); assert(p[20] == rec(0x203E, 0x2043, AL));
        } else if i == 20 { assert(p[20] == rec(0x203E, 0x2043, AL)); assert(p[21] == rec(0x2044, 0x2044, IS));
        } else if i == 21 { assert(p[21] == rec(0x2044, 0x2044, IS)); assert(p[22] == rec(0x2045, 0x2045, OP));
        } else if i == 22 { assert(p[22] == rec(0x2045, 0x2045, OP)); assert(p[23] == rec(0x2046, 0x2046, CL));
        } else if i == 23 { assert(p[23] == rec(0x2046, 0x2046, CL)); assert(p[24] == rec(0x2047, 0x2049, NS));
        } else if i == 24 { assert(p[24] == rec(0x2047, 0x2049, NS)); assert(p[25] == rec(0x204A, 0x2055, AL));
        } else if i == 25 { assert(p[25] == rec(0x204A, 0x2055, AL)); assert(p[26] == rec(0x2056, 0x2056, BA));
        } else if i == 26 { assert(p[26] == rec(0x2056, 0x2056, BA)); assert(p[27] == rec(0x2057, 0x2057, AL));
        } else if i == 27 { assert(p[27] == rec(0x2057, 0x2057, AL)); assert(p[28] == rec(0x2058, 0x205B, BA));
        } else if i == 28 { assert(p[28] == rec(0x2058, 0x205B, BA)); assert(p[29] == rec(0x205C, 0x205C, AL));
        } else if i == 29 { assert(p[29] == rec(0x205C, 0x205C, AL)); assert(p[30] == rec(0x205D, 0x205F, BA));
        } else if i == 30 { assert(p[30] == rec(0x205D, 0x205F, BA)); assert(p[31] == rec(0x2060, 0x2060, WJ));
        } else if i == 31 { assert(p[31] == rec(0x2060, 0x2060, WJ)); assert(p[32] == rec(0x2061, 0x2064, AL));
        } else if i == 32 { assert(p[32] == rec(0x2061, 0x2064, AL)); assert(p[33] == rec(0x2066, 0x206F, CM));
        } else if i == 33 { assert(p[33] == rec(0x2066, 0x206F, CM)); assert(p[34] == rec(0x2070, 0x2071, AL));
        } else if i == 34 { assert(p[34] == rec(0x2070, 0x2071, AL)); assert(p[35] == rec(0x2074, 0x2074, AI));
        } else if i == 35 { assert(p[35] == rec(0x2074, 0x2074, AI)); assert(p[36] == rec(0x2075, 0x207C, AL));
        } else if i == 36 { assert(p[36] == rec(0x2075, 0x207C, AL)); assert(p[37] == rec(0x207D, 0x207D, OP));
        } else if i == 37 { assert(p[37] == rec(0x207D, 0x207D, OP)); assert(p[38] == rec(0x207E, 0x207E, CL));
        } else if i == 38 { assert(p[38] == rec(0x207E, 0x207E, CL)); assert(p[39] == rec(0x207F, 0x207F, AI));
        } else if i == 39 { assert(p[39] == rec(0x207F, 0x207F, AI)); assert(p[40] == rec(0x2080, 0x2080, AL));
        } else if i == 40 { assert(p[40] == rec(0x2080, 0x2080, AL)); assert(p[41] == rec(0x2081, 0x2084, AI));
        } else if i == 41 { assert(p[41] == rec(0x2081, 0x2084, AI)); assert(p[42] == rec(0x2085, 0x208C, AL));
        } else if i == 42 { assert(p[42] == rec(0x2085, 0x208C, AL)); assert(p[43] == rec(0x208D, 0x208D, OP));
        } else if i == 43 { assert(p[43] == rec(0x208D, 0x208D, OP)); assert(p[44] == rec(0x208E, 0x208E, CL));
        } else if i == 44 { assert(p[44] == rec(0x208E, 0x208E, CL)); assert(p[45] == rec(0x2090, 0x209C, AL));
        } else if i == 45 { assert(p[45] == rec(0x2090, 0x209C, AL)); assert(p[46] == rec(0x20A0, 0x20A6, PR));
        } else if i == 46 { assert(p[46] == rec(0x20A0, 0x20A6, PR)); assert(p[47] == rec(0x20A7, 0x20A7, PO));
        } else if i == 47 { assert(p[47] == rec(0x20A7, 0x20A7, PO)); assert(p[48] == rec(0x20A8, 0x20B5, PR));
        } else if i == 48 { assert(p[48] == rec(0x20A8, 0x20B5, PR)); assert(p[49] == rec(0x20B6, 0x20B6, PO));
        } else if i == 49 { assert(p[49] == rec(0x20B6, 0x20B6, PO));
        }
    }
    assert forall|i: int|
        #![trigger p[i], p[i + 1]]
        0 <= i && i + 1 < p.len() implies p[i].end < p[i + 1].start by {}
    assert(p[0] == rec(0x2014, 0x2014, B2));
    assert(p[49] == rec(0x20B6, 0x20B6, PO));
}

/// The part's length, order and endpoints.
#[verifier::rlimit(100)]
#[verifier::spinoff_prover]
proof fn lemma_part14_sorted()
    ensures
        records_part14().len() == 50,
        records_sorted(records_part14()),
        records_part14()[0].start == 0x20B7,
        records_part14()[49].end == 0x220F,
{
    let p = records_part14();
    assert forall|i: int|
        0 <= i < p.len() implies ((#[trigger] p[i]).start <= p[i].end && p[i].end <= 0x10FFFF && (
    i + 1 < p.len() ==> p[i].end < p[i + 1].start)) by {
        if i == 0 { assert(p[0] == rec(0x20B7, 0x20BA, PR)); assert(p[1] == rec(0x20BB, 0x20BB, PO));
        } else if i == 1 { assert(p[1] == rec(0x20BB, 0x20BB, PO)); assert(p[2] == rec(0x20BC, 0x20BD, PR));
        } else if i == 2 { assert(p[2] == rec(0x20BC, 0x20BD, PR)); assert(p[3] == rec(0x20BE, 0x20BE, PO));
        } else if i == 3 { assert(p[3] == rec(0x20BE, 0x20BE, PO)); assert(p[4] == rec(0x20BF, 0x20BF, PR));
        } else if i == 4 { assert(p[4] == rec(0x20BF, 0x20BF, PR)); assert(p[5] == rec(0x20C0, 0x20C0, PO));
        } else if i == 5 { assert(p[5] == rec(0x20C0, 0x20C0, PO)); assert(p[6] == rec(0x20C1, 0x20CF, PR));
        } else if i == 6 { assert(p[6] == rec(0x20C1, 0x20CF, PR)); assert(p[7] == rec(0x20D0, 0x20F0, CM));
        } else if i == 7 { assert(p[7] == rec(0x20D0, 0x20F0, CM)); assert(p[8] == rec(0x2100, 0x2102, AL));
        } else if i == 8 { assert(p[8] == rec(0x2100, 0x2102, AL)); assert(p[9] == rec(0x2103, 0x2103, PO));
        } else if i == 9 { assert(p[9] == rec(0x2103, 0x2103, PO)); assert(p[10] == rec(0x2104, 0x2104, AL));
        } else if i == 10 { assert(p[10] == rec(0x2104, 0x2104, AL)); assert(p[11] == rec(0x2105, 0x2105, AI));
        } else if i == 11 { assert(p[11] == rec(0x2105, 0x2105, AI)); assert(p[12] == rec(0x2106, 0x2108, AL));
        } else if i == 12 { assert(p[12] == rec(0x2106, 0x2108, AL)); assert(p[13] == rec(0x2109, 0x2109, PO));
        } else if i == 13 { assert(p[13] == rec(0x2109, 0x2109, PO)); assert(p[14] == rec(0x210A, 0x2112, AL));
        } else if i == 14 { assert(p[14] == rec(0x210A, 0x2112, AL)); assert(p[15] == rec(0x2113, 0x2113, AI));
        } else if i == 15 { assert(p[15] == rec(0x2113, 0x2113, AI)); assert(p[16] == rec(0x2114, 0x2115, AL));
        } else if i == 16 { assert(p[16] == rec(0x2114, 0x2115, AL)); assert(p[17] == rec(0x2116, 0x2116, PR));
        } else if i == 17 { assert(p[17] == rec(0x2116, 0x2116, PR)); assert(p[18] == rec(0x2117, 0x2120, AL));
        } else if i == 18 { assert(p[18] == rec(0x2117, 0x2120, AL)); assert(p[19] == rec(0x2121, 0x2122, AI));
        } else if i == 19 { assert(p[19] == rec(0x2121, 0x2122, AI)); assert(p[20] == rec(0x2123, 0x212A, AL));
        } else if i == 20 { assert(p[20] == rec(0x2123, 0x212A, AL)); assert(p[21] == rec(0x212B, 0x212B, AI));
        } else if i == 21 { assert(p[21] == rec(0x212B, 0x212B, AI)); assert(p[22] == rec(0x212C, 0x2153, AL));
        } else if i == 22 { assert(p[22] == rec(0x212C, 0x2153, AL)); assert(p[23] == rec(0x2154, 0x2155, AI));
        } else if i == 23 { assert(p[23] == rec(0x2154, 0x2155, AI)); assert(p[24] == rec(0x2156, 0x215A, AL));
        } else if i == 24 { assert(p[24] == rec(0x2156, 0x215A, AL)); assert(p[25] == rec(0x215B, 0x215B, AI));
        } else if i == 25 { assert(p[25] == rec(0x215B, 0x215B, AI)); assert(p[26] == rec(0x215C, 0x215D, AL));
        } else if i == 26 { assert(p[26] == rec(0x215C, 0x215D, AL)); assert(p[27] == rec(0x215E, 0x215E, AI));
        } else if i == 27 { assert(p[27] == rec(0x215E, 0x215E, AI)); assert(p[28] == rec(0x215F, 0x215F, AL));
        } else if i == 28 { assert(p[28] == rec(0x215F, 0x215F, AL)); assert(p[29] == rec(0x2160, 0x216B, AI));
        } else if i == 29 { assert(p[29] == rec(0x2160, 0x216B, AI)); assert(p[30] == rec(0x216C, 0x216F, AL));
        } else if i == 30 { assert(p[30] == rec(0x216C, 0x216F, AL)); assert(p[31] == rec(0x2170, 0x2179, AI));
        } else if i == 31 { assert(p[31] == rec(0x2170, 0x2179, AI)); assert(p[32] == rec(0x217A, 0x2188, AL));
        } else if i == 32 { assert(p[32] == rec(0x217A, 0x2188, AL)); assert(p[33] == rec(0x2189, 0x2189, AI));
        } else if i == 33 { assert(p[33] == rec(0x2189, 0x2189, AI)); assert(p[34] == rec(0x218A, 0x218B, AL));
        } else if i == 34 { assert(p[34] == rec(0x218A, 0x218B, AL)); assert(p[35] == rec(0x2190, 0x2199, AI));
        } else if i == 35 { assert(p[35] == rec(0x2190, 0x2199, AI)); assert(p[36] == rec(0x219A, 0x21D1, AL));
        } else if i == 36 { assert(p[36] == rec(0x219A, 0x21D1, AL)); assert(p[37] == rec(0x21D2, 0x21D2, AI));
        } else if i == 37 { assert(p[37] == rec(0x21D2, 0x21D2, AI)); assert(p[38] == rec(0x21D3, 0x21D3, AL));
        } else if i == 38 { assert(p[38] == rec(0x21D3, 0x21D3, AL)); assert(p[39] == rec(0x21D4, 0x21D4, AI));
        } else if i == 39 { assert(p[39] == rec(0x21D4, 0x21D4, AI)); assert(p[40] == rec(0x21D5, 0x21FF, AL));
        } else if i == 40 { assert(p[40] == rec(0x21D5, 0x21FF, AL)); assert(p[41] == rec(0x2200, 0x2200, AI));
        } else if i == 41 { assert(p[41] == rec(0x2200, 0x2200, AI)); assert(p[42] == rec(0x2201, 0x2201, AL));
        } else if i == 42 { assert(p[42] == rec(0x2201, 0x2201, AL)); assert(p[43] == rec(0x2202, 0x2203, AI));
        } else if i == 43 { assert(p[43] == rec(0x2202, 0x2203, AI)); assert(p[44] == rec(0x2204, 0x2206, AL));
        } else if i == 44 { assert(p[44] == rec(0x2204, 0x2206, AL)); assert(p[45] == rec(0x2207, 0x2208, AI));
        } else if i == 45 { assert(p[45] == rec(0x2207, 0x2208, AI)); assert(p[46] == rec(0x2209, 0x220A, AL));
        } else if i == 46 { assert(p[46] == rec(0x2209, 0x220A, AL)); assert(p[47] == rec(0x220B, 0x220B, AI));
        } else if i == 47 { assert(p[47] == rec(0x220B, 0x220B, AI)); assert(p[48] == rec(0x220C, 0x220E, AL));
        } else if i == 48 { assert(p[48] == rec(0x220C, 0x220E, AL)); assert(p[49] == rec(0x220F, 0x220F, AI));
        } else if i == 49 { assert(p[49] == rec(0x220F, 0x220F, AI));
        }
    }
    assert forall|i: int|
        #![trigger p[i], p[i + 1]]
        0 <= i && i + 1 < p.len() implies p[i].end < p[i + 1].start by {}
    assert(p[0] == rec(0x20B7, 0x20BA, PR));
    assert(p[49] == rec(0x220F, 0x220F, AI));
}

/// The part's length, order and endpoints.
#[verifier::rlimit(100)]
#[verifier::spinoff_prover]
proof fn lemma_part15_sorted()
    ensures
        records_part15().len() == 50,
        records_sorted(records_part15()),
        records_part15()[0].start == 0x2210,
        records_part15()[49].end == 0x2307,
{
    let p = records_part15();
    assert forall|i: int|
        0 <= i < p.len() implies ((#[trigger] p[i]).start <= p[i].end && p[i].end <= 0x10FFFF && (
    i + 1 < p.len() ==> p[i].end < p[i + 1].start)) by {
        if i == 0 { assert(p[0] == rec(0x2210, 0x2210, AL)); assert(p[1] == rec(0x2211, 0x2211, AI));
        } else if i == 1 { assert(p[1] == rec(0x2211, 0x2211, AI)); assert(p[2] == rec(0x2212, 0x2213, PR));
        } else if i == 2 { assert(p[2] == rec(0x2212, 0x2213, PR)); assert(p[3] == rec(0x2214, 0x2214, AL));
        } else if i == 3 { assert(p[3] == rec(0x2214, 0x2214, AL)); assert(p[4] == rec(0x2215, 0x2215, AI));
        } else if i == 4 { assert(p[4] == rec(0x2215, 0x2215, AI)); assert(p[5] == rec(0x2216, 0x2219, AL));
        } else if i == 5 { assert(p[5] == rec(0x2216, 0x2219, AL)); assert(p[6] == rec(0x221A, 0x221A, AI));
        } else if i == 6 { assert(p[6] == rec(0x221A, 0x221A, AI)); assert(p[7] == rec(0x221B, 0x221C, AL));
        } else if i == 7 { assert(p[7] == rec(0x221B, 0x221C, AL)); assert(p[8] == rec(0x221D, 0x2220, AI));
        } else if i == 8 { assert(p[8] == rec(0x221D, 0x2220, AI)); assert(p[9] == rec(0x2221, 0x2222, AL));
        } else if i == 9 { assert(p[9] == rec(0x2221, 0x2222, AL)); assert(p[10] == rec(0x2223, 0x2223, AI));
        } else if i == 10 { assert(p[10] == rec(0x2223, 0x2223, AI)); assert(p[11] == rec(0x2224, 0x2224, AL));
        } else if i == 11 { assert(p[11] == rec(0x2224, 0x2224, AL)); assert(p[12] == rec(0x2225, 0x2225, AI));
        } else if i == 12 { assert(p[12] == rec(0x2225, 0x2225, AI)); assert(p[13] == rec(0x2226, 0x2226, AL));
        } else if i == 13 { assert(p[13] == rec(0x2226, 0x2226, AL)); assert(p[14] == rec(0x2227, 0x222C, AI));
        } else if i == 14 { assert(p[14] == rec(0x2227, 0x222C, AI)); assert(p[15] == rec(0x222D, 0x222D, AL));
        } else if i == 15 { assert(p[15] == rec(0x222D, 0x222D, AL)); assert(p[16] == rec(0x222E, 0x222E, AI));
        } else if i == 16 { assert(p[16] == rec(0x222E, 0x222E, AI)); assert(p[17] == rec(0x222F, 0x2233, AL));
        } else if i == 17 { assert(p[17] == rec(0x222F, 0x2233, AL)); assert(p[18] == rec(0x2234, 0x2237, AI));
        } else if i == 18 { assert(p[18] == rec(0x2234, 0x2237, AI)); assert(p[19] == rec(0x2238, 0x223B, AL));
        } else if i == 19 { assert(p[19] == rec(0x2238, 0x223B, AL)); assert(p[20] == rec(0x223C, 0x223D, AI));
        } else if i == 20 { assert(p[20] == rec(0x223C, 0x223D, AI)); assert(p[21] == rec(0x223E, 0x2247, AL));
        } else if i == 21 { assert(p[21] == rec(0x223E, 0x2247, AL)); assert(p[22] == rec(0x2248, 0x2248, AI));
        } else if i == 22 { assert(p[22] == rec(0x2248, 0x2248, AI)); assert(p[23] == rec(0x2249, 0x224B, AL));
        } else if i == 23 { assert(p[23] == rec(0x2249, 0x224B, AL)); assert(p[24] == rec(0x224C, 0x224C, AI));
        } else if i == 24 { assert(p[24] == rec(0x224C, 0x224C, AI)); assert(p[25] == rec(0x224D, 0x2251, AL));
        } else if i == 25 { assert(p[25] == rec(0x224D, 0x2251, AL)); assert(p[26] == rec(0x2252, 0x2252, AI));
        } else if i == 26 { assert(p[26] == rec(0x2252, 0x2252, AI)); assert(p[27] == rec(0x2253, 0x225F, AL));
        } else if i == 27 { assert(p[27] == rec(0x2253, 0x225F, AL)); assert(p[28] == rec(0x2260, 0x2261, AI));
        } else if i == 28 { assert(p[28] == rec(0x2260, 0x2261, AI)); assert(p[29] == rec(0x2262, 0x2263, AL));
        } else if i == 29 { assert(p[29] == rec(0x2262, 0x2263, AL)); assert(p[30] == rec(0x2264, 0x2267, AI));
        } else if i == 30 { assert(p[30] == rec(0x2264, 0x2267, AI)); assert(p[31] == rec(0x2268, 0x2269, AL));
        } else if i == 31 { assert(p[31] == rec(0x2268, 0x2269, AL)); assert(p[32] == rec(0x226A, 0x226B, AI));
        } else if i == 32 { assert(p[32] == rec(0x226A, 0x226B, AI)); assert(p[33] == rec(0x226C, 0x226D, AL));
        } else if i == 33 { assert(p[33] == rec(0x226C, 0x226D, AL)); assert(p[34] == rec(0x226E, 0x226F, AI));
        } else if i == 34 { assert(p[34] == rec(0x226E, 0x226F, AI)); assert(p[35] == rec(0x2270, 0x2281, AL));
        } else if i == 35 { assert(p[35] == rec(0x2270, 0x2281, AL)); assert(p[36] == rec(0x2282, 0x2283, AI));
        } else if i == 36 { assert(p[36] == rec(0x2282, 0x2283, AI)); assert(p[37] == rec(0x2284, 0x2285, AL));
        } else if i == 37 { assert(p[37] == rec(0x2284, 0x2285, AL)); assert(p[38] == rec(0x2286, 0x2287, AI));
        } else if i == 38 { assert(p[38] == rec(0x2286, 0x2287, AI)); assert(p[39] == rec(0x2288, 0x2294, AL));
        } else if i == 39 { assert(p[39] == rec(0x2288, 0x2294, AL)); assert(p[40] == rec(0x2295, 0x2295, AI));
        } else if i == 40 { assert(p[40] == rec(0x2295, 0x2295, AI)); assert(p[41] == rec(0x2296, 0x2298, AL));
        } else if i == 41 { assert(p[41] == rec(0x2296, 0x2298, AL)); assert(p[42] == rec(0x2299, 0x2299, AI));
        } else if i == 42 { assert(p[42] == rec(0x2299, 0x2299, AI)); assert(p[43] == rec(0x229A, 0x22A4, AL));
        } else if i == 43 { assert(p[43] == rec(0x229A, 0x22A4, AL)); assert(p[44] == rec(0x22A5, 0x22A5, AI));
        } else if i == 44 { assert(p[44] == rec(0x22A5, 0x22A5, AI)); assert(p[45] == rec(0x22A6, 0x22BE, AL));
        } else if i == 45 { assert(p[45] == rec(0x22A6, 0x22BE, AL)); assert(p[46] == rec(0x22BF, 0x22BF, AI));
        } else if i == 46 { assert(p[46] == rec(0x22BF, 0x22BF, AI)); assert(p[47] == rec(0x22C0, 0x22EE, AL));
        } else if i == 47 { assert(p[47] == rec(0x22C0, 0x22EE, AL)); assert(p[48] == rec(0x22EF, 0x22EF, IN));
        } else if i == 48 { assert(p[48] == rec(0x22EF, 0x22EF, IN)); assert(p[49] == rec(0x22F0, 0x2307, AL));
        } else if i == 49 { assert(p[49] == rec(0x22F0, 0x2307, AL));
        }
    }
    assert forall|i: int|
        #![trigger p[i], p[i + 1]]
        0 <= i && i + 1 < p.len() implies p[i].end < p[i + 1].start by {}
    assert(p[0] == rec(0x2210, 0x2210, AL));
    assert(p[49] == rec(0x22F0, 0x2307, AL));
}

/// The part's length, order and endpoints.
#[verifier::rlimit(100)]
#[verifier::spinoff_prover]
proof fn lemma_part16_sorted()
    ensures
        records_part16().len() == 50,
        records_sorted(records_part16()),
        records_part16()[0].start == 0x2308,
        records_part16()[49].end == 0x2606,
{
    let p = records_part16();
    assert forall|i: int|
        0 <= i < p.len() implies ((#[trigger] p[i]).start <= p[i].end && p[i].end <= 0x10FFFF && (
    i + 1 < p.len() ==> p[i].end < p[i + 1].start)) by {
        if i == 0 { assert(p[0] == rec(0x2308, 0x2308, OP)); assert(p[1] == rec(0x2309, 0x2309, CL));
        } else if i == 1 { assert(p[1] == rec(0x2309, 0x2309, CL)); assert(p[2] == rec(0x230A, 0x230A, OP));
        } else if i == 2 { assert(p[2] == rec(0x230A, 0x230A, OP)); assert(p[3] == rec(0x230B, 0x230B, CL));
        } else if i == 3 { assert(p[3] == rec(0x230B, 0x230B, CL)); assert(p[4] == rec(0x230C, 0x2311, AL));
        } else if i == 4 { assert(p[4] == rec(0x230C, 0x2311, AL)); assert(p[5] == rec(0x2312, 0x2312, AI));
        } else if i == 5 { assert(p[5] == rec(0x2312, 0x2312, AI)); assert(p[6] == rec(0x2313, 0x2319, AL));
        } else if i == 6 { assert(p[6] == rec(0x2313, 0x2319, AL)); assert(p[7] == rec(0x231A, 0x231B, ID));
        } else if i == 7 { assert(p[7] == rec(0x231A, 0x231B, ID)); assert(p[8] == rec(0x231C, 0x2328, AL));
        } else if i == 8 { assert(p[8] == rec(0x231C, 0x2328, AL)); assert(p[9] == rec(0x2329, 0x2329, OP));
        } else if i == 9 { assert(p[9] == rec(0x2329, 0x2329, OP)); assert(p[10] == rec(0x232A, 0x232A, CL));
        } else if i == 10 { assert(p[10] == rec(0x232A, 0x232A, CL)); assert(p[11] == rec(0x232B, 0x23EF, AL));
        } else if i == 11 { assert(p[11] == rec(0x232B, 0x23EF, AL)); assert(p[12] == rec(0x23F0, 0x23F3, ID));
        } else if i == 12 { assert(p[12] == rec(0x23F0, 0x23F3, ID)); assert(p[13] == rec(0x23F4, 0x2426, AL));
        } else if i == 13 { assert(p[13] == rec(0x23F4, 0x2426, AL)); assert(p[14] == rec(0x2440, 0x244A, AL));
        } else if i == 14 { assert(p[14] == rec(0x2440, 0x244A, AL)); assert(p[15] == rec(0x2460, 0x24FE, AI));
        } else if i == 15 { assert(p[15] == rec(0x2460, 0x24FE, AI)); assert(p[16] == rec(0x24FF, 0x24FF, AL));
        } else if i == 16 { assert(p[16] == rec(0x24FF, 0x24FF, AL)); assert(p[17] == rec(0x2500, 0x254B, AI));
        } else if i == 17 { assert(p[17] == rec(0x2500, 0x254B, AI)); assert(p[18] == rec(0x254C, 0x254F, AL));
        } else if i == 18 { assert(p[18] == rec(0x254C, 0x254F, AL)); assert(p[19] == rec(0x2550, 0x2574, AI));
        } else if i == 19 { assert(p[19] == rec(0x2550, 0x2574, AI)); assert(p[20] == rec(0x2575, 0x257F, AL));
        } else if i == 20 { assert(p[20] == rec(0x2575, 0x257F, AL)); assert(p[21] == rec(0x2580, 0x258F, AI));
        } else if i == 21 { assert(p[21] == rec(0x2580, 0x258F, AI)); assert(p[22] == rec(0x2590, 0x2591, AL));
        } else if i == 22 { assert(p[22] == rec(0x2590, 0x2591, AL)); assert(p[23] == rec(0x2592, 0x2595, AI));
        } else if i == 23 { assert(p[23] == rec(0x2592, 0x2595, AI)); assert(p[24] == rec(0x2596, 0x259F, AL));
        } else if i == 24 { assert(p[24] == rec(0x2596, 0x259F, AL)); assert(p[25] == rec(0x25A0, 0x25A1, AI));
        } else if i == 25 { assert(p[25] == rec(0x25A0, 0x25A1, AI)); assert(p[26] == rec(0x25A2, 0x25A2, AL));
        } else if i == 26 { assert(p[26] == rec(0x25A2, 0x25A2, AL)); assert(p[27] == rec(0x25A3, 0x25A9, AI));
        } else if i == 27 { assert(p[27] == rec(0x25A3, 0x25A9, AI)); assert(p[28] == rec(0x25AA, 0x25B1, AL));
        } else if i == 28 { assert(p[28] == rec(0x25AA, 0x25B1, AL)); assert(p[29] == rec(0x25B2, 0x25B3, AI));
        } else if i == 29 { assert(p[29] == rec(0x25B2, 0x25B3, AI)); assert(p[30] == rec(0x25B4, 0x25B5, AL));
        } else if i == 30 { assert(p[30] == rec(0x25B4, 0x25B5, AL)); assert(p[31] == rec(0x25B6, 0x25B7, AI));
        } else if i == 31 { assert(p[31] == rec(0x25B6, 0x25B7, AI)); assert(p[32] == rec(0x25B8, 0x25BB, AL));
        } else if i == 32 { assert(p[32] == rec(0x25B8, 0x25BB, AL)); assert(p[33] == rec(0x25BC, 0x25BD, AI));
        } else if i == 33 { assert(p[33] == rec(0x25BC, 0x25BD, AI)); assert(p[34] == rec(0x25BE, 0x25BF, AL));
        } else if i == 34 { assert(p[34] == rec(0x25BE, 0x25BF, AL)); assert(p[35] == rec(0x25C0, 0x25C1, AI));
        } else if i == 35 { assert(p[35] == rec(0x25C0, 0x25C1, AI)); assert(p[36] == rec(0x25C2, 0x25C5, AL));
        } else if i == 36 { assert(p[36] == rec(0x25C2, 0x25C5, AL)); assert(p[37] == rec(0x25C6, 0x25C8, AI));
        } else if i == 37 { assert(p[37] == rec(0x25C6, 0x25C8, AI)); assert(p[38] == rec(0x25C9, 0x25CA, AL));
        } else if i == 38 { assert(p[38] == rec(0x25C9, 0x25CA, AL)); assert(p[39] == rec(0x25CB, 0x25CB, AI));
        } else if i == 39 { assert(p[39] == rec(0x25CB, 0x25CB, AI)); assert(p[40] == rec(0x25CC, 0x25CD, AL));
        } else if i == 40 { assert(p[40] == rec(0x25CC, 0x25CD, AL)); assert(p[41] == rec(0x25CE, 0x25D1, AI));
        } else if i == 41 { assert(p[41] == rec(0x25CE, 0x25D1, AI)); assert(p[42] == rec(0x25D2, 0x25E1, AL));
        } else if i == 42 { assert(p[42] == rec(0x25D2, 0x25E1, AL)); assert(p[43] == rec(0x25E2, 0x25E5, AI));
        } else if i == 43 { assert(p[43] == rec(0x25E2, 0x25E5, AI)); assert(p[44] == rec(0x25E6, 0x25EE, AL));
        } else if i == 44 { assert(p[44] == rec(0x25E6, 0x25EE, AL)); assert(p[45] == rec(0x25EF, 0x25EF, AI));
        } else if i == 45 { assert(p[45] == rec(0x25EF, 0x25EF, AI)); assert(p[46] == rec(0x25F0, 0x25FF, AL));
        } else if i == 46 { assert(p[46] == rec(0x25F0, 0x25FF, AL)); assert(p[47] == rec(0x2600, 0x2603, ID));
        } else if i == 47 { assert(p[47] == rec(0x2600, 0x2603, ID)); assert(p[48] == rec(0x2604, 0x2604, AL));
        } else if i == 48 { assert(p[48] == rec(0x2604, 0x2604, AL)); assert(p[49] == rec(0x2605, 0x2606, AI));
        } else if i == 49 { assert(p[49] == rec(0x2605, 0x2606, AI));
        }
    }
    assert forall|i: int|
        #![trigger p[i], p[i + 1]]
        0 <= i && i + 1 < p.len() implies p[i].end < p[i + 1].start by {}
    assert(p[0] == rec(0x2308, 0x2308, OP));
    assert(p[49] == rec(0x2605, 0x2606, AI));
}

/// The part's length, order and endpoints.
#[verifier::rlimit(100)]
#[verifier::spinoff_prover]
proof fn lemma_part17_sorted()
    ensures
        records_part17().len() == 50,
        records_sorted(records_part17()),
        records_part17()[0].start == 0x2607,
        records_part17()[49].end == 0x26E3,
{
    let p = records_part17();
    assert forall|i: int|
        0 <= i < p.len() implies ((#[trigger] p[i]).start <= p[i].end && p[i].end <= 0x10FFFF && (
    i + 1 < p.len() ==> p[i].end < p[i + 1].start)) by {
        if i == 0 { assert(p[0] == rec(0x2607, 0x2608, AL)); assert(p[1] == rec(0x2609, 0x2609, AI));
        } else if i == 1 { assert(p[1] == rec(0x2609, 0x2609, AI)); assert(p[2] == rec(0x260A, 0x260D, AL));
        } else if i == 2 { assert(p[2] == rec(0x260A, 0x260D, AL)); assert(p[3] == rec(0x260E, 0x260F, AI));
        } else if i == 3 { assert(p[3] == rec(0x260E, 0x260F, AI)); assert(p[4] == rec(0x2610, 0x2613, AL));
        } else if i == 4 { assert(p[4] == rec(0x2610, 0x2613, AL)); assert(p[5] == rec(0x2614, 0x2615, ID));
        } else if i == 5 { assert(p[5] == rec(0x2614, 0x2615, ID)); assert(p[6] == rec(0x2616, 0x2617, AI));
        } else if i == 6 { assert(p[6] == rec(0x2616, 0x2617, AI)); assert(p[7] == rec(0x2618, 0x2618, ID));
        } else if i == 7 { assert(p[7] == rec(0x2618, 0x2618, ID)); assert(p[8] == rec(0x2619, 0x2619, AL));
        } else if i == 8 { assert(p[8] == rec(0x2619, 0x2619, AL)); assert(p[9] == rec(0x261A, 0x261C, ID));
        } else if i == 9 { assert(p[9] == rec(0x261A, 0x261C, ID)); assert(p[10] == rec(0x261D, 0x261D, EB));
        } else if i == 10 { assert(p[10] == rec(0x261D, 0x261D, EB)); assert(p[11] == rec(0x261E, 0x261F, ID));
        } else if i == 11 { assert(p[11] == rec(0x261E, 0x261F, ID)); assert(p[12] == rec(0x2620, 0x2638, AL));
        } else if i == 12 { assert(p[12] == rec(0x2620, 0x2638, AL)); assert(p[13] == rec(0x2639, 0x263B, ID));
        } else if i == 13 { assert(p[13] == rec(0x2639, 0x263B, ID)); assert(p[14] == rec(0x263C, 0x263F, AL));
        } else if i == 14 { assert(p[14] == rec(0x263C, 0x263F, AL)); assert(p[15] == rec(0x2640, 0x2640, AI));
        } else if i == 15 { assert(p[15] == rec(0x2640, 0x2640, AI)); assert(p[16] == rec(0x2641, 0x2641, AL));
        } else if i == 16 { assert(p[16] == rec(0x2641, 0x2641, AL)); assert(p[17] == rec(0x2642, 0x2642, AI));
        } else if i == 17 { assert(p[17] == rec(0x2642, 0x2642, AI)); assert(p[18] == rec(0x2643, 0x265F, AL));
        } else if i == 18 { assert(p[18] == rec(0x2643, 0x265F, AL)); assert(p[19] == rec(0x2660, 0x2661, AI));
        } else if i == 19 { assert(p[19] == rec(0x2660, 0x2661, AI)); assert(p[20] == rec(0x2662, 0x2662, AL));
        } else if i == 20 { assert(p[20] == rec(0x2662, 0x2662, AL)); assert(p[21] == rec(0x2663, 0x2665, AI));
        } else if i == 21 { assert(p[21] == rec(0x2663, 0x2665, AI)); assert(p[22] == rec(0x2666, 0x2666, AL));
        } else if i == 22 { assert(p[22] == rec(0x2666, 0x2666, AL)); assert(p[23] == rec(0x2667, 0x2667, AI));
        } else if i == 23 { assert(p[23] == rec(0x2667, 0x2667, AI)); assert(p[24] == rec(0x2668, 0x2668, ID));
        } else if i == 24 { assert(p[24] == rec(0x2668, 0x2668, ID)); assert(p[25] == rec(0x2669, 0x266A, AI));
        } else if i == 25 { assert(p[25] == rec(0x2669, 0x266A, AI)); assert(p[26] == rec(0x266B, 0x266B, AL));
        } else if i == 26 { assert(p[26] == rec(0x266B, 0x266B, AL)); assert(p[27] == rec(0x266C, 0x266D, AI));
        } else if i == 27 { assert(p[27] == rec(0x266C, 0x266D, AI)); assert(p[28] == rec(0x266E, 0x266E, AL));
        } else if i == 28 { assert(p[28] == rec(0x266E, 0x266E, AL)); assert(p[29] == rec(0x266F, 0x266F, AI));
        } else if i == 29 { assert(p[29] == rec(0x266F, 0x266F, AI)); assert(p[30] == rec(0x2670, 0x267E, AL));
        } else if i == 30 { assert(p[30] == rec(0x2670, 0x267E, AL)); assert(p[31] == rec(0x267F, 0x267F, ID));
        } else if i == 31 { assert(p[31] == rec(0x267F, 0x267F, ID)); assert(p[32] == rec(0x2680, 0x269D, AL));
        } else if i == 32 { assert(p[32] == rec(0x2680, 0x269D, AL)); assert(p[33] == rec(0x269E, 0x269F, AI));
        } else if i == 33 { assert(p[33] == rec(0x269E, 0x269F, AI)); assert(p[34] == rec(0x26A0, 0x26BC, AL));
        } else if i == 34 { assert(p[34] == rec(0x26A0, 0x26BC, AL)); assert(p[35] == rec(0x26BD, 0x26C8, ID));
        } else if i == 35 { assert(p[35] == rec(0x26BD, 0x26C8, ID)); assert(p[36] == rec(0x26C9, 0x26CC, AI));
        } else if i == 36 { assert(p[36] == rec(0x26C9, 0x26CC, AI)); assert(p[37] == rec(0x26CD, 0x26CD, ID));
        } else if i == 37 { assert(p[37] == rec(0x26CD, 0x26CD, ID)); assert(p[38] == rec(0x26CE, 0x26CE, AL));
        } else if i == 38 { assert(p[38] == rec(0x26CE, 0x26CE, AL)); assert(p[39] == rec(0x26CF, 0x26D1, ID));
        } else if i == 39 { assert(p[39] == rec(0x26CF, 0x26D1, ID)); assert(p[40] == rec(0x26D2, 0x26D2, AI));
        } else if i == 40 { assert(p[40] == rec(0x26D2, 0x26D2, AI)); assert(p[41] == rec(0x26D3, 0x26D4, ID));
        } else if i == 41 { assert(p[41] == rec(0x26D3, 0x26D4, ID)); assert(p[42] == rec(0x26D5, 0x26D7, AI));
        } else if i == 42 { assert(p[42] == rec(0x26D5, 0x26D7, AI)); assert(p[43] == rec(0x26D8, 0x26D9, ID));
        } else if i == 43 { assert(p[43] == rec(0x26D8, 0x26D9, ID)); assert(p[44] == rec(0x26DA, 0x26DB, AI));
        } else if i == 44 { assert(p[44] == rec(0x26DA, 0x26DB, AI)); assert(p[45] == rec(0x26DC, 0x26DC, ID));
        } else if i == 45 { assert(p[45] == rec(0x26DC, 0x26DC, ID)); assert(p[46] == rec(0x26DD, 0x26DE, AI));
        } else if i == 46 { assert(p[46] == rec(0x26DD, 0x26DE, AI)); assert(p[47] == rec(0x26DF, 0x26E1, ID));
        } else if i == 47 { assert(p[47] == rec(0x26DF, 0x26E1, ID)); assert(p[48] == rec(0x26E2, 0x26E2, AL));
        } else if i == 48 { assert(p[48] == rec(0x26E2, 0x26E2, AL)); assert(p[49] == rec(0x26E3, 0x26E3, AI));
        } else if i == 49 { assert(p[49] == rec(0x26E3, 0x26E3, AI));
        }
    }
    assert forall|i: int|
        #![trigger p[i], p[i + 1]]
        0 <= i && i + 1 < p.len() implies p[i].end < p[i + 1].start by {}
    assert(p[0] == rec(0x2607, 0x2608, AL));
    assert(p[49] == rec(0x26E3, 0x26E3, AI));
}

/// The part's length, order and endpoints.
#[verifier::rlimit(100)]
#[verifier::spinoff_prover]
proof fn lemma_part18_sorted()
    ensures
        records_part18().len() == 50,
        records_sorted(records_part18()),
        records_part18()[0].start == 0x26E4,
        records_part18()[49].end == 0x27EE,
{
    let p = records_part18();
    assert forall|i: int|
        0 <= i < p.len() implies ((#[trigger] p[i]).start <= p[i].end && p[i].end <= 0x10FFFF && (
    i + 1 < p.len() ==> p[i].end < p[i + 1].start)) by {
        if i == 0 { assert(p[0] == rec(0x26E4, 0x26E7, AL)); assert(p[1] == rec(0x26E8, 0x26E9, AI));
        } else if i == 1 { assert(p[1] == rec(0x26E8, 0x26E9, AI)); assert(p[2] == rec(0x26EA, 0x26EA, ID));
        } else if i == 2 { assert(p[2] == rec(0x26EA, 0x26EA, ID)); assert(p[3] == rec(0x26EB, 0x26F0, AI));
        } else if i == 3 { assert(p[3] == rec(0x26EB, 0x26F0, AI)); assert(p[4] == rec(0x26F1, 0x26F5, ID));
        } else if i == 4 { assert(p[4] == rec(0x26F1, 0x26F5, ID)); assert(p[5] == rec(0x26F6, 0x26F6, AI));
        } else if i == 5 { assert(p[5] == rec(0x26F6, 0x26F6, AI)); assert(p[6] == rec(0x26F7, 0x26F8, ID));
        } else if i == 6 { assert(p[6] == rec(0x26F7, 0x26F8, ID)); assert(p[7] == rec(0x26F9, 0x26F9, EB));
        } else if i == 7 { assert(p[7] == rec(0x26F9, 0x26F9, EB)); assert(p[8] == rec(0x26FA, 0x26FA, ID));
        } else if i == 8 { assert(p[8] == rec(0x26FA, 0x26FA, ID)); assert(p[9] == rec(0x26FB, 0x26FC, AI));
        } else if i == 9 { assert(p[9] == rec(0x26FB, 0x26FC, AI)); assert(p[10] == rec(0x26FD, 0x2704, ID));
        } else if i == 10 { assert(p[10] == rec(0x26FD, 0x2704, ID)); assert(p[11] == rec(0x2705, 0x2707, AL));
        } else if i == 11 { assert(p[11] == rec(0x2705, 0x2707, AL)); assert(p[12] == rec(0x2708, 0x2709, ID));
        } else if i == 12 { assert(p[12] == rec(0x2708, 0x2709, ID)); assert(p[13] == rec(0x270A, 0x270D, EB));
        } else if i == 13 { assert(p[13] == rec(0x270A, 0x270D, EB)); assert(p[14] == rec(0x270E, 0x2756, AL));
        } else if i == 14 { assert(p[14] == rec(0x270E, 0x2756, AL)); assert(p[15] == rec(0x2757, 0x2757, AI));
        } else if i == 15 { assert(p[15] == rec(0x2757, 0x2757, AI)); assert(p[16] == rec(0x2758, 0x275A, AL));
        } else if i == 16 { assert(p[16] == rec(0x2758, 0x275A, AL)); assert(p[17] == rec(0x275B, 0x2760, QU));
        } else if i == 17 { assert(p[17] == rec(0x275B, 0x2760, QU)); assert(p[18] == rec(0x2761, 0x2761, AL));
        } else if i == 18 { assert(p[18] == rec(0x2761, 0x2761, AL)); assert(p[19] == rec(0x2762, 0x2763, EX));
        } else if i == 19 { assert(p[19] == rec(0x2762, 0x2763, EX)); assert(p[20] == rec(0x2764, 0x2764, ID));
        } else if i == 20 { assert(p[20] == rec(0x2764, 0x2764, ID)); assert(p[21] == rec(0x2765, 0x2767, AL));
        } else if i == 21 { assert(p[21] == rec(0x2765, 0x2767, AL)); assert(p[22] == rec(0x2768, 0x2768, OP));
        } else if i == 22 { assert(p[22] == rec(0x2768, 0x2768, OP)); assert(p[23] == rec(0x2769, 0x2769, CL));
        } else if i == 23 { assert(p[23] == rec(0x2769, 0x2769, CL)); assert(p[24] == rec(0x276A, 0x276A, OP));
        } else if i == 24 { assert(p[24] == rec(0x276A, 0x276A, OP)); assert(p[25] == rec(0x276B, 0x276B, CL));
        } else if i == 25 { assert(p[25] == rec(0x276B, 0x276B, CL)); assert(p[26] == rec(0x276C, 0x276C, OP));
        } else if i == 26 { assert(p[26] == rec(0x276C, 0x276C, OP)); assert(p[27] == rec(0x276D, 0x276D, CL));
        } else if i == 27 { assert(p[27] == rec(0x276D, 0x276D, CL)); assert(p[28] == rec(0x276E, 0x276E, OP));
        } else if i == 28 { assert(p[28] == rec(0x276E, 0x276E, OP)); assert(p[29] == rec(0x276F, 0x276F, CL));
        } else if i == 29 { assert(p[29] == rec(0x276F, 0x276F, CL)); assert(p[30] == rec(0x2770, 0x2770, OP));
        } else if i == 30 { assert(p[30] == rec(0x2770, 0x2770, OP)); assert(p[31] == rec(0x2771, 0x2771, CL));
        } else if i == 31 { assert(p[31] == rec(0x2771, 0x2771, CL)); assert(p[32] == rec(0x2772, 0x2772, OP));
        } else if i == 32 { assert(p[32] == rec(0x2772, 0x2772, OP)); assert(p[33] == rec(0x2773, 0x2773, CL));
        } else if i == 33 { assert(p[33] == rec(0x2773, 0x2773, CL)); assert(p[34] == rec(0x2774, 0x2774, OP));
        } else if i == 34 { assert(p[34] == rec(0x2774, 0x2774, OP)); assert(p[35] == rec(0x2775, 0x2775, CL));
        } else if i == 35 { assert(p[35] == rec(0x2775, 0x2775, CL)); assert(p[36] == rec(0x2776, 0x2793, AI));
        } else if i == 36 { assert(p[36] == rec(0x2776, 0x2793, AI)); assert(p[37] == rec(0x2794, 0x27C4, AL));
        } else if i == 37 { assert(p[37] == rec(0x2794, 0x27C4, AL)); assert(p[38] == rec(0x27C5, 0x27C5, OP));
        } else if i == 38 { assert(p[38] == rec(0x27C5, 0x27C5, OP)); assert(p[39] == rec(0x27C6, 0x27C6, CL));
        } else if i == 39 { assert(p[39] == rec(0x27C6, 0x27C6, CL)); assert(p[40] == rec(0x27C7, 0x27E5, AL));
        } else if i == 40 { assert(p[40] == rec(0x27C7, 0x27E5, AL)); assert(p[41] == rec(0x27E6, 0x27E6, OP));
        } else if i == 41 { assert(p[41] == rec(0x27E6, 0x27E6, OP)); assert(p[42] == rec(0x27E7, 0x27E7, CL));
        } else if i == 42 { assert(p[42] == rec(0x27E7, 0x27E7, CL)); assert(p[43] == rec(0x27E8, 0x27E8, OP));
        } else if i == 43 { assert(p[43] == rec(0x27E8, 0x27E8, OP)); assert(p[44] == rec(0x27E9, 0x27E9, CL));
        } else if i == 44 { assert(p[44] == rec(0x27E9, 0x27E9, CL)); assert(p[45] == rec(0x27EA, 0x27EA, OP));
        } else if i == 45 { assert(p[45] == rec(0x27EA, 0x27EA, OP)); assert(p[46] == rec(0x27EB, 0x27EB, CL));
        } else if i == 46 { assert(p[46] == rec(0x27EB, 0x27EB, CL)); assert(p[47] == rec(0x27EC, 0x27EC, OP));
        } else if i == 47 { assert(p[47] == rec(0x27EC, 0x27EC, OP)); assert(p[48] == rec(0x27ED, 0x27ED, CL));
        } else if i == 48 { assert(p[48] == rec(0x27ED, 0x27ED, CL)); assert(p[49] == rec(0x27EE, 0x27EE, OP));
        } else if i == 49 { assert(p[49] == rec(0x27EE, 0x27EE, OP));
        }
    }
    assert forall|i: int|
        #![trigger p[i], p[i + 1]]
        0 <= i && i + 1 < p.len() implies p[i].end < p[i + 1].start by {}
    assert(p[0] == rec(0x26E4, 0x26E7, AL));
    assert(p[49] == rec(0x27EE, 0x27EE, OP));
}

/// The part's length, order and endpoints.
#[verifier::rlimit(100)]
#[verifier::spinoff_prover]
proof fn lemma_part19_sorted()
    ensures
        records_part19().len() == 50,
        records_sorted(records_part19()),
        records_part19()[0].start == 0x27EF,
        records_part19()[49].end == 0x2D70,
{
    let p = records_part19();
    assert forall|i: int|
        0 <= i < p.len() implies ((#[trigger] p[i]).start <= p[i].end && p[i].end <= 0x10FFFF && (
    i + 1 < p.len() ==> p[i].end < p[i + 1].start)) by {
        if i == 0 { assert(p[0] == rec(0x27EF, 0x27EF, CL)); assert(p[1] == rec(0x27F0, 0x2982, AL));
        } else if i == 1 { assert(p[1] == rec(0x27F0, 0x2982, AL)); assert(p[2] == rec(0x2983, 0x2983, OP));
        } else if i == 2 { assert(p[2] == rec(0x2983, 0x2983, OP)); assert(p[3] == rec(0x2984, 0x2984, CL));
        } else if i == 3 { assert(p[3] == rec(0x2984, 0x2984, CL)); assert(p[4] == rec(0x2985, 0x2985, OP));
        } else if i == 4 { assert(p[4] == rec(0x2985, 0x2985, OP)); assert(p[5] == rec(0x2986, 0x2986, CL));
        } else if i == 5 { assert(p[5] == rec(0x2986, 0x2986, CL)); assert(p[6] == rec(0x2987, 0x2987, OP));
        } else if i == 6 { assert(p[6] == rec(0x2987, 0x2987, OP)); assert(p[7] == rec(0x2988, 0x2988, CL));
        } else if i == 7 { assert(p[7] == rec(0x2988, 0x2988, CL)); assert(p[8] == rec(0x2989, 0x2989, OP));
        } else if i == 8 { assert(p[8] == rec(0x2989, 0x2989, OP)); assert(p[9] == rec(0x298A, 0x298A, CL));
        } else if i == 9 { assert(p[9] == rec(0x298A, 0x298A, CL)); assert(p[10] == rec(0x298B, 0x298B, OP));
        } else if i == 10 { assert(p[10] == rec(0x298B, 0x298B, OP)); assert(p[11] == rec(0x298C, 0x298C, CL));
        } else if i == 11 { assert(p[11] == rec(0x298C, 0x298C, CL)); assert(p[12] == rec(0x298D, 0x298D, OP));
        } else if i == 12 { assert(p[12] == rec(0x298D, 0x298D, OP)); assert(p[13] == rec(0x298E, 0x298E, CL));
        } else if i == 13 { assert(p[13] == rec(0x298E, 0x298E, CL)); assert(p[14] == rec(0x298F, 0x298F, OP));
        } else if i == 14 { assert(p[14] == rec(0x298F, 0x298F, OP)); assert(p[15] == rec(0x2990, 0x2990, CL));
        } else if i == 15 { assert(p[15] == rec(0x2990, 0x2990, CL)); assert(p[16] == rec(0x2991, 0x2991, OP));
        } else if i == 16 { assert(p[16] == rec(0x2991, 0x2991, OP)); assert(p[17] == rec(0x2992, 0x2992, CL));
        } else if i == 17 { assert(p[17] == rec(0x2992, 0x2992, CL)); assert(p[18] == rec(0x2993, 0x2993, OP));
        } else if i == 18 { assert(p[18] == rec(0x2993, 0x2993, OP)); assert(p[19] == rec(0x2994, 0x2994, CL));
        } else if i == 19 { assert(p[19] == rec(0x2994, 0x2994, CL)); assert(p[20] == rec(0x2995, 0x2995, OP));
        } else if i == 20 { assert(p[20] == rec(0x2995, 0x2995, OP)); assert(p[21] == rec(0x2996, 0x2996, CL));
        } else if i == 21 { assert(p[21] == rec(0x2996, 0x2996, CL)); assert(p[22] == rec(0x2997, 0x2997, OP));
        } else if i == 22 { assert(p[22] == rec(0x2997, 0x2997, OP)); assert(p[23] == rec(0x2998, 0x2998, CL));
        } else if i == 23 { assert(p[23] == rec(0x2998, 0x2998, CL)); assert(p[24] == rec(0x2999, 0x29D7, AL));
        } else if i == 24 { assert(p[24] == rec(0x2999, 0x29D7, AL)); assert(p[25] == rec(0x29D8, 0x29D8, OP));
        } else if i == 25 { assert(p[25] == rec(0x29D8, 0x29D8, OP)); assert(p[26] == rec(0x29D9, 0x29D9, CL));
        } else if i == 26 { assert(p[26] == rec(0x29D9, 0x29D9, CL)); assert(p[27] == rec(0x29DA, 0x29DA, OP));
        } else if i == 27 { assert(p[27] == rec(0x29DA, 0x29DA, OP)); assert(p[28] == rec(0x29DB, 0x29DB, CL));
        } else if i == 28 { assert(p[28] == rec(0x29DB, 0x29DB, CL)); assert(p[29] == rec(0x29DC, 0x29FB, AL));
        } else if i == 29 { assert(p[29] == rec(0x29DC, 0x29FB, AL)); assert(p[30] == rec(0x29FC, 0x29FC, OP));
        } else if i == 30 { assert(p[30] == rec(0x29FC, 0x29FC, OP)); assert(p[31] == rec(0x29FD, 0x29FD, CL));
        } else if i == 31 { assert(p[31] == rec(0x29FD, 0x29FD, CL)); assert(p[32] == rec(0x29FE, 0x2B54, AL));
        } else if i == 32 { assert(p[32] == rec(0x29FE, 0x2B54, AL)); assert(p[33] == rec(0x2B55, 0x2B59, AI));
        } else if i == 33 { assert(p[33] == rec(0x2B55, 0x2B59, AI)); assert(p[34] == rec(0x2B5A, 0x2B73, AL));
        } else if i == 34 { assert(p[34] == rec(0x2B5A, 0x2B73, AL)); assert(p[35] == rec(0x2B76, 0x2B95, AL));
        } else if i == 35 { assert(p[35] == rec(0x2B76, 0x2B95, AL)); assert(p[36] == rec(0x2B97, 0x2CEE, AL));
        } else if i == 36 { assert(p[36] == rec(0x2B97, 0x2CEE, AL)); assert(p[37] == rec(0x2CEF, 0x2CF1, CM));
        } else if i == 37 { assert(p[37] == rec(0x2CEF, 0x2CF1, CM)); assert(p[38] == rec(0x2CF2, 0x2CF3, AL));
        } else if i == 38 { assert(p[38] == rec(0x2CF2, 0x2CF3, AL)); assert(p[39] == rec(0x2CF9, 0x2CF9, EX));
        } else if i == 39 { assert(p[39] == rec(0x2CF9, 0x2CF9, EX)); assert(p[40] == rec(0x2CFA, 0x2CFC, BA));
        } else if i == 40 { assert(p[40] == rec(0x2CFA, 0x2CFC, BA)); assert(p[41] == rec(0x2CFD, 0x2CFD, AL));
        } else if i == 41 { assert(p[41] == rec(0x2CFD, 0x2CFD, AL)); assert(p[42] == rec(0x2CFE, 0x2CFE, EX));
        } else if i == 42 { assert(p[42] == rec(0x2CFE, 0x2CFE, EX)); assert(p[43] == rec(0x2CFF, 0x2CFF, BA));
        } else if i == 43 { assert(p[43] == rec(0x2CFF, 0x2CFF, BA)); assert(p[44] == rec(0x2D00, 0x2D25, AL));
        } else if i == 44 { assert(p[44] == rec(0x2D00, 0x2D25, AL)); assert(p[45] == rec(0x2D27, 0x2D27, AL));
        } else if i == 45 { assert(p[45] == rec(0x2D27, 0x2D27, AL)); assert(p[46] == rec(0x2D2D, 0x2D2D, AL));
        } else if i == 46 { assert(p[46] == rec(0x2D2D, 0x2D2D, AL)); assert(p[47] == rec(0x2D30, 0x2D67, AL));
        } else if i == 47 { assert(p[47] == rec(0x2D30, 0x2D67, AL)); assert(p[48] == rec(0x2D6F, 0x2D6F, AL));
        } else if i == 48 { assert(p[48] == rec(0x2D6F, 0x2D6F, AL)); assert(p[49] == rec(0x2D70, 0x2D70, BA));
        } else if i == 49 { assert(p[49] == rec(0x2D70, 0x2D70, BA));
        }
    }
    assert forall|i: int|
        #![trigger p[i], p[i + 1]]
        0 <= i && i + 1 < p.len() implies p[i].end < p[i + 1].start by {}
    assert(p[0] == rec(0x27EF, 0x27EF, CL));
    assert(p[49] == rec(0x2D70, 0x2D70, BA));
}

/// The part's length, order and endpoints.
#[verifier::rlimit(100)]
#[verifier::spinoff_prover]
proof fn lemma_part20_sorted()
    ensures
        records_part20().len() == 50,
        records_sorted(records_part20()),
        records_part20()[0].start == 0x2D7F,
        records_part20()[49].end == 0x2E56,
{
    let p = records_part20();
    assert forall|i: int|
        0 <= i < p.len() implies ((#[trigger] p[i]).start <= p[i].end && p[i].end <= 0x10FFFF && (
    i + 1 < p.len() ==> p[i].end < p[i + 1].start)) by {
        if i == 0 { assert(p[0] == rec(0x2D7F, 0x2D7F, CM)); assert(p[1] == rec(0x2D80, 0x2D96, AL));
        } else if i == 1 { assert(p[1] == rec(0x2D80, 0x2D96, AL)); assert(p[2] == rec(0x2DA0, 0x2DA6, AL));
        } else if i == 2 { assert(p[2] == rec(0x2DA0, 0x2DA6, AL)); assert(p[3] == rec(0x2DA8, 0x2DAE, AL));
        } else if i == 3 { assert(p[3] == rec(0x2DA8, 0x2DAE, AL)); assert(p[4] == rec(0x2DB0, 0x2DB6, AL));
        } else if i == 4 { assert(p[4] == rec(0x2DB0, 0x2DB6, AL)); assert(p[5] == rec(0x2DB8, 0x2DBE, AL));
        } else if i == 5 { assert(p[5] == rec(0x2DB8, 0x2DBE, AL)); assert(p[6] == rec(0x2DC0, 0x2DC6, AL));
        } else if i == 6 { assert(p[6] == rec(0x2DC0, 0x2DC6, AL)); assert(p[7] == rec(0x2DC8, 0x2DCE, AL));
        } else if i == 7 { assert(p[7] == rec(0x2DC8, 0x2DCE, AL)); assert(p[8] == rec(0x2DD0, 0x2DD6, AL));
        } else if i == 8 { assert(p[8] == rec(0x2DD0, 0x2DD6, AL)); assert(p[9] == rec(0x2DD8, 0x2DDE, AL));
        } else if i == 9 { assert(p[9] == rec(0x2DD8, 0x2DDE, AL)); assert(p[10] == rec(0x2DE0, 0x2DFF, CM));
        } else if i == 10 { assert(p[10] == rec(0x2DE0, 0x2DFF, CM)); assert(p[11] == rec(0x2E00, 0x2E0D, QU));
        } else if i == 11 { assert(p[11] == rec(0x2E00, 0x2E0D, QU)); assert(p[12] == rec(0x2E0E, 0x2E15, BA));
        } else if i == 12 { assert(p[12] == rec(0x2E0E, 0x2E15, BA)); assert(p[13] == rec(0x2E16, 0x2E16, AL));
        } else if i == 13 { assert(p[13] == rec(0x2E16, 0x2E16, AL)); assert(p[14] == rec(0x2E17, 0x2E17, BA));
        } else if i == 14 { assert(p[14] == rec(0x2E17, 0x2E17, BA)); assert(p[15] == rec(0x2E18, 0x2E18, OP));
        } else if i == 15 { assert(p[15] == rec(0x2E18, 0x2E18, OP)); assert(p[16] == rec(0x2E19, 0x2E19, BA));
        } else if i == 16 { assert(p[16] == rec(0x2E19, 0x2E19, BA)); assert(p[17] == rec(0x2E1A, 0x2E1B, AL));
        } else if i == 17 { assert(p[17] == rec(0x2E1A, 0x2E1B, AL)); assert(p[18] == rec(0x2E1C, 0x2E1D, QU));
        } else if i == 18 { assert(p[18] == rec(0x2E1C, 0x2E1D, QU)); assert(p[19] == rec(0x2E1E, 0x2E1F, AL));
        } else if i == 19 { assert(p[19] == rec(0x2E1E, 0x2E1F, AL)); assert(p[20] == rec(0x2E20, 0x2E21, QU));
        } else if i == 20 { assert(p[20] == rec(0x2E20, 0x2E21, QU)); assert(p[21] == rec(0x2E22, 0x2E22, OP));
        } else if i == 21 { assert(p[21] == rec(0x2E22, 0x2E22, OP)); assert(p[22] == rec(0x2E23, 0x2E23, CL));
        } else if i == 22 { assert(p[22] == rec(0x2E23, 0x2E23, CL)); assert(p[23] == rec(0x2E24, 0x2E24, OP));
        } else if i == 23 { assert(p[23] == rec(0x2E24, 0x2E24, OP)); assert(p[24] == rec(0x2E25, 0x2E25, CL));
        } else if i == 24 { assert(p[24] == rec(0x2E25, 0x2E25, CL)); assert(p[25] == rec(0x2E26, 0x2E26, OP));
        } else if i == 25 { assert(p[25] == rec(0x2E26, 0x2E26, OP)); assert(p[26] == rec(0x2E27, 0x2E27, CL));
        } else if i == 26 { assert(p[26] == rec(0x2E27, 0x2E27, CL)); assert(p[27] == rec(0x2E28, 0x2E28, OP));
        } else if i == 27 { assert(p[27] == rec(0x2E28, 0x2E28, OP)); assert(p[28] == rec(0x2E29, 0x2E29, CL));
        } else if i == 28 { assert(p[28] == rec(0x2E29, 0x2E29, CL)); assert(p[29] == rec(0x2E2A, 0x2E2D, BA));
        } else if i == 29 { assert(p[29] == rec(0x2E2A, 0x2E2D, BA)); assert(p[30] == rec(0x2E2E, 0x2E2E, EX));
        } else if i == 30 { assert(p[30] == rec(0x2E2E, 0x2E2E, EX)); assert(p[31] == rec(0x2E2F, 0x2E2F, AL));
        } else if i == 31 { assert(p[31] == rec(0x2E2F, 0x2E2F, AL)); assert(p[32] == rec(0x2E30, 0x2E31, BA));
        } else if i == 32 { assert(p[32] == rec(0x2E30, 0x2E31, BA)); assert(p[33] == rec(0x2E32, 0x2E32, AL));
        } else if i == 33 { assert(p[33] == rec(0x2E32, 0x2E32, AL)); assert(p[34] == rec(0x2E33, 0x2E34, BA));
        } else if i == 34 { assert(p[34] == rec(0x2E33, 0x2E34, BA)); assert(p[35] == rec(0x2E35, 0x2E39, AL));
        } else if i == 35 { assert(p[35] == rec(0x2E35, 0x2E39, AL)); assert(p[36] == rec(0x2E3A, 0x2E3B, B2));
        } else if i == 36 { assert(p[36] == rec(0x2E3A, 0x2E3B, B2)); assert(p[37] == rec(0x2E3C, 0x2E3E, BA));
        } else if i == 37 { assert(p[37] == rec(0x2E3C, 0x2E3E, BA)); assert(p[38] == rec(0x2E3F, 0x2E3F, AL));
        } else if i == 38 { assert(p[38] == rec(0x2E3F, 0x2E3F, AL)); assert(p[39] == rec(0x2E40, 0x2E41, BA));
        } else if i == 39 { assert(p[39] == rec(0x2E40, 0x2E41, BA)); assert(p[40] == rec(0x2E42, 0x2E42, OP));
        } else if i == 40 { assert(p[40] == rec(0x2E42, 0x2E42, OP)); assert(p[41] == rec(0x2E43, 0x2E4A, BA));
        } else if i == 41 { assert(p[41] == rec(0x2E43, 0x2E4A, BA)); assert(p[42] == rec(0x2E4B, 0x2E4B, AL));
        } else if i == 42 { assert(p[42] == rec(0x2E4B, 0x2E4B, AL)); assert(p[43] == rec(0x2E4C, 0x2E4C, BA));
        } else if i == 43 { assert(p[43] == rec(0x2E4C, 0x2E4C, BA)); assert(p[44] == rec(0x2E4D, 0x2E4D, AL));
        } else if i == 44 { assert(p[44] == rec(0x2E4D, 0x2E4D, AL)); assert(p[45] == rec(0x2E4E, 0x2E4F, BA));
        } else if i == 45 { assert(p[45] == rec(0x2E4E, 0x2E4F, BA)); assert(p[46] == rec(0x2E50, 0x2E52, AL));
        } else if i == 46 { assert(p[46] == rec(0x2E50, 0x2E52, AL)); assert(p[47] == rec(0x2E53, 0x2E54, EX));
        } else if i == 47 { assert(p[47] == rec(0x2E53, 0x2E54, EX)); assert(p[48] == rec(0x2E55, 0x2E55, OP));
        } else if i == 48 { assert(p[48] == rec(0x2E55, 0x2E55, OP)); assert(p[49] == rec(0x2E56, 0x2E56, CL));
        } else if i == 49 { assert(p[49] == rec(0x2E56, 0x2E56, CL));
        }
    }
    assert forall|i: int|
        #![trigger p[i], p[i + 1]]
        0 <= i && i + 1 < p.len() implies p[i].end < p[i + 1].start by {}
    assert(p[0] == rec(0x2D7F, 0x2D7F, CM));
    assert(p[49] == rec(0x2E56, 0x2E56, CL));
}

/// The part's length, order and endpoints.
#[verifier::rlimit(100)]
#[verifier::spinoff_prover]
proof fn lemma_part21_sorted()
    ensures
        records_part21().len() == 50,
        records_sorted(records_part21()),
        records_part21()[0].start == 0x2E57,
        records_part21()[49].end == 0x3045,
{
    let p = records_part21();
    assert forall|i: int|
        0 <= i < p.len() implies ((#[trigger] p[i]).start <= p[i].end && p[i].end <= 0x10FFFF && (
    i + 1 < p.len() ==> p[i].end < p[i + 1].start)) by {
        if i == 0 { assert(p[0] == rec(0x2E57, 0x2E57, OP)); assert(p[1] == rec(0x2E58, 0x2E58, CL));
        } else if i == 1 { assert(p[1] == rec(0x2E58, 0x2E58, CL)); assert(p[2] == rec(0x2E59, 0x2E59, OP));
        } else if i == 2 { assert(p[2] == rec(0x2E59, 0x2E59, OP)); assert(p[3] == rec(0x2E5A, 0x2E5A, CL));
        } else if i == 3 { assert(p[3] == rec(0x2E5A, 0x2E5A, CL)); assert(p[4] == rec(0x2E5B, 0x2E5B, OP));
        } else if i == 4 { assert(p[4] == rec(0x2E5B, 0x2E5B, OP)); assert(p[5] == rec(0x2E5C, 0x2E5C, CL));
        } else if i == 5 { assert(p[5] == rec(0x2E5C, 0x2E5C, CL)); assert(p[6] == rec(0x2E5D, 0x2E5D, BA));
        } else if i == 6 { assert(p[6] == rec(0x2E5D, 0x2E5D, BA)); assert(p[7] == rec(0x2E80, 0x2E99, ID));
        } else if i == 7 { assert(p[7] == rec(0x2E80, 0x2E99, ID)); assert(p[8] == rec(0x2E9B, 0x2EF3, ID));
        } else if i == 8 { assert(p[8] == rec(0x2E9B, 0x2EF3, ID)); assert(p[9] == rec(0x2F00, 0x2FD5, ID));
        } else if i == 9 { assert(p[9] == rec(0x2F00, 0x2FD5, ID)); assert(p[10] == rec(0x2FF0, 0x2FFB, ID));
        } else if i == 10 { assert(p[10] == rec(0x2FF0, 0x2FFB, ID)); assert(p[11] == rec(0x3000, 0x3000, BA));
        } else if i == 11 { assert(p[11] == rec(0x3000, 0x3000, BA)); assert(p[12] == rec(0x3001, 0x3002, CL));
        } else if i == 12 { assert(p[12] == rec(0x3001, 0x3002, CL)); assert(p[13] == rec(0x3003, 0x3004, ID));
        } else if i == 13 { assert(p[13] == rec(0x3003, 0x3004, ID)); assert(p[14] == rec(0x3005, 0x3005, NS));
        } else if i == 14 { assert(p[14] == rec(0x3005, 0x3005, NS)); assert(p[15] == rec(0x3006, 0x3007, ID));
        } else if i == 15 { assert(p[15] == rec(0x3006, 0x3007, ID)); assert(p[16] == rec(0x3008, 0x3008, OP));
        } else if i == 16 { assert(p[16] == rec(0x3008, 0x3008, OP)); assert(p[17] == rec(0x3009, 0x3009, CL));
        } else if i == 17 { assert(p[17] == rec(0x3009, 0x3009, CL)); assert(p[18] == rec(0x300A, 0x300A, OP));
        } else if i == 18 { assert(p[18] == rec(0x300A, 0x300A, OP)); assert(p[19] == rec(0x300B, 0x300B, CL));
        } else if i == 19 { assert(p[19] == rec(0x300B, 0x300B, CL)); assert(p[20] == rec(0x300C, 0x300C, OP));
        } else if i == 20 { assert(p[20] == rec(0x300C, 0x300C, OP)); assert(p[21] == rec(0x300D, 0x300D, CL));
        } else if i == 21 { assert(p[21] == rec(0x300D, 0x300D, CL)); assert(p[22] == rec(0x300E, 0x300E, OP));
        } else if i == 22 { assert(p[22] == rec(0x300E, 0x300E, OP)); assert(p[23] == rec(0x300F, 0x300F, CL));
        } else if i == 23 { assert(p[23] == rec(0x300F, 0x300F, CL)); assert(p[24] == rec(0x3010, 0x3010, OP));
        } else if i == 24 { assert(p[24] == rec(0x3010, 0x3010, OP)); assert(p[25] == rec(0x3011, 0x3011, CL));
        } else if i == 25 { assert(p[25] == rec(0x3011, 0x3011, CL)); assert(p[26] == rec(0x3012, 0x3013, ID));
        } else if i == 26 { assert(p[26] == rec(0x3012, 0x3013, ID)); assert(p[27] == rec(0x3014, 0x3014, OP));
        } else if i == 27 { assert(p[27] == rec(0x3014, 0x3014, OP)); assert(p[28] == rec(0x3015, 0x3015, CL));
        } else if i == 28 { assert(p[28] == rec(0x3015, 0x3015, CL)); assert(p[29] == rec(0x3016, 0x3016, OP));
        } else if i == 29 { assert(p[29] == rec(0x3016, 0x3016, OP)); assert(p[30] == rec(0x3017, 0x3017, CL));
        } else if i == 30 { assert(p[30] == rec(0x3017, 0x3017, CL)); assert(p[31] == rec(0x3018, 0x3018, OP));
        } else if i == 31 { assert(p[31] == rec(0x3018, 0x3018, OP)); assert(p[32] == rec(0x3019, 0x3019, CL));
        } else if i == 32 { assert(p[32] == rec(0x3019, 0x3019, CL)); assert(p[33] == rec(0x301A, 0x301A, OP));
        } else if i == 33 { assert(p[33] == rec(0x301A, 0x301A, OP)); assert(p[34] == rec(0x301B, 0x301B, CL));
        } else if i == 34 { assert(p[34] == rec(0x301B, 0x301B, CL)); assert(p[35] == rec(0x301C, 0x301C, NS));
        } else if i == 35 { assert(p[35] == rec(0x301C, 0x301C, NS)); assert(p[36] == rec(0x301D, 0x301D, OP));
        } else if i == 36 { assert(p[36] == rec(0x301D, 0x301D, OP)); assert(p[37] == rec(0x301E, 0x301F, CL));
        } else if i == 37 { assert(p[37] == rec(0x301E, 0x301F, CL)); assert(p[38] == rec(0x3020, 0x3029, ID));
        } else if i == 38 { assert(p[38] == rec(0x3020, 0x3029, ID)); assert(p[39] == rec(0x302A, 0x302F, CM));
        } else if i == 39 { assert(p[39] == rec(0x302A, 0x302F, CM)); assert(p[40] == rec(0x3030, 0x3034, ID));
        } else if i == 40 { assert(p[40] == rec(0x3030, 0x3034, ID)); assert(p[41] == rec(0x3035, 0x3035, CM));
        } else if i == 41 { assert(p[41] == rec(0x3035, 0x3035, CM)); assert(p[42] == rec(0x3036, 0x303A, ID));
        } else if i == 42 { assert(p[42] == rec(0x3036, 0x303A, ID)); assert(p[43] == rec(0x303B, 0x303C, NS));
        } else if i == 43 { assert(p[43] == rec(0x303B, 0x303C, NS)); assert(p[44] == rec(0x303D, 0x303F, ID));
        } else if i == 44 { assert(p[44] == rec(0x303D, 0x303F, ID)); assert(p[45] == rec(0x3041, 0x3041, CJ));
        } else if i == 45 { assert(p[45] == rec(0x3041, 0x3041, CJ)); assert(p[46] == rec(0x3042, 0x3042, ID));
        } else if i == 46 { assert(p[46] == rec(0x3042, 0x3042, ID)); assert(p[47] == rec(0x3043, 0x3043, CJ));
        } else if i == 47 { assert(p[47] == rec(0x3043, 0x3043, CJ)); assert(p[48] == rec(0x3044, 0x3044, ID));
        } else if i == 48 { assert(p[48] == rec(0x3044, 0x3044, ID)); assert(p[49] == rec(0x3045, 0x3045, CJ));
        } else if i == 49 { assert(p[49] == rec(0x3045, 0x3045, CJ));
        }
    }
    assert forall|i: int|
        #![trigger p[i], p[i + 1]]
        0 <= i && i + 1 < p.len() implies p[i].end < p[i + 1].start by {}
    assert(p[0] == rec(0x2E57, 0x2E57, OP));
    assert(p[49] == rec(0x3045, 0x3045, CJ));
}

/// The part's length, order and endpoints.
#[verifier::rlimit(100)]
#[verifier::spinoff_prover]
proof fn lemma_part22_sorted()
    ensures
        records_part22().len() == 50,
        records_sorted(records_part22()),
        records_part22()[0].start == 0x3046,
        records_part22()[49].end == 0x31FF,
{
    let p = records_part22();
    assert forall|i: int|
        0 <= i < p.len() implies ((#[trigger] p[i]).start <= p[i].end && p[i].end <= 0x10FFFF && (
    i + 1 < p.len() ==> p[i].end < p[i + 1].start)) by {
        if i == 0 { assert(p[0] == rec(0x3046, 0x3046, ID)); assert(p[1] == rec(0x3047, 0x3047, CJ));
        } else if i == 1 { assert(p[1] == rec(0x3047, 0x3047, CJ)); assert(p[2] == rec(0x3048, 0x3048, ID));
        } else if i == 2 { assert(p[2] == rec(0x3048, 0x3048, ID)); assert(p[3] == rec(0x3049, 0x3049, CJ));
        } else if i == 3 { assert(p[3] == rec(0x3049, 0x3049, CJ)); assert(p[4] == rec(0x304A, 0x3062, ID));
        } else if i == 4 { assert(p[4] == rec(0x304A, 0x3062, ID)); assert(p[5] == rec(0x3063, 0x3063, CJ));
        } else if i == 5 { assert(p[5] == rec(0x3063, 0x3063, CJ)); assert(p[6] == rec(0x3064, 0x3082, ID));
        } else if i == 6 { assert(p[6] == rec(0x3064, 0x3082, ID)); assert(p[7] == rec(0x3083, 0x3083, CJ));
        } else if i == 7 { assert(p[7] == rec(0x3083, 0x3083, CJ)); assert(p[8] == rec(0x3084, 0x3084, ID));
        } else if i == 8 { assert(p[8] == rec(0x3084, 0x3084, ID)); assert(p[9] == rec(0x3085, 0x3085, CJ));
        } else if i == 9 { assert(p[9] == rec(0x3085, 0x3085, CJ)); assert(p[10] == rec(0x3086, 0x3086, ID));
        } else if i == 10 { assert(p[10] == rec(0x3086, 0x3086, ID)); assert(p[11] == rec(0x3087, 0x3087, CJ));
        } else if i == 11 { assert(p[11] == rec(0x3087, 0x3087, CJ)); assert(p[12] == rec(0x3088, 0x308D, ID));
        } else if i == 12 { assert(p[12] == rec(0x3088, 0x308D, ID)); assert(p[13] == rec(0x308E, 0x308E, CJ));
        } else if i == 13 { assert(p[13] == rec(0x308E, 0x308E, CJ)); assert(p[14] == rec(0x308F, 0x3094, ID));
        } else if i == 14 { assert(p[14] == rec(0x308F, 0x3094, ID)); assert(p[15] == rec(0x3095, 0x3096, CJ));
        } else if i == 15 { assert(p[15] == rec(0x3095, 0x3096, CJ)); assert(p[16] == rec(0x3099, 0x309A, CM));
        } else if i == 16 { assert(p[16] == rec(0x3099, 0x309A, CM)); assert(p[17] == rec(0x309B, 0x309E, NS));
        } else if i == 17 { assert(p[17] == rec(0x309B, 0x309E, NS)); assert(p[18] == rec(0x309F, 0x309F, ID));
        } else if i == 18 { assert(p[18] == rec(0x309F, 0x309F, ID)); assert(p[19] == rec(0x30A0, 0x30A0, NS));
        } else if i == 19 { assert(p[19] == rec(0x30A0, 0x30A0, NS)); assert(p[20] == rec(0x30A1, 0x30A1, CJ));
        } else if i == 20 { assert(p[20] == rec(0x30A1, 0x30A1, CJ)); assert(p[21] == rec(0x30A2, 0x30A2, ID));
        } else if i == 21 { assert(p[21] == rec(0x30A2, 0x30A2, ID)); assert(p[22] == rec(0x30A3, 0x30A3, CJ));
        } else if i == 22 { assert(p[22] == rec(0x30A3, 0x30A3, CJ)); assert(p[23] == rec(0x30A4, 0x30A4, ID));
        } else if i == 23 { assert(p[23] == rec(0x30A4, 0x30A4, ID)); assert(p[24] == rec(0x30A5, 0x30A5, CJ));
        } else if i == 24 { assert(p[24] == rec(0x30A5, 0x30A5, CJ)); assert(p[25] == rec(0x30A6, 0x30A6, ID));
        } else if i == 25 { assert(p[25] == rec(0x30A6, 0x30A6, ID)); assert(p[26] == rec(0x30A7, 0x30A7, CJ));
        } else if i == 26 { assert(p[26] == rec(0x30A7, 0x30A7, CJ)); assert(p[27] == rec(0x30A8, 0x30A8, ID));
        } else if i == 27 { assert(p[27] == rec(0x30A8, 0x30A8, ID)); assert(p[28] == rec(0x30A9, 0x30A9, CJ));
        } else if i == 28 { assert(p[28] == rec(0x30A9, 0x30A9, CJ)); assert(p[29] == rec(0x30AA, 0x30C2, ID));
        } else if i == 29 { assert(p[29] == rec(0x30AA, 0x30C2, ID)); assert(p[30] == rec(0x30C3, 0x30C3, CJ));
        } else if i == 30 { assert(p[30] == rec(0x30C3, 0x30C3, CJ)); assert(p[31] == rec(0x30C4, 0x30E2, ID));
        } else if i == 31 { assert(p[31] == rec(0x30C4, 0x30E2, ID)); assert(p[32] == rec(0x30E3, 0x30E3, CJ));
        } else if i == 32 { assert(p[32] == rec(0x30E3, 0x30E3, CJ)); assert(p[33] == rec(0x30E4, 0x30E4, ID));
        } else if i == 33 { assert(p[33] == rec(0x30E4, 0x30E4, ID)); assert(p[34] == rec(0x30E5, 0x30E5, CJ));
        } else if i == 34 { assert(p[34] == rec(0x30E5, 0x30E5, CJ)); assert(p[35] == rec(0x30E6, 0x30E6, ID));
        } else if i == 35 { assert(p[35] == rec(0x30E6, 0x30E6, ID)); assert(p[36] == rec(0x30E7, 0x30E7, CJ));
        } else if i == 36 { assert(p[36] == rec(0x30E7, 0x30E7, CJ)); assert(p[37] == rec(0x30E8, 0x30ED, ID));
        } else if i == 37 { assert(p[37] == rec(0x30E8, 0x30ED, ID)); assert(p[38] == rec(0x30EE, 0x30EE, CJ));
        } else if i == 38 { assert(p[38] == rec(0x30EE, 0x30EE, CJ)); assert(p[39] == rec(0x30EF, 0x30F4, ID));
        } else if i == 39 { assert(p[39] == rec(0x30EF, 0x30F4, ID)); assert(p[40] == rec(0x30F5, 0x30F6, CJ));
        } else if i == 40 { assert(p[40] == rec(0x30F5, 0x30F6, CJ)); assert(p[41] == rec(0x30F7, 0x30FA, ID));
        } else if i == 41 { assert(p[41] == rec(0x30F7, 0x30FA, ID)); assert(p[42] == rec(0x30FB, 0x30FB, NS));
        } else if i == 42 { assert(p[42] == rec(0x30FB, 0x30FB, NS)); assert(p[43] == rec(0x30FC, 0x30FC, CJ));
        } else if i == 43 { assert(p[43] == rec(0x30FC, 0x30FC, CJ)); assert(p[44] == rec(0x30FD, 0x30FE, NS));
        } else if i == 44 { assert(p[44] == rec(0x30FD, 0x30FE, NS)); assert(p[45] == rec(0x30FF, 0x30FF, ID));
        } else if i == 45 { assert(p[45] == rec(0x30FF, 0x30FF, ID)); assert(p[46] == rec(0x3105, 0x312F, ID));
        } else if i == 46 { assert(p[46] == rec(0x3105, 0x312F, ID)); assert(p[47] == rec(0x3131, 0x318E, ID));
        } else if i == 47 { assert(p[47] == rec(0x3131, 0x318E, ID)); assert(p[48] == rec(0x3190, 0x31E3, ID));
        } else if i == 48 { assert(p[48] == rec(0x3190, 0x31E3, ID)); assert(p[49] == rec(0x31F0, 0x31FF, CJ));
        } else if i == 49 { assert(p[49] == rec(0x31F0, 0x31FF, CJ));
        }
    }
    assert forall|i: int|
        #![trigger p[i], p[i + 1]]
        0 <= i && i + 1 < p.len() implies p[i].end < p[i + 1].start by {}
    assert(p[0] == rec(0x3046, 0x3046, ID));
    assert(p[49] == rec(0x31F0, 0x31FF, CJ));
}

/// The part's length, order and endpoints.
#[verifier::rlimit(100)]
#[verifier::spinoff_prover]
proof fn lemma_part23_sorted()
    ensures
        records_part23().len() == 50,
        records_sorted(records_part23()),
        records_part23()[0].start == 0x3200,
        records_part23()[49].end == 0xA8B3,
{
    let p = records_part23();
    assert forall|i: int|
        0 <= i < p.len() implies ((#[trigger] p[i]).start <= p[i].end && p[i].end <= 0x10FFFF && (
    i + 1 < p.len() ==> p[i].end < p[i + 1].start)) by {
        if i == 0 { assert(p[0] == rec(0x3200, 0x321E, ID)); assert(p[1] == rec(0x3220, 0x3247, ID));
        } else if i == 1 { assert(p[1] == rec(0x3220, 0x3247, ID)); assert(p[2] == rec(0x3248, 0x324F, AI));
        } else if i == 2 { assert(p[2] == rec(0x3248, 0x324F, AI)); assert(p[3] == rec(0x3250, 0x4DBF, ID));
        } else if i == 3 { assert(p[3] == rec(0x3250, 0x4DBF, ID)); assert(p[4] == rec(0x4DC0, 0x4DFF, AL));
        } else if i == 4 { assert(p[4] == rec(0x4DC0, 0x4DFF, AL)); assert(p[5] == rec(0x4E00, 0xA014, ID));
        } else if i == 5 { assert(p[5] == rec(0x4E00, 0xA014, ID)); assert(p[6] == rec(0xA015, 0xA015, NS));
        } else if i == 6 { assert(p[6] == rec(0xA015, 0xA015, NS)); assert(p[7] == rec(0xA016, 0xA48C, ID));
        } else if i == 7 { assert(p[7] == rec(0xA016, 0xA48C, ID)); assert(p[8] == rec(0xA490, 0xA4C6, ID));
        } else if i == 8 { assert(p[8] == rec(0xA490, 0xA4C6, ID)); assert(p[9] == rec(0xA4D0, 0xA4FD, AL));
        } else if i == 9 { assert(p[9] == rec(0xA4D0, 0xA4FD, AL)); assert(p[10] == rec(0xA4FE, 0xA4FF, BA));
        } else if i == 10 { assert(p[10] == rec(0xA4FE, 0xA4FF, BA)); assert(p[11] == rec(0xA500, 0xA60C, AL));
        } else if i == 11 { assert(p[11] == rec(0xA500, 0xA60C, AL)); assert(p[12] == rec(0xA60D, 0xA60D, BA));
        } else if i == 12 { assert(p[12] == rec(0xA60D, 0xA60D, BA)); assert(p[13] == rec(0xA60E, 0xA60E, EX));
        } else if i == 13 { assert(p[13] == rec(0xA60E, 0xA60E, EX)); assert(p[14] == rec(0xA60F, 0xA60F, BA));
        } else if i == 14 { assert(p[14] == rec(0xA60F, 0xA60F, BA)); assert(p[15] == rec(0xA610, 0xA61F, AL));
        } else if i == 15 { assert(p[15] == rec(0xA610, 0xA61F, AL)); assert(p[16] == rec(0xA620, 0xA629, NU));
        } else if i == 16 { assert(p[16] == rec(0xA620, 0xA629, NU)); assert(p[17] == rec(0xA62A, 0xA62B, AL));
        } else if i == 17 { assert(p[17] == rec(0xA62A, 0xA62B, AL)); assert(p[18] == rec(0xA640, 0xA66E, AL));
        } else if i == 18 { assert(p[18] == rec(0xA640, 0xA66E, AL)); assert(p[19] == rec(0xA66F, 0xA672, CM));
        } else if i == 19 { assert(p[19] == rec(0xA66F, 0xA672, CM)); assert(p[20] == rec(0xA673, 0xA673, AL));
        } else if i == 20 { assert(p[20] == rec(0xA673, 0xA673, AL)); assert(p[21] == rec(0xA674, 0xA67D, CM));
        } else if i == 21 { assert(p[21] == rec(0xA674, 0xA67D, CM)); assert(p[22] == rec(0xA67E, 0xA69D, AL));
        } else if i == 22 { assert(p[22] == rec(0xA67E, 0xA69D, AL)); assert(p[23] == rec(0xA69E, 0xA69F, CM));
        } else if i == 23 { assert(p[23] == rec(0xA69E, 0xA69F, CM)); assert(p[24] == rec(0xA6A0, 0xA6EF, AL));
        } else if i == 24 { assert(p[24] == rec(0xA6A0, 0xA6EF, AL)); assert(p[25] == rec(0xA6F0, 0xA6F1, CM));
        } else if i == 25 { assert(p[25] == rec(0xA6F0, 0xA6F1, CM)); assert(p[26] == rec(0xA6F2, 0xA6F2, AL));
        } else if i == 26 { assert(p[26] == rec(0xA6F2, 0xA6F2, AL)); assert(p[27] == rec(0xA6F3, 0xA6F7, BA));
        } else if i == 27 { assert(p[27] == rec(0xA6F3, 0xA6F7, BA)); assert(p[28] == rec(0xA700, 0xA7CA, AL));
        } else if i == 28 { assert(p[28] == rec(0xA700, 0xA7CA, AL)); assert(p[29] == rec(0xA7D0, 0xA7D1, AL));
        } else if i == 29 { assert(p[29] == rec(0xA7D0, 0xA7D1, AL)); assert(p[30] == rec(0xA7D3, 0xA7D3, AL));
        } else if i == 30 { assert(p[30] == rec(0xA7D3, 0xA7D3, AL)); assert(p[31] == rec(0xA7D5, 0xA7D9, AL));
        } else if i == 31 { assert(p[31] == rec(0xA7D5, 0xA7D9, AL)); assert(p[32] == rec(0xA7F2, 0xA801, AL));
        } else if i == 32 { assert(p[32] == rec(0xA7F2, 0xA801, AL)); assert(p[33] == rec(0xA802, 0xA802, CM));
        } else if i == 33 { assert(p[33] == rec(0xA802, 0xA802, CM)); assert(p[34] == rec(0xA803, 0xA805, AL));
        } else if i == 34 { assert(p[34] == rec(0xA803, 0xA805, AL)); assert(p[35] == rec(0xA806, 0xA806, CM));
        } else if i == 35 { assert(p[35] == rec(0xA806, 0xA806, CM)); assert(p[36] == rec(0xA807, 0xA80A, AL));
        } else if i == 36 { assert(p[36] == rec(0xA807, 0xA80A, AL)); assert(p[37] == rec(0xA80B, 0xA80B, CM));
        } else if i == 37 { assert(p[37] == rec(0xA80B, 0xA80B, CM)); assert(p[38] == rec(0xA80C, 0xA822, AL));
        } else if i == 38 { assert(p[38] == rec(0xA80C, 0xA822, AL)); assert(p[39] == rec(0xA823, 0xA827, CM));
        } else if i == 39 { assert(p[39] == rec(0xA823, 0xA827, CM)); assert(p[40] == rec(0xA828, 0xA82B, AL));
        } else if i == 40 { assert(p[40] == rec(0xA828, 0xA82B, AL)); assert(p[41] == rec(0xA82C, 0xA82C, CM));
        } else if i == 41 { assert(p[41] == rec(0xA82C, 0xA82C, CM)); assert(p[42] == rec(0xA830, 0xA837, AL));
        } else if i == 42 { assert(p[42] == rec(0xA830, 0xA837, AL)); assert(p[43] == rec(0xA838, 0xA838, PO));
        } else if i == 43 { assert(p[43] == rec(0xA838, 0xA838, PO)); assert(p[44] == rec(0xA839, 0xA839, AL));
        } else if i == 44 { assert(p[44] == rec(0xA839, 0xA839, AL)); assert(p[45] == rec(0xA840, 0xA873, AL));
        } else if i == 45 { assert(p[45] == rec(0xA840, 0xA873, AL)); assert(p[46] == rec(0xA874, 0xA875, BB));
        } else if i == 46 { assert(p[46] == rec(0xA874, 0xA875, BB)); assert(p[47] == rec(0xA876, 0xA877, EX));
        } else if i == 47 { assert(p[47] == rec(0xA876, 0xA877, EX)); assert(p[48] == rec(0xA880, 0xA881, CM));
        } else if i == 48 { assert(p[48] == rec(0xA880, 0xA881, CM)); assert(p[49] == rec(0xA882, 0xA8B3, AL));
        } else if i == 49 { assert(p[49] == rec(0xA882, 0xA8B3, AL));
        }
    }
    assert forall|i: int|
        #![trigger p[i], p[i + 1]]
        0 <= i && i + 1 < p.len() implies p[i].end < p[i + 1].start by {}
    assert(p[0] == rec(0x3200, 0x321E, ID));
    assert(p[49] == rec(0xA882, 0xA8B3, AL));
}

/// The part's length, order and endpoints.
#[verifier::rlimit(100)]
#[verifier::spinoff_prover]
proof fn lemma_part24_sorted()
    ensures
        records_part24().len() == 50,
        records_sorted(records_part24()),
        records_part24()[0].start == 0xA8B4,
        records_part24()[49].end == 0xAB6B,
{
    let p = records_part24();
    assert forall|i: int|
        0 <= i < p.len() implies ((#[trigger] p[i]).start <= p[i].end && p[i].end <= 0x10FFFF && (
    i + 1 < p.len() ==> p[i].end < p[i + 1].start)) by {
        if i == 0 { assert(p[0] == rec(0xA8B4, 0xA8C5, CM)); assert(p[1] == rec(0xA8CE, 0xA8CF, BA));
        } else if i == 1 { assert(p[1] == rec(0xA8CE, 0xA8CF, BA)); assert(p[2] == rec(0xA8D0, 0xA8D9, NU));
        } else if i == 2 { assert(p[2] == rec(0xA8D0, 0xA8D9, NU)); assert(p[3] == rec(0xA8E0, 0xA8F1, CM));
        } else if i == 3 { assert(p[3] == rec(0xA8E0, 0xA8F1, CM)); assert(p[4] == rec(0xA8F2, 0xA8FB, AL));
        } else if i == 4 { assert(p[4] == rec(0xA8F2, 0xA8FB, AL)); assert(p[5] == rec(0xA8FC, 0xA8FC, BB));
        } else if i == 5 { assert(p[5] == rec(0xA8FC, 0xA8FC, BB)); assert(p[6] == rec(0xA8FD, 0xA8FE, AL));
        } else if i == 6 { assert(p[6] == rec(0xA8FD, 0xA8FE, AL)); assert(p[7] == rec(0xA8FF, 0xA8FF, CM));
        } else if i == 7 { assert(p[7] == rec(0xA8FF, 0xA8FF, CM)); assert(p[8] == rec(0xA900, 0xA909, NU));
        } else if i == 8 { assert(p[8] == rec(0xA900, 0xA909, NU)); assert(p[9] == rec(0xA90A, 0xA925, AL));
        } else if i == 9 { assert(p[9] == rec(0xA90A, 0xA925, AL)); assert(p[10] == rec(0xA926, 0xA92D, CM));
        } else if i == 10 { assert(p[10] == rec(0xA926, 0xA92D, CM)); assert(p[11] == rec(0xA92E, 0xA92F, BA));
        } else if i == 11 { assert(p[11] == rec(0xA92E, 0xA92F, BA)); assert(p[12] == rec(0xA930, 0xA946, AL));
        } else if i == 12 { assert(p[12] == rec(0xA930, 0xA946, AL)); assert(p[13] == rec(0xA947, 0xA953, CM));
        } else if i == 13 { assert(p[13] == rec(0xA947, 0xA953, CM)); assert(p[14] == rec(0xA95F, 0xA95F, AL));
        } else if i == 14 { assert(p[14] == rec(0xA95F, 0xA95F, AL)); assert(p[15] == rec(0xA960, 0xA97C, JL));
        } else if i == 15 { assert(p[15] == rec(0xA960, 0xA97C, JL)); assert(p[16] == rec(0xA980, 0xA983, CM));
        } else if i == 16 { assert(p[16] == rec(0xA980, 0xA983, CM)); assert(p[17] == rec(0xA984, 0xA9B2, AL));
        } else if i == 17 { assert(p[17] == rec(0xA984, 0xA9B2, AL)); assert(p[18] == rec(0xA9B3, 0xA9C0, CM));
        } else if i == 18 { assert(p[18] == rec(0xA9B3, 0xA9C0, CM)); assert(p[19] == rec(0xA9C1, 0xA9C6, AL));
        } else if i == 19 { assert(p[19] == rec(0xA9C1, 0xA9C6, AL)); assert(p[20] == rec(0xA9C7, 0xA9C9, BA));
        } else if i == 20 { assert(p[20] == rec(0xA9C7, 0xA9C9, BA)); assert(p[21] == rec(0xA9CA, 0xA9CD, AL));
        } else if i == 21 { assert(p[21] == rec(0xA9CA, 0xA9CD, AL)); assert(p[22] == rec(0xA9CF, 0xA9CF, AL));
        } else if i == 22 { assert(p[22] == rec(0xA9CF, 0xA9CF, AL)); assert(p[23] == rec(0xA9D0, 0xA9D9, NU));
        } else if i == 23 { assert(p[23] == rec(0xA9D0, 0xA9D9, NU)); assert(p[24] == rec(0xA9DE, 0xA9DF, AL));
        } else if i == 24 { assert(p[24] == rec(0xA9DE, 0xA9DF, AL)); assert(p[25] == rec(0xA9E0, 0xA9EF, SA));
        } else if i == 25 { assert(p[25] == rec(0xA9E0, 0xA9EF, SA)); assert(p[26] == rec(0xA9F0, 0xA9F9, NU));
        } else if i == 26 { assert(p[26] == rec(0xA9F0, 0xA9F9, NU)); assert(p[27] == rec(0xA9FA, 0xA9FE, SA));
        } else if i == 27 { assert(p[27] == rec(0xA9FA, 0xA9FE, SA)); assert(p[28] == rec(0xAA00, 0xAA28, AL));
        } else if i == 28 { assert(p[28] == rec(0xAA00, 0xAA28, AL)); assert(p[29] == rec(0xAA29, 0xAA36, CM));
        } else if i == 29 { assert(p[29] == rec(0xAA29, 0xAA36, CM)); assert(p[30] == rec(0xAA40, 0xAA42, AL));
        } else if i == 30 { assert(p[30] == rec(0xAA40, 0xAA42, AL)); assert(p[31] == rec(0xAA43, 0xAA43, CM));
        } else if i == 31 { assert(p[31] == rec(0xAA43, 0xAA43, CM)); assert(p[32] == rec(0xAA44, 0xAA4B, AL));
        } else if i == 32 { assert(p[32] == rec(0xAA44, 0xAA4B, AL)); assert(p[33] == rec(0xAA4C, 0xAA4D, CM));
        } else if i == 33 { assert(p[33] == rec(0xAA4C, 0xAA4D, CM)); assert(p[34] == rec(0xAA50, 0xAA59, NU));
        } else if i == 34 { assert(p[34] == rec(0xAA50, 0xAA59, NU)); assert(p[35] == rec(0xAA5C, 0xAA5C, AL));
        } else if i == 35 { assert(p[35] == rec(0xAA5C, 0xAA5C, AL)); assert(p[36] == rec(0xAA5D, 0xAA5F, BA));
        } else if i == 36 { assert(p[36] == rec(0xAA5D, 0xAA5F, BA)); assert(p[37] == rec(0xAA60, 0xAAC2, SA));
        } else if i == 37 { assert(p[37] == rec(0xAA60, 0xAAC2, SA)); assert(p[38] == rec(0xAADB, 0xAADF, SA));
        } else if i == 38 { assert(p[38] == rec(0xAADB, 0xAADF, SA)); assert(p[39] == rec(0xAAE0, 0xAAEA, AL));
        } else if i == 39 { assert(p[39] == rec(0xAAE0, 0xAAEA, AL)); assert(p[40] == rec(0xAAEB, 0xAAEF, CM));
        } else if i == 40 { assert(p[40] == rec(0xAAEB, 0xAAEF, CM)); assert(p[41] == rec(0xAAF0, 0xAAF1, BA));
        } else if i == 41 { assert(p[41] == rec(0xAAF0, 0xAAF1, BA)); assert(p[42] == rec(0xAAF2, 0xAAF4, AL));
        } else if i == 42 { assert(p[42] == rec(0xAAF2, 0xAAF4, AL)); assert(p[43] == rec(0xAAF5, 0xAAF6, CM));
        } else if i == 43 { assert(p[43] == rec(0xAAF5, 0xAAF6, CM)); assert(p[44] == rec(0xAB01, 0xAB06, AL));
        } else if i == 44 { assert(p[44] == rec(0xAB01, 0xAB06, AL)); assert(p[45] == rec(0xAB09, 0xAB0E, AL));
        } else if i == 45 { assert(p[45] == rec(0xAB09, 0xAB0E, AL)); assert(p[46] == rec(0xAB11, 0xAB16, AL));
        } else if i == 46 { assert(p[46] == rec(0xAB11, 0xAB16, AL)); assert(p[47] == rec(0xAB20, 0xAB26, AL));
        } else if i == 47 { assert(p[47] == rec(0xAB20, 0xAB26, AL)); assert(p[48] == rec(0xAB28, 0xAB2E, AL));
        } else if i == 48 { assert(p[48] == rec(0xAB28, 0xAB2E, AL)); assert(p[49] == rec(0xAB30, 0xAB6B, AL));
        } else if i == 49 { assert(p[49] == rec(0xAB30, 0xAB6B, AL));
        }
    }
    assert forall|i: int|
        #![trigger p[i], p[i + 1]]
        0 <= i && i + 1 < p.len() implies p[i].end < p[i + 1].start by {}
    assert(p[0] == rec(0xA8B4, 0xA8C5, CM));
    assert(p[49] == rec(0xAB30, 0xAB6B, AL));
}

/// The part's length, order and endpoints.
#[verifier::rlimit(100)]
#[verifier::spinoff_prover]
proof fn lemma_part25_sorted()
    ensures
        records_part25().len() == 50,
        records_sorted(records_part25()),
        records_part25()[0].start == 0xAB70,
        records_part25()[49].end == 0xAE68,
{
    let p = records_part25();
    assert forall|i: int|
        0 <= i < p.len() implies ((#[trigger] p[i]).start <= p[i].end && p[i].end <= 0x10FFFF && (
    i + 1 < p.len() ==> p[i].end < p[i + 1].start)) by {
        if i == 0 { assert(p[0] == rec(0xAB70, 0xABE2, AL)); assert(p[1] == rec(0xABE3, 0xABEA, CM));
        } else if i == 1 { assert(p[1] == rec(0xABE3, 0xABEA, CM)); assert(p[2] == rec(0xABEB, 0xABEB, BA));
        } else if i == 2 { assert(p[2] == rec(0xABEB, 0xABEB, BA)); assert(p[3] == rec(0xABEC, 0xABED, CM));
        } else if i == 3 { assert(p[3] == rec(0xABEC, 0xABED, CM)); assert(p[4] == rec(0xABF0, 0xABF9, NU));
        } else if i == 4 { assert(p[4] == rec(0xABF0, 0xABF9, NU)); assert(p[5] == rec(0xAC00, 0xAC00, H2));
        } else if i == 5 { assert(p[5] == rec(0xAC00, 0xAC00, H2)); assert(p[6] == rec(0xAC01, 0xAC1B, H3));
        } else if i == 6 { assert(p[6] == rec(0xAC01, 0xAC1B, H3)); assert(p[7] == rec(0xAC1C, 0xAC1C, H2));
        } else if i == 7 { assert(p[7] == rec(0xAC1C, 0xAC1C, H2)); assert(p[8] == rec(0xAC1D, 0xAC37, H3));
        } else if i == 8 { assert(p[8] == rec(0xAC1D, 0xAC37, H3)); assert(p[9] == rec(0xAC38, 0xAC38, H2));
        } else if i == 9 { assert(p[9] == rec(0xAC38, 0xAC38, H2)); assert(p[10] == rec(0xAC39, 0xAC53, H3));
        } else if i == 10 { assert(p[10] == rec(0xAC39, 0xAC53, H3)); assert(p[11] == rec(0xAC54, 0xAC54, H2));
        } else if i == 11 { assert(p[11] == rec(0xAC54, 0xAC54, H2)); assert(p[12] == rec(0xAC55, 0xAC6F, H3));
        } else if i == 12 { assert(p[12] == rec(0xAC55, 0xAC6F, H3)); assert(p[13] == rec(0xAC70, 0xAC70, H2));
        } else if i == 13 { assert(p[13] == rec(0xAC70, 0xAC70, H2)); assert(p[14] == rec(0xAC71, 0xAC8B, H3));
        } else if i == 14 { assert(p[14] == rec(0xAC71, 0xAC8B, H3)); assert(p[15] == rec(0xAC8C, 0xAC8C, H2));
        } else if i == 15 { assert(p[15] == rec(0xAC8C, 0xAC8C, H2)); assert(p[16] == rec(0xAC8D, 0xACA7, H3));
        } else if i == 16 { assert(p[16] == rec(0xAC8D, 0xACA7, H3)); assert(p[17] == rec(0xACA8, 0xACA8, H2));
        } else if i == 17 { assert(p[17] == rec(0xACA8, 0xACA8, H2)); assert(p[18] == rec(0xACA9, 0xACC3, H3));
        } else if i == 18 { assert(p[18] == rec(0xACA9, 0xACC3, H3)); assert(p[19] == rec(0xACC4, 0xACC4, H2));
        } else if i == 19 { assert(p[19] == rec(0xACC4, 0xACC4, H2)); assert(p[20] == rec(0xACC5, 0xACDF, H3));
        } else if i == 20 { assert(p[20] == rec(0xACC5, 0xACDF, H3)); assert(p[21] == rec(0xACE0, 0xACE0, H2));
        } else if i == 21 { assert(p[21] == rec(0xACE0, 0xACE0, H2)); assert(p[22] == rec(0xACE1, 0xACFB, H3));
        } else if i == 22 { assert(p[22] == rec(0xACE1, 0xACFB, H3)); assert(p[23] == rec(0xACFC, 0xACFC, H2));
        } else if i == 23 { assert(p[23] == rec(0xACFC, 0xACFC, H2)); assert(p[24] == rec(0xACFD, 0xAD17, H3));
        } else if i == 24 { assert(p[24] == rec(0xACFD, 0xAD17, H3)); assert(p[25] == rec(0xAD18, 0xAD18, H2));
        } else if i == 25 { assert(p[25] == rec(0xAD18, 0xAD18, H2)); assert(p[26] == rec(0xAD19, 0xAD33, H3));
        } else if i == 26 { assert(p[26] == rec(0xAD19, 0xAD33, H3)); assert(p[27] == rec(0xAD34, 0xAD34, H2));
        } else if i == 27 { assert(p[27] == rec(0xAD34, 0xAD34, H2)); assert(p[28] == rec(0xAD35, 0xAD4F, H3));
        } else if i == 28 { assert(p[28] == rec(0xAD35, 0xAD4F, H3)); assert(p[29] == rec(0xAD50, 0xAD50, H2));
        } else if i == 29 { assert(p[29] == rec(0xAD50, 0xAD50, H2)); assert(p[30] == rec(0xAD51, 0xAD6B, H3));
        } else if i == 30 { assert(p[30] == rec(0xAD51, 0xAD6B, H3)); assert(p[31] == rec(0xAD6C, 0xAD6C, H2));
        } else if i == 31 { assert(p[31] == rec(0xAD6C, 0xAD6C, H2)); assert(p[32] == rec(0xAD6D, 0xAD87, H3));
        } else if i == 32 { assert(p[32] == rec(0xAD6D, 0xAD87, H3)); assert(p[33] == rec(0xAD88, 0xAD88, H2));
        } else if i == 33 { assert(p[33] == rec(0xAD88, 0xAD88, H2)); assert(p[34] == rec(0xAD89, 0xADA3, H3));
        } else if i == 34 { assert(p[34] == rec(0xAD89, 0xADA3, H3)); assert(p[35] == rec(0xADA4, 0xADA4, H2));
        } else if i == 35 { assert(p[35] == rec(0xADA4, 0xADA4, H2)); assert(p[36] == rec(0xADA5, 0xADBF, H3));
        } else if i == 36 { assert(p[36] == rec(0xADA5, 0xADBF, H3)); assert(p[37] == rec(0xADC0, 0xADC0, H2));
        } else if i == 37 { assert(p[37] == rec(0xADC0, 0xADC0, H2)); assert(p[38] == rec(0xADC1, 0xADDB, H3));
        } else if i == 38 { assert(p[38] == rec(0xADC1, 0xADDB, H3)); assert(p[39] == rec(0xADDC, 0xADDC, H2));
        } else if i == 39 { assert(p[39] == rec(0xADDC, 0xADDC, H2)); assert(p[40] == rec(0xADDD, 0xADF7, H3));
        } else if i == 40 { assert(p[40] == rec(0xADDD, 0xADF7, H3)); assert(p[41] == rec(0xADF8, 0xADF8, H2));
        } else if i == 41 { assert(p[41] == rec(0xADF8, 0xADF8, H2)); assert(p[42] == rec(0xADF9, 0xAE13, H3));
        } else if i == 42 { assert(p[42] == rec(0xADF9, 0xAE13, H3)); assert(p[43] == rec(0xAE14, 0xAE14, H2));
        } else if i == 43 { assert(p[43] == rec(0xAE14, 0xAE14, H2)); assert(p[44] == rec(0xAE15, 0xAE2F, H3));
        } else if i == 44 { assert(p[44] == rec(0xAE15, 0xAE2F, H3)); assert(p[45] == rec(0xAE30, 0xAE30, H2));
        } else if i == 45 { assert(p[45] == rec(0xAE30, 0xAE30, H2)); assert(p[46] == rec(0xAE31, 0xAE4B, H3));
        } else if i == 46 { assert(p[46] == rec(0xAE31, 0xAE4B, H3)); assert(p[47] == rec(0xAE4C, 0xAE4C, H2));
        } else if i == 47 { assert(p[47] == rec(0xAE4C, 0xAE4C, H2)); assert(p[48] == rec(0xAE4D, 0xAE67, H3));
        } else if i == 48 { assert(p[48] == rec(0xAE4D, 0xAE67, H3)); assert(p[49] == rec(0xAE68, 0xAE68, H2));
        } else if i == 49 { assert(p[49] == rec(0xAE68, 0xAE68, H2));
        }
    }
    assert forall|i: int|
        #![trigger p[i], p[i + 1]]
        0 <= i && i + 1 < p.len() implies p[i].end < p[i + 1].start by {}
    assert(p[0] == rec(0xAB70, 0xABE2, AL));
    assert(p[49] == rec(0xAE68, 0xAE68, H2));
}

/// The part's length, order and endpoints.
#[verifier::rlimit(100)]
#[verifier::spinoff_prover]
proof fn lemma_part26_sorted()
    ensures
        records_part26().len() == 50,
        records_sorted(records_part26()),
        records_part26()[0].start == 0xAE69,
        records_part26()[49].end == 0xB124,
{
    let p = records_part26();
    assert forall|i: int|
        0 <= i < p.len() implies ((#[trigger] p[i]).start <= p[i].end && p[i].end <= 0x10FFFF && (
    i + 1 < p.len() ==> p[i].end < p[i + 1].start)) by {
        if i == 0 { assert(p[0] == rec(0xAE69, 0xAE83, H3)); assert(p[1] == rec(0xAE84, 0xAE84, H2));
        } else if i == 1 { assert(p[1] == rec(0xAE84, 0xAE84, H2)); assert(p[2] == rec(0xAE85, 0xAE9F, H3));
        } else if i == 2 { assert(p[2] == rec(0xAE85, 0xAE9F, H3)); assert(p[3] == rec(0xAEA0, 0xAEA0, H2));
        } else if i == 3 { assert(p[3] == rec(0xAEA0, 0xAEA0, H2)); assert(p[4] == rec(0xAEA1, 0xAEBB, H3));
        } else if i == 4 { assert(p[4] == rec(0xAEA1, 0xAEBB, H3)); assert(p[5] == rec(0xAEBC, 0xAEBC, H2));
        } else if i == 5 { assert(p[5] == rec(0xAEBC, 0xAEBC, H2)); assert(p[6] == rec(0xAEBD, 0xAED7, H3));
        } else if i == 6 { assert(p[6] == rec(0xAEBD, 0xAED7, H3)); assert(p[7] == rec(0xAED8, 0xAED8, H2));
        } else if i == 7 { assert(p[7] == rec(0xAED8, 0xAED8, H2)); assert(p[8] == rec(0xAED9, 0xAEF3, H3));
        } else if i == 8 { assert(p[8] == rec(0xAED9, 0xAEF3, H3)); assert(p[9] == rec(0xAEF4, 0xAEF4, H2));
        } else if i == 9 { assert(p[9] == rec(0xAEF4, 0xAEF4, H2)); assert(p[10] == rec(0xAEF5, 0xAF0F, H3));
        } else if i == 10 { assert(p[10] == rec(0xAEF5, 0xAF0F, H3)); assert(p[11] == rec(0xAF10, 0xAF10, H2));
        } else if i == 11 { assert(p[11] == rec(0xAF10, 0xAF10, H2)); assert(p[12] == rec(0xAF11, 0xAF2B, H3));
        } else if i == 12 { assert(p[12] == rec(0xAF11, 0xAF2B, H3)); assert(p[13] == rec(0xAF2C, 0xAF2C, H2));
        } else if i == 13 { assert(p[13] == rec(0xAF2C, 0xAF2C, H2)); assert(p[14] == rec(0xAF2D, 0xAF47, H3));
        } else if i == 14 { assert(p[14] == rec(0xAF2D, 0xAF47, H3)); assert(p[15] == rec(0xAF48, 0xAF48, H2));
        } else if i == 15 { assert(p[15] == rec(0xAF48, 0xAF48, H2)); assert(p[16] == rec(0xAF49, 0xAF63, H3));
        } else if i == 16 { assert(p[16] == rec(0xAF49, 0xAF63, H3)); assert(p[17] == rec(0xAF64, 0xAF64, H2));
        } else if i == 17 { assert(p[17] == rec(0xAF64, 0xAF64, H2)); assert(p[18] == rec(0xAF65, 0xAF7F, H3));
        } else if i == 18 { assert(p[18] == rec(0xAF65, 0xAF7F, H3)); assert(p[19] == rec(0xAF80, 0xAF80, H2));
        } else if i == 19 { assert(p[19] == rec(0xAF80, 0xAF80, H2)); assert(p[20] == rec(0xAF81, 0xAF9B, H3));
        } else if i == 20 { assert(p[20] == rec(0xAF81, 0xAF9B, H3)); assert(p[21] == rec(0xAF9C, 0xAF9C, H2));
        } else if i == 21 { assert(p[21] == rec(0xAF9C, 0xAF9C, H2)); assert(p[22] == rec(0xAF9D, 0xAFB7, H3));
        } else if i == 22 { assert(p[22] == rec(0xAF9D, 0xAFB7, H3)); assert(p[23] == rec(0xAFB8, 0xAFB8, H2));
        } else if i == 23 { assert(p[23] == rec(0xAFB8, 0xAFB8, H2)); assert(p[24] == rec(0xAFB9, 0xAFD3, H3));
        } else if i == 24 { assert(p[24] == rec(0xAFB9, 0xAFD3, H3)); assert(p[25] == rec(0xAFD4, 0xAFD4, H2));
        } else if i == 25 { assert(p[25] == rec(0xAFD4, 0xAFD4, H2)); assert(p[26] == rec(0xAFD5, 0xAFEF, H3));
        } else if i == 26 { assert(p[26] == rec(0xAFD5, 0xAFEF, H3)); assert(p[27] == rec(0xAFF0, 0xAFF0, H2));
        } else if i == 27 { assert(p[27] == rec(0xAFF0, 0xAFF0, H2)); assert(p[28] == rec(0xAFF1, 0xB00B, H3));
        } else if i == 28 { assert(p[28] == rec(0xAFF1, 0xB00B, H3)); assert(p[29] == rec(0xB00C, 0xB00C, H2));
        } else if i == 29 { assert(p[29] == rec(0xB00C, 0xB00C, H2)); assert(p[30] == rec(0xB00D, 0xB027, H3));
        } else if i == 30 { assert(p[30] == rec(0xB00D, 0xB027, H3)); assert(p[31] == rec(0xB028, 0xB028, H2));
        } else if i == 31 { assert(p[31] == rec(0xB028, 0xB028, H2)); assert(p[32] == rec(0xB029, 0xB043, H3));
        } else if i == 32 { assert(p[32] == rec(0xB029, 0xB043, H3)); assert(p[33] == rec(0xB044, 0xB044, H2));
        } else if i == 33 { assert(p[33] == rec(0xB044, 0xB044, H2)); assert(p[34] == rec(0xB045, 0xB05F, H3));
        } else if i == 34 { assert(p[34] == rec(0xB045, 0xB05F, H3)); assert(p[35] == rec(0xB060, 0xB060, H2));
        } else if i == 35 { assert(p[35] == rec(0xB060, 0xB060, H2)); assert(p[36] == rec(0xB061, 0xB07B, H3));
        } else if i == 36 { assert(p[36] == rec(0xB061, 0xB07B, H3)); assert(p[37] == rec(0xB07C, 0xB07C, H2));
        } else if i == 37 { assert(p[37] == rec(0xB07C, 0xB07C, H2)); assert(p[38] == rec(0xB07D, 0xB097, H3));
        } else if i == 38 { assert(p[38] == rec(0xB07D, 0xB097, H3)); assert(p[39] == rec(0xB098, 0xB098, H2));
        } else if i == 39 { assert(p[39] == rec(0xB098, 0xB098, H2)); assert(p[40] == rec(0xB099, 0xB0B3, H3));
        } else if i == 40 { assert(p[40] == rec(0xB099, 0xB0B3, H3)); assert(p[41] == rec(0xB0B4, 0xB0B4, H2));
        } else if i == 41 { assert(p[41] == rec(0xB0B4, 0xB0B4, H2)); assert(p[42] == rec(0xB0B5, 0xB0CF, H3));
        } else if i == 42 { assert(p[42] == rec(0xB0B5, 0xB0CF, H3)); assert(p[43] == rec(0xB0D0, 0xB0D0, H2));
        } else if i == 43 { assert(p[43] == rec(0xB0D0, 0xB0D0, H2)); assert(p[44] == rec(0xB0D1, 0xB0EB, H3));
        } else if i == 44 { assert(p[44] == rec(0xB0D1, 0xB0EB, H3)); assert(p[45] == rec(0xB0EC, 0xB0EC, H2));
        } else if i == 45 { assert(p[45] == rec(0xB0EC, 0xB0EC, H2)); assert(p[46] == rec(0xB0ED, 0xB107, H3));
        } else if i == 46 { assert(p[46] == rec(0xB0ED, 0xB107, H3)); assert(p[47] == rec(0xB108, 0xB108, H2));
        } else if i == 47 { assert(p[47] == rec(0xB108, 0xB108, H2)); assert(p[48] == rec(0xB109, 0xB123, H3));
        } else if i == 48 { assert(p[48] == rec(0xB109, 0xB123, H3)); assert(p[49] == rec(0xB124, 0xB124, H2));
        } else if i == 49 { assert(p[49] == rec(0xB124, 0xB124, H2));
        }
    }
    assert forall|i: int|
        #![trigger p[i], p[i + 1]]
        0 <= i && i + 1 < p.len() implies p[i].end < p[i + 1].start by {}
    assert(p[0] == rec(0xAE69, 0xAE83, H3));
    assert(p[49] == rec(0xB124, 0xB124, H2));
}

/// The part's length, order and endpoints.
#[verifier::rlimit(100)]
#[verifier::spinoff_prover]
proof fn lemma_part27_sorted()
    ensures
        records_part27().len() == 50,
        records_sorted(records_part27()),
        records_part27()[0].start == 0xB125,
        records_part27()[49].end == 0xB3E0,
{
    let p = records_part27();
    assert forall|i: int|
        0 <= i < p.len() implies ((#[trigger] p[i]).start <= p[i].end && p[i].end <= 0x10FFFF && (
    i + 1 < p.len() ==> p[i].end < p[i + 1].start)) by {
        if i == 0 { assert(p[0] == rec(0xB125, 0xB13F, H3)); assert(p[1] == rec(0xB140, 0xB140, H2));
        } else if i == 1 { assert(p[1] == rec(0xB140, 0xB140, H2)); assert(p[2] == rec(0xB141, 0xB15B, H3));
        } else if i == 2 { assert(p[2] == rec(0xB141, 0xB15B, H3)); assert(p[3] == rec(0xB15C, 0xB15C, H2));
        } else if i == 3 { assert(p[3] == rec(0xB15C, 0xB15C, H2)); assert(p[4] == rec(0xB15D, 0xB177, H3));
        } else if i == 4 { assert(p[4] == rec(0xB15D, 0xB177, H3)); assert(p[5] == rec(0xB178, 0xB178, H2));
        } else if i == 5 { assert(p[5] == rec(0xB178, 0xB178, H2)); assert(p[6] == rec(0xB179, 0xB193, H3));
        } else if i == 6 { assert(p[6] == rec(0xB179, 0xB193, H3)); assert(p[7] == rec(0xB194, 0xB194, H2));
        } else if i == 7 { assert(p[7] == rec(0xB194, 0xB194, H2)); assert(p[8] == rec(0xB195, 0xB1AF, H3));
        } else if i == 8 { assert(p[8] == rec(0xB195, 0xB1AF, H3)); assert(p[9] == rec(0xB1B0, 0xB1B0, H2));
        } else if i == 9 { assert(p[9] == rec(0xB1B0, 0xB1B0, H2)); assert(p[10] == rec(0xB1B1, 0xB1CB, H3));
        } else if i == 10 { assert(p[10] == rec(0xB1B1, 0xB1CB, H3)); assert(p[11] == rec(0xB1CC, 0xB1CC, H2));
        } else if i == 11 { assert(p[11] == rec(0xB1CC, 0xB1CC, H2)); assert(p[12] == rec(0xB1CD, 0xB1E7, H3));
        } else if i == 12 { assert(p[12] == rec(0xB1CD, 0xB1E7, H3)); assert(p[13] == rec(0xB1E8, 0xB1E8, H2));
        } else if i == 13 { assert(p[13] == rec(0xB1E8, 0xB1E8, H2)); assert(p[14] == rec(0xB1E9, 0xB203, H3));
        } else if i == 14 { assert(p[14] == rec(0xB1E9, 0xB203, H3)); assert(p[15] == rec(0xB204, 0xB204, H2));
        } else if i == 15 { assert(p[15] == rec(0xB204, 0xB204, H2)); assert(p[16] == rec(0xB205, 0xB21F, H3));
        } else if i == 16 { assert(p[16] == rec(0xB205, 0xB21F, H3)); assert(p[17] == rec(0xB220, 0xB220, H2));
        } else if i == 17 { assert(p[17] == rec(0xB220, 0xB220, H2)); assert(p[18] == rec(0xB221, 0xB23B, H3));
        } else if i == 18 { assert(p[18] == rec(0xB221, 0xB23B, H3)); assert(p[19] == rec(0xB23C, 0xB23C, H2));
        } else if i == 19 { assert(p[19] == rec(0xB23C, 0xB23C, H2)); assert(p[20] == rec(0xB23D, 0xB257, H3));
        } else if i == 20 { assert(p[20] == rec(0xB23D, 0xB257, H3)); assert(p[21] == rec(0xB258, 0xB258, H2));
        } else if i == 21 { assert(p[21] == rec(0xB258, 0xB258, H2)); assert(p[22] == rec(0xB259, 0xB273, H3));
        } else if i == 22 { assert(p[22] == rec(0xB259, 0xB273, H3)); assert(p[23] == rec(0xB274, 0xB274, H2));
        } else if i == 23 { assert(p[23] == rec(0xB274, 0xB274, H2)); assert(p[24] == rec(0xB275, 0xB28F, H3));
        } else if i == 24 { assert(p[24] == rec(0xB275, 0xB28F, H3)); assert(p[25] == rec(0xB290, 0xB290, H2));
        } else if i == 25 { assert(p[25] == rec(0xB290, 0xB290, H2)); assert(p[26] == rec(0xB291, 0xB2AB, H3));
        } else if i == 26 { assert(p[26] == rec(0xB291, 0xB2AB, H3)); assert(p[27] == rec(0xB2AC, 0xB2AC, H2));
        } else if i == 27 { assert(p[27] == rec(0xB2AC, 0xB2AC, H2)); assert(p[28] == rec(0xB2AD, 0xB2C7, H3));
        } else if i == 28 { assert(p[28] == rec(0xB2AD, 0xB2C7, H3)); assert(p[29] == rec(0xB2C8, 0xB2C8, H2));
        } else if i == 29 { assert(p[29] == rec(0xB2C8, 0xB2C8, H2)); assert(p[30] == rec(0xB2C9, 0xB2E3, H3));
        } else if i == 30 { assert(p[30] == rec(0xB2C9, 0xB2E3, H3)); assert(p[31] == rec(0xB2E4, 0xB2E4, H2));
        } else if i == 31 { assert(p[31] == rec(0xB2E4, 0xB2E4, H2)); assert(p[32] == rec(0xB2E5, 0xB2FF, H3));
        } else if i == 32 { assert(p[32] == rec(0xB2E5, 0xB2FF, H3)); assert(p[33] == rec(0xB300, 0xB300, H2));
        } else if i == 33 { assert(p[33] == rec(0xB300, 0xB300, H2)); assert(p[34] == rec(0xB301, 0xB31B, H3));
        } else if i == 34 { assert(p[34] == rec(0xB301, 0xB31B, H3)); assert(p[35] == rec(0xB31C, 0xB31C, H2));
        } else if i == 35 { assert(p[35] == rec(0xB31C, 0xB31C, H2)); assert(p[36] == rec(0xB31D, 0xB337, H3));
        } else if i == 36 { assert(p[36] == rec(0xB31D, 0xB337, H3)); assert(p[37] == rec(0xB338, 0xB338, H2));
        } else if i == 37 { assert(p[37] == rec(0xB338, 0xB338, H2)); assert(p[38] == rec(0xB339, 0xB353, H3));
        } else if i == 38 { assert(p[38] == rec(0xB339, 0xB353, H3)); assert(p[39] == rec(0xB354, 0xB354, H2));
        } else if i == 39 { assert(p[39] == rec(0xB354, 0xB354, H2)); assert(p[40] == rec(0xB355, 0xB36F, H3));
        } else if i == 40 { assert(p[40] == rec(0xB355, 0xB36F, H3)); assert(p[41] == rec(0xB370, 0xB370, H2));
        } else if i == 41 { assert(p[41] == rec(0xB370, 0xB370, H2)); assert(p[42] == rec(0xB371, 0xB38B, H3));
        } else if i == 42 { assert(p[42] == rec(0xB371, 0xB38B, H3)); assert(p[43] == rec(0xB38C, 0xB38C, H2));
        } else if i == 43 { assert(p[43] == rec(0xB38C, 0xB38C, H2)); assert(p[44] == rec(0xB38D, 0xB3A7, H3));
        } else if i == 44 { assert(p[44] == rec(0xB38D, 0xB3A7, H3)); assert(p[45] == rec(0xB3A8, 0xB3A8, H2));
        } else if i == 45 { assert(p[45] == rec(0xB3A8, 0xB3A8, H2)); assert(p[46] == rec(0xB3A9, 0xB3C3, H3));
        } else if i == 46 { assert(p[46] == rec(0xB3A9, 0xB3C3, H3)); assert(p[47] == rec(0xB3C4, 0xB3C4, H2));
        } else if i == 47 { assert(p[47] == rec(0xB3C4, 0xB3C4, H2)); assert(p[48] == rec(0xB3C5, 0xB3DF, H3));
        } else if i == 48 { assert(p[48] == rec(0xB3C5, 0xB3DF, H3)); assert(p[49] == rec(0xB3E0, 0xB3E0, H2));
        } else if i == 49 { assert(p[49] == rec(0xB3E0, 0xB3E0, H2));
        }
    }
    assert forall|i: int|
        #![trigger p[i], p[i + 1]]
        0 <= i && i + 1 < p.len() implies p[i].end < p[i + 1].start by {}
    assert(p[0] == rec(0xB125, 0xB13F, H3));
    assert(p[49] == rec(0xB3E0, 0xB3E0, H2));
}

/// The part's length, order and endpoints.
#[verifier::rlimit(100)]
#[verifier::spinoff_prover]
proof fn lemma_part28_sorted()
    ensures
        records_part28().len() == 50,
        records_sorted(records_part28()),
        records_part28()[0].start == 0xB3E1,
        records_part28()[49].end == 0xB69C,
{
    let p = records_part28();
    assert forall|i: int|
        0 <= i < p.len() implies ((#[trigger] p[i]).start <= p[i].end && p[i].end <= 0x10FFFF && (
    i + 1 < p.len() ==> p[i].end < p[i + 1].start)) by {
        if i == 0 { assert(p[0] == rec(0xB3E1, 0xB3FB, H3)); assert(p[1] == rec(0xB3FC, 0xB3FC, H2));
        } else if i == 1 { assert(p[1] == rec(0xB3FC, 0xB3FC, H2)); assert(p[2] == rec(0xB3FD, 0xB417, H3));
        } else if i == 2 { assert(p[2] == rec(0xB3FD, 0xB417, H3)); assert(p[3] == rec(0xB418, 0xB418, H2));
        } else if i == 3 { assert(p[3] == rec(0xB418, 0xB418, H2)); assert(p[4] == rec(0xB419, 0xB433, H3));
        } else if i == 4 { assert(p[4] == rec(0xB419, 0xB433, H3)); assert(p[5] == rec(0xB434, 0xB434, H2));
        } else if i == 5 { assert(p[5] == rec(0xB434, 0xB434, H2)); assert(p[6] == rec(0xB435, 0xB44F, H3));
        } else if i == 6 { assert(p[6] == rec(0xB435, 0xB44F, H3)); assert(p[7] == rec(0xB450, 0xB450, H2));
        } else if i == 7 { assert(p[7] == rec(0xB450, 0xB450, H2)); assert(p[8] == rec(0xB451, 0xB46B, H3));
        } else if i == 8 { assert(p[8] == rec(0xB451, 0xB46B, H3)); assert(p[9] == rec(0xB46C, 0xB46C, H2));
        } else if i == 9 { assert(p[9] == rec(0xB46C, 0xB46C, H2)); assert(p[10] == rec(0xB46D, 0xB487, H3));
        } else if i == 10 { assert(p[10] == rec(0xB46D, 0xB487, H3)); assert(p[11] == rec(0xB488, 0xB488, H2));
        } else if i == 11 { assert(p[11] == rec(0xB488, 0xB488, H2)); assert(p[12] == rec(0xB489, 0xB4A3, H3));
        } else if i == 12 { assert(p[12] == rec(0xB489, 0xB4A3, H3)); assert(p[13] == rec(0xB4A4, 0xB4A4, H2));
        } else if i == 13 { assert(p[13] == rec(0xB4A4, 0xB4A4, H2)); assert(p[14] == rec(0xB4A5, 0xB4BF, H3));
        } else if i == 14 { assert(p[14] == rec(0xB4A5, 0xB4BF, H3)); assert(p[15] == rec(0xB4C0, 0xB4C0, H2));
        } else if i == 15 { assert(p[15] == rec(0xB4C0, 0xB4C0, H2)); assert(p[16] == rec(0xB4C1, 0xB4DB, H3));
        } else if i == 16 { assert(p[16] == rec(0xB4C1, 0xB4DB, H3)); assert(p[17] == rec(0xB4DC, 0xB4DC, H2));
        } else if i == 17 { assert(p[17] == rec(0xB4DC, 0xB4DC, H2)); assert(p[18] == rec(0xB4DD, 0xB4F7, H3));
        } else if i == 18 { assert(p[18] == rec(0xB4DD, 0xB4F7, H3)); assert(p[19] == rec(0xB4F8, 0xB4F8, H2));
        } else if i == 19 { assert(p[19] == rec(0xB4F8, 0xB4F8, H2)); assert(p[20] == rec(0xB4F9, 0xB513, H3));
        } else if i == 20 { assert(p[20] == rec(0xB4F9, 0xB513, H3)); assert(p[21] == rec(0xB514, 0xB514, H2));
        } else if i == 21 { assert(p[21] == rec(0xB514, 0xB514, H2)); assert(p[22] == rec(0xB515, 0xB52F, H3));
        } else if i == 22 { assert(p[22] == rec(0xB515, 0xB52F, H3)); assert(p[23] == rec(0xB530, 0xB530, H2));
        } else if i == 23 { assert(p[23] == rec(0xB530, 0xB530, H2)); assert(p[24] == rec(0xB531, 0xB54B, H3));
        } else if i == 24 { assert(p[24] == rec(0xB531, 0xB54B, H3)); assert(p[25] == rec(0xB54C, 0xB54C, H2));
        } else if i == 25 { assert(p[25] == rec(0xB54C, 0xB54C, H2)); assert(p[26] == rec(0xB54D, 0xB567, H3));
        } else if i == 26 { assert(p[26] == rec(0xB54D, 0xB567, H3)); assert(p[27] == rec(0xB568, 0xB568, H2));
        } else if i == 27 { assert(p[27] == rec(0xB568, 0xB568, H2)); assert(p[28] == rec(0xB569, 0xB583, H3));
        } else if i == 28 { assert(p[28] == rec(0xB569, 0xB583, H3)); assert(p[29] == rec(0xB584, 0xB584, H2));
        } else if i == 29 { assert(p[29] == rec(0xB584, 0xB584, H2)); assert(p[30] == rec(0xB585, 0xB59F, H3));
        } else if i == 30 { assert(p[30] == rec(0xB585, 0xB59F, H3)); assert(p[31] == rec(0xB5A0, 0xB5A0, H2));
        } else if i == 31 { assert(p[31] == rec(0xB5A0, 0xB5A0, H2)); assert(p[32] == rec(0xB5A1, 0xB5BB, H3));
        } else if i == 32 { assert(p[32] == rec(0xB5A1, 0xB5BB, H3)); assert(p[33] == rec(0xB5BC, 0xB5BC, H2));
        } else if i == 33 { assert(p[33] == rec(0xB5BC, 0xB5BC, H2)); assert(p[34] == rec(0xB5BD, 0xB5D7, H3));
        } else if i == 34 { assert(p[34] == rec(0xB5BD, 0xB5D7, H3)); assert(p[35] == rec(0xB5D8, 0xB5D8, H2));
        } else if i == 35 { assert(p[35] == rec(0xB5D8, 0xB5D8, H2)); assert(p[36] == rec(0xB5D9, 0xB5F3, H3));
        } else if i == 36 { assert(p[36] == rec(0xB5D9, 0xB5F3, H3)); assert(p[37] == rec(0xB5F4, 0xB5F4, H2));
        } else if i == 37 { assert(p[37] == rec(0xB5F4, 0xB5F4, H2)); assert(p[38] == rec(0xB5F5, 0xB60F, H3));
        } else if i == 38 { assert(p[38] == rec(0xB5F5, 0xB60F, H3)); assert(p[39] == rec(0xB610, 0xB610, H2));
        } else if i == 39 { assert(p[39] == rec(0xB610, 0xB610, H2)); assert(p[40] == rec(0xB611, 0xB62B, H3));
        } else if i == 40 { assert(p[40] == rec(0xB611, 0xB62B, H3)); assert(p[41] == rec(0xB62C, 0xB62C, H2));
        } else if i == 41 { assert(p[41] == rec(0xB62C, 0xB62C, H2)); assert(p[42] == rec(0xB62D, 0xB647, H3));
        } else if i == 42 { assert(p[42] == rec(0xB62D, 0xB647, H3)); assert(p[43] == rec(0xB648, 0xB648, H2));
        } else if i == 43 { assert(p[43] == rec(0xB648, 0xB648, H2)); assert(p[44] == rec(0xB649, 0xB663, H3));
        } else if i == 44 { assert(p[44] == rec(0xB649, 0xB663, H3)); assert(p[45] == rec(0xB664, 0xB664, H2));
        } else if i == 45 { assert(p[45] == rec(0xB664, 0xB664, H2)); assert(p[46] == rec(0xB665, 0xB67F, H3));
        } else if i == 46 { assert(p[46] == rec(0xB665, 0xB67F, H3)); assert(p[47] == rec(0xB680, 0xB680, H2));
        } else if i == 47 { assert(p[47] == rec(0xB680, 0xB680, H2)); assert(p[48] == rec(0xB681, 0xB69B, H3));
        } else if i == 48 { assert(p[48] == rec(0xB681, 0xB69B, H3)); assert(p[49] == rec(0xB69C, 0xB69C, H2));
        } else if i == 49 { assert(p[49] == rec(0xB69C, 0xB69C, H2));
        }
    }
    assert forall|i: int|
        #![trigger p[i], p[i + 1]]
        0 <= i && i + 1 < p.len() implies p[i].end < p[i + 1].start by {}
    assert(p[0] == rec(0xB3E1, 0xB3FB, H3));
    assert(p[49] == rec(0xB69C, 0xB69C, H2));
}

/// The part's length, order and endpoints.
#[verifier::rlimit(100)]
#[verifier::spinoff_prover]
proof fn lemma_part29_sorted()
    ensures
        records_part29().len() == 50,
        records_sorted(records_part29()),
        records_part29()[0].start == 0xB69D,
        records_part29()[49].end == 0xB958,
{
    let p = records_part29();
    assert forall|i: int|
        0 <= i < p.len() implies ((#[trigger] p[i]).start <= p[i].end && p[i].end <= 0x10FFFF && (
    i + 1 < p.len() ==> p[i].end < p[i + 1].start)) by {
        if i == 0 { assert(p[0] == rec(0xB69D, 0xB6B7, H3)); assert(p[1] == rec(0xB6B8, 0xB6B8, H2));
        } else if i == 1 { assert(p[1] == rec(0xB6B8, 0xB6B8, H2)); assert(p[2] == rec(0xB6B9, 0xB6D3, H3));
        } else if i == 2 { assert(p[2] == rec(0xB6B9, 0xB6D3, H3)); assert(p[3] == rec(0xB6D4, 0xB6D4, H2));
        } else if i == 3 { assert(p[3] == rec(0xB6D4, 0xB6D4, H2)); assert(p[4] == rec(0xB6D5, 0xB6EF, H3));
        } else if i == 4 { assert(p[4] == rec(0xB6D5, 0xB6EF, H3)); assert(p[5] == rec(0xB6F0, 0xB6F0, H2));
        } else if i == 5 { assert(p[5] == rec(0xB6F0, 0xB6F0, H2)); assert(p[6] == rec(0xB6F1, 0xB70B, H3));
        } else if i == 6 { assert(p[6] == rec(0xB6F1, 0xB70B, H3)); assert(p[7] == rec(0xB70C, 0xB70C, H2));
        } else if i == 7 { assert(p[7] == rec(0xB70C, 0xB70C, H2)); assert(p[8] == rec(0xB70D, 0xB727, H3));
        } else if i == 8 { assert(p[8] == rec(0xB70D, 0xB727, H3)); assert(p[9] == rec(0xB728, 0xB728, H2));
        } else if i == 9 { assert(p[9] == rec(0xB728, 0xB728, H2)); assert(p[10] == rec(0xB729, 0xB743, H3));
        } else if i == 10 { assert(p[10] == rec(0xB729, 0xB743, H3)); assert(p[11] == rec(0xB744, 0xB744, H2));
        } else if i == 11 { assert(p[11] == rec(0xB744, 0xB744, H2)); assert(p[12] == rec(0xB745, 0xB75F, H3));
        } else if i == 12 { assert(p[12] == rec(0xB745, 0xB75F, H3)); assert(p[13] == rec(0xB760, 0xB760, H2));
        } else if i == 13 { assert(p[13] == rec(0xB760, 0xB760, H2)); assert(p[14] == rec(0xB761, 0xB77B, H3));
        } else if i == 14 { assert(p[14] == rec(0xB761, 0xB77B, H3)); assert(p[15] == rec(0xB77C, 0xB77C, H2));
        } else if i == 15 { assert(p[15] == rec(0xB77C, 0xB77C, H2)); assert(p[16] == rec(0xB77D, 0xB797, H3));
        } else if i == 16 { assert(p[16] == rec(0xB77D, 0xB797, H3)); assert(p[17] == rec(0xB798, 0xB798, H2));
        } else if i == 17 { assert(p[17] == rec(0xB798, 0xB798, H2)); assert(p[18] == rec(0xB799, 0xB7B3, H3));
        } else if i == 18 { assert(p[18] == rec(0xB799, 0xB7B3, H3)); assert(p[19] == rec(0xB7B4, 0xB7B4, H2));
        } else if i == 19 { assert(p[19] == rec(0xB7B4, 0xB7B4, H2)); assert(p[20] == rec(0xB7B5, 0xB7CF, H3));
        } else if i == 20 { assert(p[20] == rec(0xB7B5, 0xB7CF, H3)); assert(p[21] == rec(0xB7D0, 0xB7D0, H2));
        } else if i == 21 { assert(p[21] == rec(0xB7D0, 0xB7D0, H2)); assert(p[22] == rec(0xB7D1, 0xB7EB, H3));
        } else if i == 22 { assert(p[22] == rec(0xB7D1, 0xB7EB, H3)); assert(p[23] == rec(0xB7EC, 0xB7EC, H2));
        } else if i == 23 { assert(p[23] == rec(0xB7EC, 0xB7EC, H2)); assert(p[24] == rec(0xB7ED, 0xB807, H3));
        } else if i == 24 { assert(p[24] == rec(0xB7ED, 0xB807, H3)); assert(p[25] == rec(0xB808, 0xB808, H2));
        } else if i == 25 { assert(p[25] == rec(0xB808, 0xB808, H2)); assert(p[26] == rec(0xB809, 0xB823, H3));
        } else if i == 26 { assert(p[26] == rec(0xB809, 0xB823, H3)); assert(p[27] == rec(0xB824, 0xB824, H2));
        } else if i == 27 { assert(p[27] == rec(0xB824, 0xB824, H2)); assert(p[28] == rec(0xB825, 0xB83F, H3));
        } else if i == 28 { assert(p[28] == rec(0xB825, 0xB83F, H3)); assert(p[29] == rec(0xB840, 0xB840, H2));
        } else if i == 29 { assert(p[29] == rec(0xB840, 0xB840, H2)); assert(p[30] == rec(0xB841, 0xB85B, H3));
        } else if i == 30 { assert(p[30] == rec(0xB841, 0xB85B, H3)); assert(p[31] == rec(0xB85C, 0xB85C, H2));
        } else if i == 31 { assert(p[31] == rec(0xB85C, 0xB85C, H2)); assert(p[32] == rec(0xB85D, 0xB877, H3));
        } else if i == 32 { assert(p[32] == rec(0xB85D, 0xB877, H3)); assert(p[33] == rec(0xB878, 0xB878, H2));
        } else if i == 33 { assert(p[33] == rec(0xB878, 0xB878, H2)); assert(p[34] == rec(0xB879, 0xB893, H3));
        } else if i == 34 { assert(p[34] == rec(0xB879, 0xB893, H3)); assert(p[35] == rec(0xB894, 0xB894, H2));
        } else if i == 35 { assert(p[35] == rec(0xB894, 0xB894, H2)); assert(p[36] == rec(0xB895, 0xB8AF, H3));
        } else if i == 36 { assert(p[36] == rec(0xB895, 0xB8AF, H3)); assert(p[37] == rec(0xB8B0, 0xB8B0, H2));
        } else if i == 37 { assert(p[37] == rec(0xB8B0, 0xB8B0, H2)); assert(p[38] == rec(0xB8B1, 0xB8CB, H3));
        } else if i == 38 { assert(p[38] == rec(0xB8B1, 0xB8CB, H3)); assert(p[39] == rec(0xB8CC, 0xB8CC, H2));
        } else if i == 39 { assert(p[39] == rec(0xB8CC, 0xB8CC, H2)); assert(p[40] == rec(0xB8CD, 0xB8E7, H3));
        } else if i == 40 { assert(p[40] == rec(0xB8CD, 0xB8E7, H3)); assert(p[41] == rec(0xB8E8, 0xB8E8, H2));
        } else if i == 41 { assert(p[41] == rec(0xB8E8, 0xB8E8, H2)); assert(p[42] == rec(0xB8E9, 0xB903, H3));
        } else if i == 42 { assert(p[42] == rec(0xB8E9, 0xB903, H3)); assert(p[43] == rec(0xB904, 0xB904, H2));
        } else if i == 43 { assert(p[43] == rec(0xB904, 0xB904, H2)); assert(p[44] == rec(0xB905, 0xB91F, H3));
        } else if i == 44 { assert(p[44] == rec(0xB905, 0xB91F, H3)); assert(p[45] == rec(0xB920, 0xB920, H2));
        } else if i == 45 { assert(p[45] == rec(0xB920, 0xB920, H2)); assert(p[46] == rec(0xB921, 0xB93B, H3));
        } else if i == 46 { assert(p[46] == rec(0xB921, 0xB93B, H3)); assert(p[47] == rec(0xB93C, 0xB93C, H2));
        } else if i == 47 { assert(p[47] == rec(0xB93C, 0xB93C, H2)); assert(p[48] == rec(0xB93D, 0xB957, H3));
        } else if i == 48 { assert(p[48] == rec(0xB93D, 0xB957, H3)); assert(p[49] == rec(0xB958, 0xB958, H2));
        } else if i == 49 { assert(p[49] == rec(0xB958, 0xB958, H2));
        }
    }
    assert forall|i: int|
        #![trigger p[i], p[i + 1]]
        0 <= i && i + 1 < p.len() implies p[i].end < p[i + 1].start by {}
    assert(p[0] == rec(0xB69D, 0xB6B7, H3));
    assert(p[49] == rec(0xB958, 0xB958, H2));
}

/// The part's length, order and endpoints.
#[verifier::rlimit(100)]
#[verifier::spinoff_prover]
proof fn lemma_part30_sorted()
    ensures
        records_part30().len() == 50,
        records_sorted(records_part30()),
        records_part30()[0].start == 0xB959,
        records_part30()[49].end == 0xBC14,
{
    let p = records_part30();
    assert forall|i: int|
        0 <= i < p.len() implies ((#[trigger] p[i]).start <= p[i].end && p[i].end <= 0x10FFFF && (
    i + 1 < p.len() ==> p[i].end < p[i + 1].start)) by {
        if i == 0 { assert(p[0] == rec(0xB959, 0xB973, H3)); assert(p[1] == rec(0xB974, 0xB974, H2));
        } else if i == 1 { assert(p[1] == rec(0xB974, 0xB974, H2)); assert(p[2] == rec(0xB975, 0xB98F, H3));
        } else if i == 2 { assert(p[2] == rec(0xB975, 0xB98F, H3)); assert(p[3] == rec(0xB990, 0xB990, H2));
        } else if i == 3 { assert(p[3] == rec(0xB990, 0xB990, H2)); assert(p[4] == rec(0xB991, 0xB9AB, H3));
        } else if i == 4 { assert(p[4] == rec(0xB991, 0xB9AB, H3)); assert(p[5] == rec(0xB9AC, 0xB9AC, H2));
        } else if i == 5 { assert(p[5] == rec(0xB9AC, 0xB9AC, H2)); assert(p[6] == rec(0xB9AD, 0xB9C7, H3));
        } else if i == 6 { assert(p[6] == rec(0xB9AD, 0xB9C7, H3)); assert(p[7] == rec(0xB9C8, 0xB9C8, H2));
        } else if i == 7 { assert(p[7] == rec(0xB9C8, 0xB9C8, H2)); assert(p[8] == rec(0xB9C9, 0xB9E3, H3));
        } else if i == 8 { assert(p[8] == rec(0xB9C9, 0xB9E3, H3)); assert(p[9] == rec(0xB9E4, 0xB9E4, H2));
        } else if i == 9 { assert(p[9] == rec(0xB9E4, 0xB9E4, H2)); assert(p[10] == rec(0xB9E5, 0xB9FF, H3));
        } else if i == 10 { assert(p[10] == rec(0xB9E5, 0xB9FF, H3)); assert(p[11] == rec(0xBA00, 0xBA00, H2));
        } else if i == 11 { assert(p[11] == rec(0xBA00, 0xBA00, H2)); assert(p[12] == rec(0xBA01, 0xBA1B, H3));
        } else if i == 12 { assert(p[12] == rec(0xBA01, 0xBA1B, H3)); assert(p[13] == rec(0xBA1C, 0xBA1C, H2));
        } else if i == 13 { assert(p[13] == rec(0xBA1C, 0xBA1C, H2)); assert(p[14] == rec(0xBA1D, 0xBA37, H3));
        } else if i == 14 { assert(p[14] == rec(0xBA1D, 0xBA37, H3)); assert(p[15] == rec(0xBA38, 0xBA38, H2));
        } else if i == 15 { assert(p[15] == rec(0xBA38, 0xBA38, H2)); assert(p[16] == rec(0xBA39, 0xBA53, H3));
        } else if i == 16 { assert(p[16] == rec(0xBA39, 0xBA53, H3)); assert(p[17] == rec(0xBA54, 0xBA54, H2));
        } else if i == 17 { assert(p[17] == rec(0xBA54, 0xBA54, H2)); assert(p[18] == rec(0xBA55, 0xBA6F, H3));
        } else if i == 18 { assert(p[18] == rec(0xBA55, 0xBA6F, H3)); assert(p[19] == rec(0xBA70, 0xBA70, H2));
        } else if i == 19 { assert(p[19] == rec(0xBA70, 0xBA70, H2)); assert(p[20] == rec(0xBA71, 0xBA8B, H3));
        } else if i == 20 { assert(p[20] == rec(0xBA71, 0xBA8B, H3)); assert(p[21] == rec(0xBA8C, 0xBA8C, H2));
        } else if i == 21 { assert(p[21] == rec(0xBA8C, 0xBA8C, H2)); assert(p[22] == rec(0xBA8D, 0xBAA7, H3));
        } else if i == 22 { assert(p[22] == rec(0xBA8D, 0xBAA7, H3)); assert(p[23] == rec(0xBAA8, 0xBAA8, H2));
        } else if i == 23 { assert(p[23] == rec(0xBAA8, 0xBAA8, H2)); assert(p[24] == rec(0xBAA9, 0xBAC3, H3));
        } else if i == 24 { assert(p[24] == rec(0xBAA9, 0xBAC3, H3)); assert(p[25] == rec(0xBAC4, 0xBAC4, H2));
        } else if i == 25 { assert(p[25] == rec(0xBAC4, 0xBAC4, H2)); assert(p[26] == rec(0xBAC5, 0xBADF, H3));
        } else if i == 26 { assert(p[26] == rec(0xBAC5, 0xBADF, H3)); assert(p[27] == rec(0xBAE0, 0xBAE0, H2));
        } else if i == 27 { assert(p[27] == rec(0xBAE0, 0xBAE0, H2)); assert(p[28] == rec(0xBAE1, 0xBAFB, H3));
        } else if i == 28 { assert(p[28] == rec(0xBAE1, 0xBAFB, H3)); assert(p[29] == rec(0xBAFC, 0xBAFC, H2));
        } else if i == 29 { assert(p[29] == rec(0xBAFC, 0xBAFC, H2)); assert(p[30] == rec(0xBAFD, 0xBB17, H3));
        } else if i == 30 { assert(p[30] == rec(0xBAFD, 0xBB17, H3)); assert(p[31] == rec(0xBB18, 0xBB18, H2));
        } else if i == 31 { assert(p[31] == rec(0xBB18, 0xBB18, H2)); assert(p[32] == rec(0xBB19, 0xBB33, H3));
        } else if i == 32 { assert(p[32] == rec(0xBB19, 0xBB33, H3)); assert(p[33] == rec(0xBB34, 0xBB34, H2));
        } else if i == 33 { assert(p[33] == rec(0xBB34, 0xBB34, H2)); assert(p[34] == rec(0xBB35, 0xBB4F, H3));
        } else if i == 34 { assert(p[34] == rec(0xBB35, 0xBB4F, H3)); assert(p[35] == rec(0xBB50, 0xBB50, H2));
        } else if i == 35 { assert(p[35] == rec(0xBB50, 0xBB50, H2)); assert(p[36] == rec(0xBB51, 0xBB6B, H3));
        } else if i == 36 { assert(p[36] == rec(0xBB51, 0xBB6B, H3)); assert(p[37] == rec(0xBB6C, 0xBB6C, H2));
        } else if i == 37 { assert(p[37] == rec(0xBB6C, 0xBB6C, H2)); assert(p[38] == rec(0xBB6D, 0xBB87, H3));
        } else if i == 38 { assert(p[38] == rec(0xBB6D, 0xBB87, H3)); assert(p[39] == rec(0xBB88, 0xBB88, H2));
        } else if i == 39 { assert(p[39] == rec(0xBB88, 0xBB88, H2)); assert(p[40] == rec(0xBB89, 0xBBA3, H3));
        } else if i == 40 { assert(p[40] == rec(0xBB89, 0xBBA3, H3)); assert(p[41] == rec(0xBBA4, 0xBBA4, H2));
        } else if i == 41 { assert(p[41] == rec(0xBBA4, 0xBBA4, H2)); assert(p[42] == rec(0xBBA5, 0xBBBF, H3));
        } else if i == 42 { assert(p[42] == rec(0xBBA5, 0xBBBF, H3)); assert(p[43] == rec(0xBBC0, 0xBBC0, H2));
        } else if i == 43 { assert(p[43] == rec(0xBBC0, 0xBBC0, H2)); assert(p[44] == rec(0xBBC1, 0xBBDB, H3));
        } else if i == 44 { assert(p[44] == rec(0xBBC1, 0xBBDB, H3)); assert(p[45] == rec(0xBBDC, 0xBBDC, H2));
        } else if i == 45 { assert(p[45] == rec(0xBBDC, 0xBBDC, H2)); assert(p[46] == rec(0xBBDD, 0xBBF7, H3));
        } else if i == 46 { assert(p[46] == rec(0xBBDD, 0xBBF7, H3)); assert(p[47] == rec(0xBBF8, 0xBBF8, H2));
        } else if i == 47 { assert(p[47] == rec(0xBBF8, 0xBBF8, H2)); assert(p[48] == rec(0xBBF9, 0xBC13, H3));
        } else if i == 48 { assert(p[48] == rec(0xBBF9, 0xBC13, H3)); assert(p[49] == rec(0xBC14, 0xBC14, H2));
        } else if i == 49 { assert(p[49] == rec(0xBC14, 0xBC14, H2));
        }
    }
    assert forall|i: int|
        #![trigger p[i], p[i + 1]]
        0 <= i && i + 1 < p.len() implies p[i].end < p[i + 1].start by {}
    assert(p[0] == rec(0xB959, 0xB973, H3));
    assert(p[49] == rec(0xBC14, 0xBC14, H2));
}

/// The part's length, order and endpoints.
#[verifier::rlimit(100)]
#[verifier::spinoff_prover]
proof fn lemma_part31_sorted()
    ensures
        records_part31().len() == 50,
        records_sorted(records_part31()),
        records_part31()[0].start == 0xBC15,
        records_part31()[49].end == 0xBED0,
{
    let p = records_part31();
    assert forall|i: int|
        0 <= i < p.len() implies ((#[trigger] p[i]).start <= p[i].end && p[i].end <= 0x10FFFF && (
    i + 1 < p.len() ==> p[i].end < p[i + 1].start)) by {
        if i == 0 { assert(p[0] == rec(0xBC15, 0xBC2F, H3)); assert(p[1] == rec(0xBC30, 0xBC30, H2));
        } else if i == 1 { assert(p[1] == rec(0xBC30, 0xBC30, H2)); assert(p[2] == rec(0xBC31, 0xBC4B, H3));
        } else if i == 2 { assert(p[2] == rec(0xBC31, 0xBC4B, H3)); assert(p[3] == rec(0xBC4C, 0xBC4C, H2));
        } else if i == 3 { assert(p[3] == rec(0xBC4C, 0xBC4C, H2)); assert(p[4] == rec(0xBC4D, 0xBC67, H3));
        } else if i == 4 { assert(p[4] == rec(0xBC4D, 0xBC67, H3)); assert(p[5] == rec(0xBC68, 0xBC68, H2));
        } else if i == 5 { assert(p[5] == rec(0xBC68, 0xBC68, H2)); assert(p[6] == rec(0xBC69, 0xBC83, H3));
        } else if i == 6 { assert(p[6] == rec(0xBC69, 0xBC83, H3)); assert(p[7] == rec(0xBC84, 0xBC84, H2));
        } else if i == 7 { assert(p[7] == rec(0xBC84, 0xBC84, H2)); assert(p[8] == rec(0xBC85, 0xBC9F, H3));
        } else if i == 8 { assert(p[8] == rec(0xBC85, 0xBC9F, H3)); assert(p[9] == rec(0xBCA0, 0xBCA0, H2));
        } else if i == 9 { assert(p[9] == rec(0xBCA0, 0xBCA0, H2)); assert(p[10] == rec(0xBCA1, 0xBCBB, H3));
        } else if i == 10 { assert(p[10] == rec(0xBCA1, 0xBCBB, H3)); assert(p[11] == rec(0xBCBC, 0xBCBC, H2));
        } else if i == 11 { assert(p[11] == rec(0xBCBC, 0xBCBC, H2)); assert(p[12] == rec(0xBCBD, 0xBCD7, H3));
        } else if i == 12 { assert(p[12] == rec(0xBCBD, 0xBCD7, H3)); assert(p[13] == rec(0xBCD8, 0xBCD8, H2));
        } else if i == 13 { assert(p[13] == rec(0xBCD8, 0xBCD8, H2)); assert(p[14] == rec(0xBCD9, 0xBCF3, H3));
        } else if i == 14 { assert(p[14] == rec(0xBCD9, 0xBCF3, H3)); assert(p[15] == rec(0xBCF4, 0xBCF4, H2));
        } else if i == 15 { assert(p[15] == rec(0xBCF4, 0xBCF4, H2)); assert(p[16] == rec(0xBCF5, 0xBD0F, H3));
        } else if i == 16 { assert(p[16] == rec(0xBCF5, 0xBD0F, H3)); assert(p[17] == rec(0xBD10, 0xBD10, H2));
        } else if i == 17 { assert(p[17] == rec(0xBD10, 0xBD10, H2)); assert(p[18] == rec(0xBD11, 0xBD2B, H3));
        } else if i == 18 { assert(p[18] == rec(0xBD11, 0xBD2B, H3)); assert(p[19] == rec(0xBD2C, 0xBD2C, H2));
        } else if i == 19 { assert(p[19] == rec(0xBD2C, 0xBD2C, H2)); assert(p[20] == rec(0xBD2D, 0xBD47, H3));
        } else if i == 20 { assert(p[20] == rec(0xBD2D, 0xBD47, H3)); assert(p[21] == rec(0xBD48, 0xBD48, H2));
        } else if i == 21 { assert(p[21] == rec(0xBD48, 0xBD48, H2)); assert(p[22] == rec(0xBD49, 0xBD63, H3));
        } else if i == 22 { assert(p[22] == rec(0xBD49, 0xBD63, H3)); assert(p[23] == rec(0xBD64, 0xBD64, H2));
        } else if i == 23 { assert(p[23] == rec(0xBD64, 0xBD64, H2)); assert(p[24] == rec(0xBD65, 0xBD7F, H3));
        } else if i == 24 { assert(p[24] == rec(0xBD65, 0xBD7F, H3)); assert(p[25] == rec(0xBD80, 0xBD80, H2));
        } else if i == 25 { assert(p[25] == rec(0xBD80, 0xBD80, H2)); assert(p[26] == rec(0xBD81, 0xBD9B, H3));
        } else if i == 26 { assert(p[26] == rec(0xBD81, 0xBD9B, H3)); assert(p[27] == rec(0xBD9C, 0xBD9C, H2));
        } else if i == 27 { assert(p[27] == rec(0xBD9C, 0xBD9C, H2)); assert(p[28] == rec(0xBD9D, 0xBDB7, H3));
        } else if i == 28 { assert(p[28] == rec(0xBD9D, 0xBDB7, H3)); assert(p[29] == rec(0xBDB8, 0xBDB8, H2));
        } else if i == 29 { assert(p[29] == rec(0xBDB8, 0xBDB8, H2)); assert(p[30] == rec(0xBDB9, 0xBDD3, H3));
        } else if i == 30 { assert(p[30] == rec(0xBDB9, 0xBDD3, H3)); assert(p[31] == rec(0xBDD4, 0xBDD4, H2));
        } else if i == 31 { assert(p[31] == rec(0xBDD4, 0xBDD4, H2)); assert(p[32] == rec(0xBDD5, 0xBDEF, H3));
        } else if i == 32 { assert(p[32] == rec(0xBDD5, 0xBDEF, H3)); assert(p[33] == rec(0xBDF0, 0xBDF0, H2));
        } else if i == 33 { assert(p[33] == rec(0xBDF0, 0xBDF0, H2)); assert(p[34] == rec(0xBDF1, 0xBE0B, H3));
        } else if i == 34 { assert(p[34] == rec(0xBDF1, 0xBE0B, H3)); assert(p[35] == rec(0xBE0C, 0xBE0C, H2));
        } else if i == 35 { assert(p[35] == rec(0xBE0C, 0xBE0C, H2)); assert(p[36] == rec(0xBE0D, 0xBE27, H3));
        } else if i == 36 { assert(p[36] == rec(0xBE0D, 0xBE27, H3)); assert(p[37] == rec(0xBE28, 0xBE28, H2));
        } else if i == 37 { assert(p[37] == rec(0xBE28, 0xBE28, H2)); assert(p[38] == rec(0xBE29, 0xBE43, H3));
        } else if i == 38 { assert(p[38] == rec(0xBE29, 0xBE43, H3)); assert(p[39] == rec(0xBE44, 0xBE44, H2));
        } else if i == 39 { assert(p[39] == rec(0xBE44, 0xBE44, H2)); assert(p[40] == rec(0xBE45, 0xBE5F, H3));
        } else if i == 40 { assert(p[40] == rec(0xBE45, 0xBE5F, H3)); assert(p[41] == rec(0xBE60, 0xBE60, H2));
        } else if i == 41 { assert(p[41] == rec(0xBE60, 0xBE60, H2)); assert(p[42] == rec(0xBE61, 0xBE7B, H3));
        } else if i == 42 { assert(p[42] == rec(0xBE61, 0xBE7B, H3)); assert(p[43] == rec(0xBE7C, 0xBE7C, H2));
        } else if i == 43 { assert(p[43] == rec(0xBE7C, 0xBE7C, H2)); assert(p[44] == rec(0xBE7D, 0xBE97, H3));
        } else if i == 44 { assert(p[44] == rec(0xBE7D, 0xBE97, H3)); assert(p[45] == rec(0xBE98, 0xBE98, H2));
        } else if i == 45 { assert(p[45] == rec(0xBE98, 0xBE98, H2)); assert(p[46] == rec(0xBE99, 0xBEB3, H3));
        } else if i == 46 { assert(p[46] == rec(0xBE99, 0xBEB3, H3)); assert(p[47] == rec(0xBEB4, 0xBEB4, H2));
        } else if i == 47 { assert(p[47] == rec(0xBEB4, 0xBEB4, H2)); assert(p[48] == rec(0xBEB5, 0xBECF, H3));
        } else if i == 48 { assert(p[48] == rec(0xBEB5, 0xBECF, H3)); assert(p[49] == rec(0xBED0, 0xBED0, H2));
        } else if i == 49 { assert(p[49] == rec(0xBED0, 0xBED0, H2));
        }
    }
    assert forall|i: int|
        #![trigger p[i], p[i + 1]]
        0 <= i && i + 1 < p.len() implies p[i].end < p[i + 1].start by {}
    assert(p[0] == rec(0xBC15, 0xBC2F, H3));
    assert(p[49] == rec(0xBED0, 0xBED0, H2));
}

/// The part's length, order and endpoints.
#[verifier::rlimit(100)]
#[verifier::spinoff_prover]
proof fn lemma_part32_sorted()
    ensures
        records_part32().len() == 50,
        records_sorted(records_part32()),
        records_part32()[0].start == 0xBED1,
        records_part32()[49].end == 0xC18C,
{
    let p = records_part32();
    assert forall|i: int|
        0 <= i < p.len() implies ((#[trigger] p[i]).start <= p[i].end && p[i].end <= 0x10FFFF && (
    i + 1 < p.len() ==> p[i].end < p[i + 1].start)) by {
        if i == 0 { assert(p[0] == rec(0xBED1, 0xBEEB, H3)); assert(p[1] == rec(0xBEEC, 0xBEEC, H2));
        } else if i == 1 { assert(p[1] == rec(0xBEEC, 0xBEEC, H2)); assert(p[2] == rec(0xBEED, 0xBF07, H3));
        } else if i == 2 { assert(p[2] == rec(0xBEED, 0xBF07, H3)); assert(p[3] == rec(0xBF08, 0xBF08, H2));
        } else if i == 3 { assert(p[3] == rec(0xBF08, 0xBF08, H2)); assert(p[4] == rec(0xBF09, 0xBF23, H3));
        } else if i == 4 { assert(p[4] == rec(0xBF09, 0xBF23, H3)); assert(p[5] == rec(0xBF24, 0xBF24, H2));
        } else if i == 5 { assert(p[5] == rec(0xBF24, 0xBF24, H2)); assert(p[6] == rec(0xBF25, 0xBF3F, H3));
        } else if i == 6 { assert(p[6] == rec(0xBF25, 0xBF3F, H3)); assert(p[7] == rec(0xBF40, 0xBF40, H2));
        } else if i == 7 { assert(p[7] == rec(0xBF40, 0xBF40, H2)); assert(p[8] == rec(0xBF41, 0xBF5B, H3));
        } else if i == 8 { assert(p[8] == rec(0xBF41, 0xBF5B, H3)); assert(p[9] == rec(0xBF5C, 0xBF5C, H2));
        } else if i == 9 { assert(p[9] == rec(0xBF5C, 0xBF5C, H2)); assert(p[10] == rec(0xBF5D, 0xBF77, H3));
        } else if i == 10 { assert(p[10] == rec(0xBF5D, 0xBF77, H3)); assert(p[11] == rec(0xBF78, 0xBF78, H2));
        } else if i == 11 { assert(p[11] == rec(0xBF78, 0xBF78, H2)); assert(p[12] == rec(0xBF79, 0xBF93, H3));
        } else if i == 12 { assert(p[12] == rec(0xBF79, 0xBF93, H3)); assert(p[13] == rec(0xBF94, 0xBF94, H2));
        } else if i == 13 { assert(p[13] == rec(0xBF94, 0xBF94, H2)); assert(p[14] == rec(0xBF95, 0xBFAF, H3));
        } else if i == 14 { assert(p[14] == rec(0xBF95, 0xBFAF, H3)); assert(p[15] == rec(0xBFB0, 0xBFB0, H2));
        } else if i == 15 { assert(p[15] == rec(0xBFB0, 0xBFB0, H2)); assert(p[16] == rec(0xBFB1, 0xBFCB, H3));
        } else if i == 16 { assert(p[16] == rec(0xBFB1, 0xBFCB, H3)); assert(p[17] == rec(0xBFCC, 0xBFCC, H2));
        } else if i == 17 { assert(p[17] == rec(0xBFCC, 0xBFCC, H2)); assert(p[18] == rec(0xBFCD, 0xBFE7, H3));
        } else if i == 18 { assert(p[18] == rec(0xBFCD, 0xBFE7, H3)); assert(p[19] == rec(0xBFE8, 0xBFE8, H2));
        } else if i == 19 { assert(p[19] == rec(0xBFE8, 0xBFE8, H2)); assert(p[20] == rec(0xBFE9, 0xC003, H3));
        } else if i == 20 { assert(p[20] == rec(0xBFE9, 0xC003, H3)); assert(p[21] == rec(0xC004, 0xC004, H2));
        } else if i == 21 { assert(p[21] == rec(0xC004, 0xC004, H2)); assert(p[22] == rec(0xC005, 0xC01F, H3));
        } else if i == 22 { assert(p[22] == rec(0xC005, 0xC01F, H3)); assert(p[23] == rec(0xC020, 0xC020, H2));
        } else if i == 23 { assert(p[23] == rec(0xC020, 0xC020, H2)); assert(p[24] == rec(0xC021, 0xC03B, H3));
        } else if i == 24 { assert(p[24] == rec(0xC021, 0xC03B, H3)); assert(p[25] == rec(0xC03C, 0xC03C, H2));
        } else if i == 25 { assert(p[25] == rec(0xC03C, 0xC03C, H2)); assert(p[26] == rec(0xC03D, 0xC057, H3));
        } else if i == 26 { assert(p[26] == rec(0xC03D, 0xC057, H3)); assert(p[27] == rec(0xC058, 0xC058, H2));
        } else if i == 27 { assert(p[27] == rec(0xC058, 0xC058, H2)); assert(p[28] == rec(0xC059, 0xC073, H3));
        } else if i == 28 { assert(p[28] == rec(0xC059, 0xC073, H3)); assert(p[29] == rec(0xC074, 0xC074, H2));
        } else if i == 29 { assert(p[29] == rec(0xC074, 0xC074, H2)); assert(p[30] == rec(0xC075, 0xC08F, H3));
        } else if i == 30 { assert(p[30] == rec(0xC075, 0xC08F, H3)); assert(p[31] == rec(0xC090, 0xC090, H2));
        } else if i == 31 { assert(p[31] == rec(0xC090, 0xC090, H2)); assert(p[32] == rec(0xC091, 0xC0AB, H3));
        } else if i == 32 { assert(p[32] == rec(0xC091, 0xC0AB, H3)); assert(p[33] == rec(0xC0AC, 0xC0AC, H2));
        } else if i == 33 { assert(p[33] == rec(0xC0AC, 0xC0AC, H2)); assert(p[34] == rec(0xC0AD, 0xC0C7, H3));
        } else if i == 34 { assert(p[34] == rec(0xC0AD, 0xC0C7, H3)); assert(p[35] == rec(0xC0C8, 0xC0C8, H2));
        } else if i == 35 { assert(p[35] == rec(0xC0C8, 0xC0C8, H2)); assert(p[36] == rec(0xC0C9, 0xC0E3, H3));
        } else if i == 36 { assert(p[36] == rec(0xC0C9, 0xC0E3, H3)); assert(p[37] == rec(0xC0E4, 0xC0E4, H2));
        } else if i == 37 { assert(p[37] == rec(0xC0E4, 0xC0E4, H2)); assert(p[38] == rec(0xC0E5, 0xC0FF, H3));
        } else if i == 38 { assert(p[38] == rec(0xC0E5, 0xC0FF, H3)); assert(p[39] == rec(0xC100, 0xC100, H2));
        } else if i == 39 { assert(p[39] == rec(0xC100, 0xC100, H2)); assert(p[40] == rec(0xC101, 0xC11B, H3));
        } else if i == 40 { assert(p[40] == rec(0xC101, 0xC11B, H3)); assert(p[41] == rec(0xC11C, 0xC11C, H2));
        } else if i == 41 { assert(p[41] == rec(0xC11C, 0xC11C, H2)); assert(p[42] == rec(0xC11D, 0xC137, H3));
        } else if i == 42 { assert(p[42] == rec(0xC11D, 0xC137, H3)); assert(p[43] == rec(0xC138, 0xC138, H2));
        } else if i == 43 { assert(p[43] == rec(0xC138, 0xC138, H2)); assert(p[44] == rec(0xC139, 0xC153, H3));
        } else if i == 44 { assert(p[44] == rec(0xC139, 0xC153, H3)); assert(p[45] == rec(0xC154, 0xC154, H2));
        } else if i == 45 { assert(p[45] == rec(0xC154, 0xC154, H2)); assert(p[46] == rec(0xC155, 0xC16F, H3));
        } else if i == 46 { assert(p[46] == rec(0xC155, 0xC16F, H3)); assert(p[47] == rec(0xC170, 0xC170, H2));
        } else if i == 47 { assert(p[47] == rec(0xC170, 0xC170, H2)); assert(p[48] == rec(0xC171, 0xC18B, H3));
        } else if i == 48 { assert(p[48] == rec(0xC171, 0xC18B, H3)); assert(p[49] == rec(0xC18C, 0xC18C, H2));
        } else if i == 49 { assert(p[49] == rec(0xC18C, 0xC18C, H2));
        }
    }
    assert forall|i: int|
        #![trigger p[i], p[i + 1]]
        0 <= i && i + 1 < p.len() implies p[i].end < p[i + 1].start by {}
    assert(p[0] == rec(0xBED1, 0xBEEB, H3));
    assert(p[49] == rec(0xC18C, 0xC18C, H2));
}

/// The part's length, order and endpoints.
#[verifier::rlimit(100)]
#[verifier::spinoff_prover]
proof fn lemma_part33_sorted()
    ensures
        records_part33().len() == 50,
        records_sorted(records_part33()),
        records_part33()[0].start == 0xC18D,
        records_part33()[49].end == 0xC448,
{
    let p = records_part33();
    assert forall|i: int|
        0 <= i < p.len() implies ((#[trigger] p[i]).start <= p[i].end && p[i].end <= 0x10FFFF && (
    i + 1 < p.len() ==> p[i].end < p[i + 1].start)) by {
        if i == 0 { assert(p[0] == rec(0xC18D, 0xC1A7, H3)); assert(p[1] == rec(0xC1A8, 0xC1A8, H2));
        } else if i == 1 { assert(p[1] == rec(0xC1A8, 0xC1A8, H2)); assert(p[2] == rec(0xC1A9, 0xC1C3, H3));
        } else if i == 2 { assert(p[2] == rec(0xC1A9, 0xC1C3, H3)); assert(p[3] == rec(0xC1C4, 0xC1C4, H2));
        } else if i == 3 { assert(p[3] == rec(0xC1C4, 0xC1C4, H2)); assert(p[4] == rec(0xC1C5, 0xC1DF, H3));
        } else if i == 4 { assert(p[4] == rec(0xC1C5, 0xC1DF, H3)); assert(p[5] == rec(0xC1E0, 0xC1E0, H2));
        } else if i == 5 { assert(p[5] == rec(0xC1E0, 0xC1E0, H2)); assert(p[6] == rec(0xC1E1, 0xC1FB, H3));
        } else if i == 6 { assert(p[6] == rec(0xC1E1, 0xC1FB, H3)); assert(p[7] == rec(0xC1FC, 0xC1FC, H2));
        } else if i == 7 { assert(p[7] == rec(0xC1FC, 0xC1FC, H2)); assert(p[8] == rec(0xC1FD, 0xC217, H3));
        } else if i == 8 { assert(p[8] == rec(0xC1FD, 0xC217, H3)); assert(p[9] == rec(0xC218, 0xC218, H2));
        } else if i == 9 { assert(p[9] == rec(0xC218, 0xC218, H2)); assert(p[10] == rec(0xC219, 0xC233, H3));
        } else if i == 10 { assert(p[10] == rec(0xC219, 0xC233, H3)); assert(p[11] == rec(0xC234, 0xC234, H2));
        } else if i == 11 { assert(p[11] == rec(0xC234, 0xC234, H2)); assert(p[12] == rec(0xC235, 0xC24F, H3));
        } else if i == 12 { assert(p[12] == rec(0xC235, 0xC24F, H3)); assert(p[13] == rec(0xC250, 0xC250, H2));
        } else if i == 13 { assert(p[13] == rec(0xC250, 0xC250, H2)); assert(p[14] == rec(0xC251, 0xC26B, H3));
        } else if i == 14 { assert(p[14] == rec(0xC251, 0xC26B, H3)); assert(p[15] == rec(0xC26C, 0xC26C, H2));
        } else if i == 15 { assert(p[15] == rec(0xC26C, 0xC26C, H2)); assert(p[16] == rec(0xC26D, 0xC287, H3));
        } else if i == 16 { assert(p[16] == rec(0xC26D, 0xC287, H3)); assert(p[17] == rec(0xC288, 0xC288, H2));
        } else if i == 17 { assert(p[17] == rec(0xC288, 0xC288, H2)); assert(p[18] == rec(0xC289, 0xC2A3, H3));
        } else if i == 18 { assert(p[18] == rec(0xC289, 0xC2A3, H3)); assert(p[19] == rec(0xC2A4, 0xC2A4, H2));
        } else if i == 19 { assert(p[19] == rec(0xC2A4, 0xC2A4, H2)); assert(p[20] == rec(0xC2A5, 0xC2BF, H3));
        } else if i == 20 { assert(p[20] == rec(0xC2A5, 0xC2BF, H3)); assert(p[21] == rec(0xC2C0, 0xC2C0, H2));
        } else if i == 21 { assert(p[21] == rec(0xC2C0, 0xC2C0, H2)); assert(p[22] == rec(0xC2C1, 0xC2DB, H3));
        } else if i == 22 { assert(p[22] == rec(0xC2C1, 0xC2DB, H3)); assert(p[23] == rec(0xC2DC, 0xC2DC, H2));
        } else if i == 23 { assert(p[23] == rec(0xC2DC, 0xC2DC, H2)); assert(p[24] == rec(0xC2DD, 0xC2F7, H3));
        } else if i == 24 { assert(p[24] == rec(0xC2DD, 0xC2F7, H3)); assert(p[25] == rec(0xC2F8, 0xC2F8, H2));
        } else if i == 25 { assert(p[25] == rec(0xC2F8, 0xC2F8, H2)); assert(p[26] == rec(0xC2F9, 0xC313, H3));
        } else if i == 26 { assert(p[26] == rec(0xC2F9, 0xC313, H3)); assert(p[27] == rec(0xC314, 0xC314, H2));
        } else if i == 27 { assert(p[27] == rec(0xC314, 0xC314, H2)); assert(p[28] == rec(0xC315, 0xC32F, H3));
        } else if i == 28 { assert(p[28] == rec(0xC315, 0xC32F, H3)); assert(p[29] == rec(0xC330, 0xC330, H2));
        } else if i == 29 { assert(p[29] == rec(0xC330, 0xC330, H2)); assert(p[30] == rec(0xC331, 0xC34B, H3));
        } else if i == 30 { assert(p[30] == rec(0xC331, 0xC34B, H3)); assert(p[31] == rec(0xC34C, 0xC34C, H2));
        } else if i == 31 { assert(p[31] == rec(0xC34C, 0xC34C, H2)); assert(p[32] == rec(0xC34D, 0xC367, H3));
        } else if i == 32 { assert(p[32] == rec(0xC34D, 0xC367, H3)); assert(p[33] == rec(0xC368, 0xC368, H2));
        } else if i == 33 { assert(p[33] == rec(0xC368, 0xC368, H2)); assert(p[34] == rec(0xC369, 0xC383, H3));
        } else if i == 34 { assert(p[34] == rec(0xC369, 0xC383, H3)); assert(p[35] == rec(0xC384, 0xC384, H2));
        } else if i == 35 { assert(p[35] == rec(0xC384, 0xC384, H2)); assert(p[36] == rec(0xC385, 0xC39F, H3));
        } else if i == 36 { assert(p[36] == rec(0xC385, 0xC39F, H3)); assert(p[37] == rec(0xC3A0, 0xC3A0, H2));
        } else if i == 37 { assert(p[37] == rec(0xC3A0, 0xC3A0, H2)); assert(p[38] == rec(0xC3A1, 0xC3BB, H3));
        } else if i == 38 { assert(p[38] == rec(0xC3A1, 0xC3BB, H3)); assert(p[39] == rec(0xC3BC, 0xC3BC, H2));
        } else if i == 39 { assert(p[39] == rec(0xC3BC, 0xC3BC, H2)); assert(p[40] == rec(0xC3BD, 0xC3D7, H3));
        } else if i == 40 { assert(p[40] == rec(0xC3BD, 0xC3D7, H3)); assert(p[41] == rec(0xC3D8, 0xC3D8, H2));
        } else if i == 41 { assert(p[41] == rec(0xC3D8, 0xC3D8, H2)); assert(p[42] == rec(0xC3D9, 0xC3F3, H3));
        } else if i == 42 { assert(p[42] == rec(0xC3D9, 0xC3F3, H3)); assert(p[43] == rec(0xC3F4, 0xC3F4, H2));
        } else if i == 43 { assert(p[43] == rec(0xC3F4, 0xC3F4, H2)); assert(p[44] == rec(0xC3F5, 0xC40F, H3));
        } else if i == 44 { assert(p[44] == rec(0xC3F5, 0xC40F, H3)); assert(p[45] == rec(0xC410, 0xC410, H2));
        } else if i == 45 { assert(p[45] == rec(0xC410, 0xC410, H2)); assert(p[46] == rec(0xC411, 0xC42B, H3));
        } else if i == 46 { assert(p[46] == rec(0xC411, 0xC42B, H3)); assert(p[47] == rec(0xC42C, 0xC42C, H2));
        } else if i == 47 { assert(p[47] == rec(0xC42C, 0xC42C, H2)); assert(p[48] == rec(0xC42D, 0xC447, H3));
        } else if i == 48 { assert(p[48] == rec(0xC42D, 0xC447, H3)); assert(p[49] == rec(0xC448, 0xC448, H2));
        } else if i == 49 { assert(p[49] == rec(0xC448, 0xC448, H2));
        }
    }
    assert forall|i: int|
        #![trigger p[i], p[i + 1]]
        0 <= i && i + 1 < p.len() implies p[i].end < p[i + 1].start by {}
    assert(p[0] == rec(0xC18D, 0xC1A7, H3));
    assert(p[49] == rec(0xC448, 0xC448, H2));
}

/// The part's length, order and endpoints.
#[verifier::rlimit(100)]
#[verifier::spinoff_prover]
proof fn lemma_part34_sorted()
    ensures
        records_part34().len() == 50,
        records_sorted(records_part34()),
        records_part34()[0].start == 0xC449,
        records_part34()[49].end == 0xC704,
{
    let p = records_part34();
    assert forall|i: int|
        0 <= i < p.len() implies ((#[trigger] p[i]).start <= p[i].end && p[i].end <= 0x10FFFF && (
    i + 1 < p.len() ==> p[i].end < p[i + 1].start)) by {
        if i == 0 { assert(p[0] == rec(0xC449, 0xC463, H3)); assert(p[1] == rec(0xC464, 0xC464, H2));
        } else if i == 1 { assert(p[1] == rec(0xC464, 0xC464, H2)); assert(p[2] == rec(0xC465, 0xC47F, H3));
        } else if i == 2 { assert(p[2] == rec(0xC465, 0xC47F, H3)); assert(p[3] == rec(0xC480, 0xC480, H2));
        } else if i == 3 { assert(p[3] == rec(0xC480, 0xC480, H2)); assert(p[4] == rec(0xC481, 0xC49B, H3));
        } else if i == 4 { assert(p[4] == rec(0xC481, 0xC49B, H3)); assert(p[5] == rec(0xC49C, 0xC49C, H2));
        } else if i == 5 { assert(p[5] == rec(0xC49C, 0xC49C, H2)); assert(p[6] == rec(0xC49D, 0xC4B7, H3));
        } else if i == 6 { assert(p[6] == rec(0xC49D, 0xC4B7, H3)); assert(p[7] == rec(0xC4B8, 0xC4B8, H2));
        } else if i == 7 { assert(p[7] == rec(0xC4B8, 0xC4B8, H2)); assert(p[8] == rec(0xC4B9, 0xC4D3, H3));
        } else if i == 8 { assert(p[8] == rec(0xC4B9, 0xC4D3, H3)); assert(p[9] == rec(0xC4D4, 0xC4D4, H2));
        } else if i == 9 { assert(p[9] == rec(0xC4D4, 0xC4D4, H2)); assert(p[10] == rec(0xC4D5, 0xC4EF, H3));
        } else if i == 10 { assert(p[10] == rec(0xC4D5, 0xC4EF, H3)); assert(p[11] == rec(0xC4F0, 0xC4F0, H2));
        } else if i == 11 { assert(p[11] == rec(0xC4F0, 0xC4F0, H2)); assert(p[12] == rec(0xC4F1, 0xC50B, H3));
        } else if i == 12 { assert(p[12] == rec(0xC4F1, 0xC50B, H3)); assert(p[13] == rec(0xC50C, 0xC50C, H2));
        } else if i == 13 { assert(p[13] == rec(0xC50C, 0xC50C, H2)); assert(p[14] == rec(0xC50D, 0xC527, H3));
        } else if i == 14 { assert(p[14] == rec(0xC50D, 0xC527, H3)); assert(p[15] == rec(0xC528, 0xC528, H2));
        } else if i == 15 { assert(p[15] == rec(0xC528, 0xC528, H2)); assert(p[16] == rec(0xC529, 0xC543, H3));
        } else if i == 16 { assert(p[16] == rec(0xC529, 0xC543, H3)); assert(p[17] == rec(0xC544, 0xC544, H2));
        } else if i == 17 { assert(p[17] == rec(0xC544, 0xC544, H2)); assert(p[18] == rec(0xC545, 0xC55F, H3));
        } else if i == 18 { assert(p[18] == rec(0xC545, 0xC55F, H3)); assert(p[19] == rec(0xC560, 0xC560, H2));
        } else if i == 19 { assert(p[19] == rec(0xC560, 0xC560, H2)); assert(p[20] == rec(0xC561, 0xC57B, H3));
        } else if i == 20 { assert(p[20] == rec(0xC561, 0xC57B, H3)); assert(p[21] == rec(0xC57C, 0xC57C, H2));
        } else if i == 21 { assert(p[21] == rec(0xC57C, 0xC57C, H2)); assert(p[22] == rec(0xC57D, 0xC597, H3));
        } else if i == 22 { assert(p[22] == rec(0xC57D, 0xC597, H3)); assert(p[23] == rec(0xC598, 0xC598, H2));
        } else if i == 23 { assert(p[23] == rec(0xC598, 0xC598, H2)); assert(p[24] == rec(0xC599, 0xC5B3, H3));
        } else if i == 24 { assert(p[24] == rec(0xC599, 0xC5B3, H3)); assert(p[25] == rec(0xC5B4, 0xC5B4, H2));
        } else if i == 25 { assert(p[25] == rec(0xC5B4, 0xC5B4, H2)); assert(p[26] == rec(0xC5B5, 0xC5CF, H3));
        } else if i == 26 { assert(p[26] == rec(0xC5B5, 0xC5CF, H3)); assert(p[27] == rec(0xC5D0, 0xC5D0, H2));
        } else if i == 27 { assert(p[27] == rec(0xC5D0, 0xC5D0, H2)); assert(p[28] == rec(0xC5D1, 0xC5EB, H3));
        } else if i == 28 { assert(p[28] == rec(0xC5D1, 0xC5EB, H3)); assert(p[29] == rec(0xC5EC, 0xC5EC, H2));
        } else if i == 29 { assert(p[29] == rec(0xC5EC, 0xC5EC, H2)); assert(p[30] == rec(0xC5ED, 0xC607, H3));
        } else if i == 30 { assert(p[30] == rec(0xC5ED, 0xC607, H3)); assert(p[31] == rec(0xC608, 0xC608, H2));
        } else if i == 31 { assert(p[31] == rec(0xC608, 0xC608, H2)); assert(p[32] == rec(0xC609, 0xC623, H3));
        } else if i == 32 { assert(p[32] == rec(0xC609, 0xC623, H3)); assert(p[33] == rec(0xC624, 0xC624, H2));
        } else if i == 33 { assert(p[33] == rec(0xC624, 0xC624, H2)); assert(p[34] == rec(0xC625, 0xC63F, H3));
        } else if i == 34 { assert(p[34] == rec(0xC625, 0xC63F, H3)); assert(p[35] == rec(0xC640, 0xC640, H2));
        } else if i == 35 { assert(p[35] == rec(0xC640, 0xC640, H2)); assert(p[36] == rec(0xC641, 0xC65B, H3));
        } else if i == 36 { assert(p[36] == rec(0xC641, 0xC65B, H3)); assert(p[37] == rec(0xC65C, 0xC65C, H2));
        } else if i == 37 { assert(p[37] == rec(0xC65C, 0xC65C, H2)); assert(p[38] == rec(0xC65D, 0xC677, H3));
        } else if i == 38 { assert(p[38] == rec(0xC65D, 0xC677, H3)); assert(p[39] == rec(0xC678, 0xC678, H2));
        } else if i == 39 { assert(p[39] == rec(0xC678, 0xC678, H2)); assert(p[40] == rec(0xC679, 0xC693, H3));
        } else if i == 40 { assert(p[40] == rec(0xC679, 0xC693, H3)); assert(p[41] == rec(0xC694, 0xC694, H2));
        } else if i == 41 { assert(p[41] == rec(0xC694, 0xC694, H2)); assert(p[42] == rec(0xC695, 0xC6AF, H3));
        } else if i == 42 { assert(p[42] == rec(0xC695, 0xC6AF, H3)); assert(p[43] == rec(0xC6B0, 0xC6B0, H2));
        } else if i == 43 { assert(p[43] == rec(0xC6B0, 0xC6B0, H2)); assert(p[44] == rec(0xC6B1, 0xC6CB, H3));
        } else if i == 44 { assert(p[44] == rec(0xC6B1, 0xC6CB, H3)); assert(p[45] == rec(0xC6CC, 0xC6CC, H2));
        } else if i == 45 { assert(p[45] == rec(0xC6CC, 0xC6CC, H2)); assert(p[46] == rec(0xC6CD, 0xC6E7, H3));
        } else if i == 46 { assert(p[46] == rec(0xC6CD, 0xC6E7, H3)); assert(p[47] == rec(0xC6E8, 0xC6E8, H2));
        } else if i == 47 { assert(p[47] == rec(0xC6E8, 0xC6E8, H2)); assert(p[48] == rec(0xC6E9, 0xC703, H3));
        } else if i == 48 { assert(p[48] == rec(0xC6E9, 0xC703, H3)); assert(p[49] == rec(0xC704, 0xC704, H2));
        } else if i == 49 { assert(p[49] == rec(0xC704, 0xC704, H2));
        }
    }
    assert forall|i: int|
        #![trigger p[i], p[i + 1]]
        0 <= i && i + 1 < p.len() implies p[i].end < p[i + 1].start by {}
    assert(p[0] == rec(0xC449, 0xC463, H3));
    assert(p[49] == rec(0xC704, 0xC704, H2));
}

/// The part's length, order and endpoints.
#[verifier::rlimit(100)]
#[verifier::spinoff_prover]
proof fn lemma_part35_sorted()
    ensures
        records_part35().len() == 50,
        records_sorted(records_part35()),
        records_part35()[0].start == 0xC705,
        records_part35()[49].end == 0xC9C0,
{
    let p = records_part35();
    assert forall|i: int|
        0 <= i < p.len() implies ((#[trigger] p[i]).start <= p[i].end && p[i].end <= 0x10FFFF && (
    i + 1 < p.len() ==> p[i].end < p[i + 1].start)) by {
        if i == 0 { assert(p[0] == rec(0xC705, 0xC71F, H3)); assert(p[1] == rec(0xC720, 0xC720, H2));
        } else if i == 1 { assert(p[1] == rec(0xC720, 0xC720, H2)); assert(p[2] == rec(0xC721, 0xC73B, H3));
        } else if i == 2 { assert(p[2] == rec(0xC721, 0xC73B, H3)); assert(p[3] == rec(0xC73C, 0xC73C, H2));
        } else if i == 3 { assert(p[3] == rec(0xC73C, 0xC73C, H2)); assert(p[4] == rec(0xC73D, 0xC757, H3));
        } else if i == 4 { assert(p[4] == rec(0xC73D, 0xC757, H3)); assert(p[5] == rec(0xC758, 0xC758, H2));
        } else if i == 5 { assert(p[5] == rec(0xC758, 0xC758, H2)); assert(p[6] == rec(0xC759, 0xC773, H3));
        } else if i == 6 { assert(p[6] == rec(0xC759, 0xC773, H3)); assert(p[7] == rec(0xC774, 0xC774, H2));
        } else if i == 7 { assert(p[7] == rec(0xC774, 0xC774, H2)); assert(p[8] == rec(0xC775, 0xC78F, H3));
        } else if i == 8 { assert(p[8] == rec(0xC775, 0xC78F, H3)); assert(p[9] == rec(0xC790, 0xC790, H2));
        } else if i == 9 { assert(p[9] == rec(0xC790, 0xC790, H2)); assert(p[10] == rec(0xC791, 0xC7AB, H3));
        } else if i == 10 { assert(p[10] == rec(0xC791, 0xC7AB, H3)); assert(p[11] == rec(0xC7AC, 0xC7AC, H2));
        } else if i == 11 { assert(p[11] == rec(0xC7AC, 0xC7AC, H2)); assert(p[12] == rec(0xC7AD, 0xC7C7, H3));
        } else if i == 12 { assert(p[12] == rec(0xC7AD, 0xC7C7, H3)); assert(p[13] == rec(0xC7C8, 0xC7C8, H2));
        } else if i == 13 { assert(p[13] == rec(0xC7C8, 0xC7C8, H2)); assert(p[14] == rec(0xC7C9, 0xC7E3, H3));
        } else if i == 14 { assert(p[14] == rec(0xC7C9, 0xC7E3, H3)); assert(p[15] == rec(0xC7E4, 0xC7E4, H2));
        } else if i == 15 { assert(p[15] == rec(0xC7E4, 0xC7E4, H2)); assert(p[16] == rec(0xC7E5, 0xC7FF, H3));
        } else if i == 16 { assert(p[16] == rec(0xC7E5, 0xC7FF, H3)); assert(p[17] == rec(0xC800, 0xC800, H2));
        } else if i == 17 { assert(p[17] == rec(0xC800, 0xC800, H2)); assert(p[18] == rec(0xC801, 0xC81B, H3));
        } else if i == 18 { assert(p[18] == rec(0xC801, 0xC81B, H3)); assert(p[19] == rec(0xC81C, 0xC81C, H2));
        } else if i == 19 { assert(p[19] == rec(0xC81C, 0xC81C, H2)); assert(p[20] == rec(0xC81D, 0xC837, H3));
        } else if i == 20 { assert(p[20] == rec(0xC81D, 0xC837, H3)); assert(p[21] == rec(0xC838, 0xC838, H2));
        } else if i == 21 { assert(p[21] == rec(0xC838, 0xC838, H2)); assert(p[22] == rec(0xC839, 0xC853, H3));
        } else if i == 22 { assert(p[22] == rec(0xC839, 0xC853, H3)); assert(p[23] == rec(0xC854, 0xC854, H2));
        } else if i == 23 { assert(p[23] == rec(0xC854, 0xC854, H2)); assert(p[24] == rec(0xC855, 0xC86F, H3));
        } else if i == 24 { assert(p[24] == rec(0xC855, 0xC86F, H3)); assert(p[25] == rec(0xC870, 0xC870, H2));
        } else if i == 25 { assert(p[25] == rec(0xC870, 0xC870, H2)); assert(p[26] == rec(0xC871, 0xC88B, H3));
        } else if i == 26 { assert(p[26] == rec(0xC871, 0xC88B, H3)); assert(p[27] == rec(0xC88C, 0xC88C, H2));
        } else if i == 27 { assert(p[27] == rec(0xC88C, 0xC88C, H2)); assert(p[28] == rec(0xC88D, 0xC8A7, H3));
        } else if i == 28 { assert(p[28] == rec(0xC88D, 0xC8A7, H3)); assert(p[29] == rec(0xC8A8, 0xC8A8, H2));
        } else if i == 29 { assert(p[29] == rec(0xC8A8, 0xC8A8, H2)); assert(p[30] == rec(0xC8A9, 0xC8C3, H3));
        } else if i == 30 { assert(p[30] == rec(0xC8A9, 0xC8C3, H3)); assert(p[31] == rec(0xC8C4, 0xC8C4, H2));
        } else if i == 31 { assert(p[31] == rec(0xC8C4, 0xC8C4, H2)); assert(p[32] == rec(0xC8C5, 0xC8DF, H3));
        } else if i == 32 { assert(p[32] == rec(0xC8C5, 0xC8DF, H3)); assert(p[33] == rec(0xC8E0, 0xC8E0, H2));
        } else if i == 33 { assert(p[33] == rec(0xC8E0, 0xC8E0, H2)); assert(p[34] == rec(0xC8E1, 0xC8FB, H3));
        } else if i == 34 { assert(p[34] == rec(0xC8E1, 0xC8FB, H3)); assert(p[35] == rec(0xC8FC, 0xC8FC, H2));
        } else if i == 35 { assert(p[35] == rec(0xC8FC, 0xC8FC, H2)); assert(p[36] == rec(0xC8FD, 0xC917, H3));
        } else if i == 36 { assert(p[36] == rec(0xC8FD, 0xC917, H3)); assert(p[37] == rec(0xC918, 0xC918, H2));
        } else if i == 37 { assert(p[37] == rec(0xC918, 0xC918, H2)); assert(p[38] == rec(0xC919, 0xC933, H3));
        } else if i == 38 { assert(p[38] == rec(0xC919, 0xC933, H3)); assert(p[39] == rec(0xC934, 0xC934, H2));
        } else if i == 39 { assert(p[39] == rec(0xC934, 0xC934, H2)); assert(p[40] == rec(0xC935, 0xC94F, H3));
        } else if i == 40 { assert(p[40] == rec(0xC935, 0xC94F, H3)); assert(p[41] == rec(0xC950, 0xC950, H2));
        } else if i == 41 { assert(p[41] == rec(0xC950, 0xC950, H2)); assert(p[42] == rec(0xC951, 0xC96B, H3));
        } else if i == 42 { assert(p[42] == rec(0xC951, 0xC96B, H3)); assert(p[43] == rec(0xC96C, 0xC96C, H2));
        } else if i == 43 { assert(p[43] == rec(0xC96C, 0xC96C, H2)); assert(p[44] == rec(0xC96D, 0xC987, H3));
        } else if i == 44 { assert(p[44] == rec(0xC96D, 0xC987, H3)); assert(p[45] == rec(0xC988, 0xC988, H2));
        } else if i == 45 { assert(p[45] == rec(0xC988, 0xC988, H2)); assert(p[46] == rec(0xC989, 0xC9A3, H3));
        } else if i == 46 { assert(p[46] == rec(0xC989, 0xC9A3, H3)); assert(p[47] == rec(0xC9A4, 0xC9A4, H2));
        } else if i == 47 { assert(p[47] == rec(0xC9A4, 0xC9A4, H2)); assert(p[48] == rec(0xC9A5, 0xC9BF, H3));
        } else if i == 48 { assert(p[48] == rec(0xC9A5, 0xC9BF, H3)); assert(p[49] == rec(0xC9C0, 0xC9C0, H2));
        } else if i == 49 { assert(p[49] == rec(0xC9C0, 0xC9C0, H2));
        }
    }
    assert forall|i: int|
        #![trigger p[i], p[i + 1]]
        0 <= i && i + 1 < p.len() implies p[i].end < p[i + 1].start by {}
    assert(p[0] == rec(0xC705, 0xC71F, H3));
    assert(p[49] == rec(0xC9C0, 0xC9C0, H2));
}

/// The part's length, order and endpoints.
#[verifier::rlimit(100)]
#[verifier::spinoff_prover]
proof fn lemma_part36_sorted()
    ensures
        records_part36().len() == 50,
        records_sorted(records_part36()),
        records_part36()[0].start == 0xC9C1,
        records_part36()[49].end == 0xCC7C,
{
    let p = records_part36();
    assert forall|i: int|
        0 <= i < p.len() implies ((#[trigger] p[i]).start <= p[i].end && p[i].end <= 0x10FFFF && (
    i + 1 < p.len() ==> p[i].end < p[i + 1].start)) by {
        if i == 0 { assert(p[0] == rec(0xC9C1, 0xC9DB, H3)); assert(p[1] == rec(0xC9DC, 0xC9DC, H2));
        } else if i == 1 { assert(p[1] == rec(0xC9DC, 0xC9DC, H2)); assert(p[2] == rec(0xC9DD, 0xC9F7, H3));
        } else if i == 2 { assert(p[2] == rec(0xC9DD, 0xC9F7, H3)); assert(p[3] == rec(0xC9F8, 0xC9F8, H2));
        } else if i == 3 { assert(p[3] == rec(0xC9F8, 0xC9F8, H2)); assert(p[4] == rec(0xC9F9, 0xCA13, H3));
        } else if i == 4 { assert(p[4] == rec(0xC9F9, 0xCA13, H3)); assert(p[5] == rec(0xCA14, 0xCA14, H2));
        } else if i == 5 { assert(p[5] == rec(0xCA14, 0xCA14, H2)); assert(p[6] == rec(0xCA15, 0xCA2F, H3));
        } else if i == 6 { assert(p[6] == rec(0xCA15, 0xCA2F, H3)); assert(p[7] == rec(0xCA30, 0xCA30, H2));
        } else if i == 7 { assert(p[7] == rec(0xCA30, 0xCA30, H2)); assert(p[8] == rec(0xCA31, 0xCA4B, H3));
        } else if i == 8 { assert(p[8] == rec(0xCA31, 0xCA4B, H3)); assert(p[9] == rec(0xCA4C, 0xCA4C, H2));
        } else if i == 9 { assert(p[9] == rec(0xCA4C, 0xCA4C, H2)); assert(p[10] == rec(0xCA4D, 0xCA67, H3));
        } else if i == 10 { assert(p[10] == rec(0xCA4D, 0xCA67, H3)); assert(p[11] == rec(0xCA68, 0xCA68, H2));
        } else if i == 11 { assert(p[11] == rec(0xCA68, 0xCA68, H2)); assert(p[12] == rec(0xCA69, 0xCA83, H3));
        } else if i == 12 { assert(p[12] == rec(0xCA69, 0xCA83, H3)); assert(p[13] == rec(0xCA84, 0xCA84, H2));
        } else if i == 13 { assert(p[13] == rec(0xCA84, 0xCA84, H2)); assert(p[14] == rec(0xCA85, 0xCA9F, H3));
        } else if i == 14 { assert(p[14] == rec(0xCA85, 0xCA9F, H3)); assert(p[15] == rec(0xCAA0, 0xCAA0, H2));
        } else if i == 15 { assert(p[15] == rec(0xCAA0, 0xCAA0, H2)); assert(p[16] == rec(0xCAA1, 0xCABB, H3));
        } else if i == 16 { assert(p[16] == rec(0xCAA1, 0xCABB, H3)); assert(p[17] == rec(0xCABC, 0xCABC, H2));
        } else if i == 17 { assert(p[17] == rec(0xCABC, 0xCABC, H2)); assert(p[18] == rec(0xCABD, 0xCAD7, H3));
        } else if i == 18 { assert(p[18] == rec(0xCABD, 0xCAD7, H3)); assert(p[19] == rec(0xCAD8, 0xCAD8, H2));
        } else if i == 19 { assert(p[19] == rec(0xCAD8, 0xCAD8, H2)); assert(p[20] == rec(0xCAD9, 0xCAF3, H3));
        } else if i == 20 { assert(p[20] == rec(0xCAD9, 0xCAF3, H3)); assert(p[21] == rec(0xCAF4, 0xCAF4, H2));
        } else if i == 21 { assert(p[21] == rec(0xCAF4, 0xCAF4, H2)); assert(p[22] == rec(0xCAF5, 0xCB0F, H3));
        } else if i == 22 { assert(p[22] == rec(0xCAF5, 0xCB0F, H3)); assert(p[23] == rec(0xCB10, 0xCB10, H2));
        } else if i == 23 { assert(p[23] == rec(0xCB10, 0xCB10, H2)); assert(p[24] == rec(0xCB11, 0xCB2B, H3));
        } else if i == 24 { assert(p[24] == rec(0xCB11, 0xCB2B, H3)); assert(p[25] == rec(0xCB2C, 0xCB2C, H2));
        } else if i == 25 { assert(p[25] == rec(0xCB2C, 0xCB2C, H2)); assert(p[26] == rec(0xCB2D, 0xCB47, H3));
        } else if i == 26 { assert(p[26] == rec(0xCB2D, 0xCB47, H3)); assert(p[27] == rec(0xCB48, 0xCB48, H2));
        } else if i == 27 { assert(p[27] == rec(0xCB48, 0xCB48, H2)); assert(p[28] == rec(0xCB49, 0xCB63, H3));
        } else if i == 28 { assert(p[28] == rec(0xCB49, 0xCB63, H3)); assert(p[29] == rec(0xCB64, 0xCB64, H2));
        } else if i == 29 { assert(p[29] == rec(0xCB64, 0xCB64, H2)); assert(p[30] == rec(0xCB65, 0xCB7F, H3));
        } else if i == 30 { assert(p[30] == rec(0xCB65, 0xCB7F, H3)); assert(p[31] == rec(0xCB80, 0xCB80, H2));
        } else if i == 31 { assert(p[31] == rec(0xCB80, 0xCB80, H2)); assert(p[32] == rec(0xCB81, 0xCB9B, H3));
        } else if i == 32 { assert(p[32] == rec(0xCB81, 0xCB9B, H3)); assert(p[33] == rec(0xCB9C, 0xCB9C, H2));
        } else if i == 33 { assert(p[33] == rec(0xCB9C, 0xCB9C, H2)); assert(p[34] == rec(0xCB9D, 0xCBB7, H3));
        } else if i == 34 { assert(p[34] == rec(0xCB9D, 0xCBB7, H3)); assert(p[35] == rec(0xCBB8, 0xCBB8, H2));
        } else if i == 35 { assert(p[35] == rec(0xCBB8, 0xCBB8, H2)); assert(p[36] == rec(0xCBB9, 0xCBD3, H3));
        } else if i == 36 { assert(p[36] == rec(0xCBB9, 0xCBD3, H3)); assert(p[37] == rec(0xCBD4, 0xCBD4, H2));
        } else if i == 37 { assert(p[37] == rec(0xCBD4, 0xCBD4, H2)); assert(p[38] == rec(0xCBD5, 0xCBEF, H3));
        } else if i == 38 { assert(p[38] == rec(0xCBD5, 0xCBEF, H3)); assert(p[39] == rec(0xCBF0, 0xCBF0, H2));
        } else if i == 39 { assert(p[39] == rec(0xCBF0, 0xCBF0, H2)); assert(p[40] == rec(0xCBF1, 0xCC0B, H3));
        } else if i == 40 { assert(p[40] == rec(0xCBF1, 0xCC0B, H3)); assert(p[41] == rec(0xCC0C, 0xCC0C, H2));
        } else if i == 41 { assert(p[41] == rec(0xCC0C, 0xCC0C, H2)); assert(p[42] == rec(0xCC0D, 0xCC27, H3));
        } else if i == 42 { assert(p[42] == rec(0xCC0D, 0xCC27, H3)); assert(p[43] == rec(0xCC28, 0xCC28, H2));
        } else if i == 43 { assert(p[43] == rec(0xCC28, 0xCC28, H2)); assert(p[44] == rec(0xCC29, 0xCC43, H3));
        } else if i == 44 { assert(p[44] == rec(0xCC29, 0xCC43, H3)); assert(p[45] == rec(0xCC44, 0xCC44, H2));
        } else if i == 45 { assert(p[45] == rec(0xCC44, 0xCC44, H2)); assert(p[46] == rec(0xCC45, 0xCC5F, H3));
        } else if i == 46 { assert(p[46] == rec(0xCC45, 0xCC5F, H3)); assert(p[47] == rec(0xCC60, 0xCC60, H2));
        } else if i == 47 { assert(p[47] == rec(0xCC60, 0xCC60, H2)); assert(p[48] == rec(0xCC61, 0xCC7B, H3));
        } else if i == 48 { assert(p[48] == rec(0xCC61, 0xCC7B, H3)); assert(p[49] == rec(0xCC7C, 0xCC7C, H2));
        } else if i == 49 { assert(p[49] == rec(0xCC7C, 0xCC7C, H2));
        }
    }
    assert forall|i: int|
        #![trigger p[i], p[i + 1]]
        0 <= i && i + 1 < p.len() implies p[i].end < p[i + 1].start by {}
    assert(p[0] == rec(0xC9C1, 0xC9DB, H3));
    assert(p[49] == rec(0xCC7C, 0xCC7C, H2));
}

/// The part's length, order and endpoints.
#[verifier::rlimit(100)]
#[verifier::spinoff_prover]
proof fn lemma_part37_sorted()
    ensures
        records_part37().len() == 50,
        records_sorted(records_part37()),
        records_part37()[0].start == 0xCC7D,
        records_part37()[49].end == 0xCF38,
{
    let p = records_part37();
    assert forall|i: int|
        0 <= i < p.len() implies ((#[trigger] p[i]).start <= p[i].end && p[i].end <= 0x10FFFF && (
    i + 1 < p.len() ==> p[i].end < p[i + 1].start)) by {
        if i == 0 { assert(p[0] == rec(0xCC7D, 0xCC97, H3)); assert(p[1] == rec(0xCC98, 0xCC98, H2));
        } else if i == 1 { assert(p[1] == rec(0xCC98, 0xCC98, H2)); assert(p[2] == rec(0xCC99, 0xCCB3, H3));
        } else if i == 2 { assert(p[2] == rec(0xCC99, 0xCCB3, H3)); assert(p[3] == rec(0xCCB4, 0xCCB4, H2));
        } else if i == 3 { assert(p[3] == rec(0xCCB4, 0xCCB4, H2)); assert(p[4] == rec(0xCCB5, 0xCCCF, H3));
        } else if i == 4 { assert(p[4] == rec(0xCCB5, 0xCCCF, H3)); assert(p[5] == rec(0xCCD0, 0xCCD0, H2));
        } else if i == 5 { assert(p[5] == rec(0xCCD0, 0xCCD0, H2)); assert(p[6] == rec(0xCCD1, 0xCCEB, H3));
        } else if i == 6 { assert(p[6] == rec(0xCCD1, 0xCCEB, H3)); assert(p[7] == rec(0xCCEC, 0xCCEC, H2));
        } else if i == 7 { assert(p[7] == rec(0xCCEC, 0xCCEC, H2)); assert(p[8] == rec(0xCCED, 0xCD07, H3));
        } else if i == 8 { assert(p[8] == rec(0xCCED, 0xCD07, H3)); assert(p[9] == rec(0xCD08, 0xCD08, H2));
        } else if i == 9 { assert(p[9] == rec(0xCD08, 0xCD08, H2)); assert(p[10] == rec(0xCD09, 0xCD23, H3));
        } else if i == 10 { assert(p[10] == rec(0xCD09, 0xCD23, H3)); assert(p[11] == rec(0xCD24, 0xCD24, H2));
        } else if i == 11 { assert(p[11] == rec(0xCD24, 0xCD24, H2)); assert(p[12] == rec(0xCD25, 0xCD3F, H3));
        } else if i == 12 { assert(p[12] == rec(0xCD25, 0xCD3F, H3)); assert(p[13] == rec(0xCD40, 0xCD40, H2));
        } else if i == 13 { assert(p[13] == rec(0xCD40, 0xCD40, H2)); assert(p[14] == rec(0xCD41, 0xCD5B, H3));
        } else if i == 14 { assert(p[14] == rec(0xCD41, 0xCD5B, H3)); assert(p[15] == rec(0xCD5C, 0xCD5C, H2));
        } else if i == 15 { assert(p[15] == rec(0xCD5C, 0xCD5C, H2)); assert(p[16] == rec(0xCD5D, 0xCD77, H3));
        } else if i == 16 { assert(p[16] == rec(0xCD5D, 0xCD77, H3)); assert(p[17] == rec(0xCD78, 0xCD78, H2));
        } else if i == 17 { assert(p[17] == rec(0xCD78, 0xCD78, H2)); assert(p[18] == rec(0xCD79, 0xCD93, H3));
        } else if i == 18 { assert(p[18] == rec(0xCD79, 0xCD93, H3)); assert(p[19] == rec(0xCD94, 0xCD94, H2));
        } else if i == 19 { assert(p[19] == rec(0xCD94, 0xCD94, H2)); assert(p[20] == rec(0xCD95, 0xCDAF, H3));
        } else if i == 20 { assert(p[20] == rec(0xCD95, 0xCDAF, H3)); assert(p[21] == rec(0xCDB0, 0xCDB0, H2));
        } else if i == 21 { assert(p[21] == rec(0xCDB0, 0xCDB0, H2)); assert(p[22] == rec(0xCDB1, 0xCDCB, H3));
        } else if i == 22 { assert(p[22] == rec(0xCDB1, 0xCDCB, H3)); assert(p[23] == rec(0xCDCC, 0xCDCC, H2));
        } else if i == 23 { assert(p[23] == rec(0xCDCC, 0xCDCC, H2)); assert(p[24] == rec(0xCDCD, 0xCDE7, H3));
        } else if i == 24 { assert(p[24] == rec(0xCDCD, 0xCDE7, H3)); assert(p[25] == rec(0xCDE8, 0xCDE8, H2));
        } else if i == 25 { assert(p[25] == rec(0xCDE8, 0xCDE8, H2)); assert(p[26] == rec(0xCDE9, 0xCE03, H3));
        } else if i == 26 { assert(p[26] == rec(0xCDE9, 0xCE03, H3)); assert(p[27] == rec(0xCE04, 0xCE04, H2));
        } else if i == 27 { assert(p[27] == rec(0xCE04, 0xCE04, H2)); assert(p[28] == rec(0xCE05, 0xCE1F, H3));
        } else if i == 28 { assert(p[28] == rec(0xCE05, 0xCE1F, H3)); assert(p[29] == rec(0xCE20, 0xCE20, H2));
        } else if i == 29 { assert(p[29] == rec(0xCE20, 0xCE20, H2)); assert(p[30] == rec(0xCE21, 0xCE3B, H3));
        } else if i == 30 { assert(p[30] == rec(0xCE21, 0xCE3B, H3)); assert(p[31] == rec(0xCE3C, 0xCE3C, H2));
        } else if i == 31 { assert(p[31] == rec(0xCE3C, 0xCE3C, H2)); assert(p[32] == rec(0xCE3D, 0xCE57, H3));
        } else if i == 32 { assert(p[32] == rec(0xCE3D, 0xCE57, H3)); assert(p[33] == rec(0xCE58, 0xCE58, H2));
        } else if i == 33 { assert(p[33] == rec(0xCE58, 0xCE58, H2)); assert(p[34] == rec(0xCE59, 0xCE73, H3));
        } else if i == 34 { assert(p[34] == rec(0xCE59, 0xCE73, H3)); assert(p[35] == rec(0xCE74, 0xCE74, H2));
        } else if i == 35 { assert(p[35] == rec(0xCE74, 0xCE74, H2)); assert(p[36] == rec(0xCE75, 0xCE8F, H3));
        } else if i == 36 { assert(p[36] == rec(0xCE75, 0xCE8F, H3)); assert(p[37] == rec(0xCE90, 0xCE90, H2));
        } else if i == 37 { assert(p[37] == rec(0xCE90, 0xCE90, H2)); assert(p[38] == rec(0xCE91, 0xCEAB, H3));
        } else if i == 38 { assert(p[38] == rec(0xCE91, 0xCEAB, H3)); assert(p[39] == rec(0xCEAC, 0xCEAC, H2));
        } else if i == 39 { assert(p[39] == rec(0xCEAC, 0xCEAC, H2)); assert(p[40] == rec(0xCEAD, 0xCEC7, H3));
        } else if i == 40 { assert(p[40] == rec(0xCEAD, 0xCEC7, H3)); assert(p[41] == rec(0xCEC8, 0xCEC8, H2));
        } else if i == 41 { assert(p[41] == rec(0xCEC8, 0xCEC8, H2)); assert(p[42] == rec(0xCEC9, 0xCEE3, H3));
        } else if i == 42 { assert(p[42] == rec(0xCEC9, 0xCEE3, H3)); assert(p[43] == rec(0xCEE4, 0xCEE4, H2));
        } else if i == 43 { assert(p[43] == rec(0xCEE4, 0xCEE4, H2)); assert(p[44] == rec(0xCEE5, 0xCEFF, H3));
        } else if i == 44 { assert(p[44] == rec(0xCEE5, 0xCEFF, H3)); assert(p[45] == rec(0xCF00, 0xCF00, H2));
        } else if i == 45 { assert(p[45] == rec(0xCF00, 0xCF00, H2)); assert(p[46] == rec(0xCF01, 0xCF1B, H3));
        } else if i == 46 { assert(p[46] == rec(0xCF01, 0xCF1B, H3)); assert(p[47] == rec(0xCF1C, 0xCF1C, H2));
        } else if i == 47 { assert(p[47] == rec(0xCF1C, 0xCF1C, H2)); assert(p[48] == rec(0xCF1D, 0xCF37, H3));
        } else if i == 48 { assert(p[48] == rec(0xCF1D, 0xCF37, H3)); assert(p[49] == rec(0xCF38, 0xCF38, H2));
        } else if i == 49 { assert(p[49] == rec(0xCF38, 0xCF38, H2));
        }
    }
    assert forall|i: int|
        #![trigger p[i], p[i + 1]]
        0 <= i && i + 1 < p.len() implies p[i].end < p[i + 1].start by {}
    assert(p[0] == rec(0xCC7D, 0xCC97, H3));
    assert(p[49] == rec(0xCF38, 0xCF38, H2));
}

/// The part's length, order and endpoints.
#[verifier::rlimit(100)]
#[verifier::spinoff_prover]
proof fn lemma_part38_sorted()
    ensures
        records_part38().len() == 50,
        records_sorted(records_part38()),
        records_part38()[0].start == 0xCF39,
        records_part38()[49].end == 0xD1F4,
{
    let p = records_part38();
    assert forall|i: int|
        0 <= i < p.len() implies ((#[trigger] p[i]).start <= p[i].end && p[i].end <= 0x10FFFF && (
    i + 1 < p.len() ==> p[i].end < p[i + 1].start)) by {
        if i == 0 { assert(p[0] == rec(0xCF39, 0xCF53, H3)); assert(p[1] == rec(0xCF54, 0xCF54, H2));
        } else if i == 1 { assert(p[1] == rec(0xCF54, 0xCF54, H2)); assert(p[2] == rec(0xCF55, 0xCF6F, H3));
        } else if i == 2 { assert(p[2] == rec(0xCF55, 0xCF6F, H3)); assert(p[3] == rec(0xCF70, 0xCF70, H2));
        } else if i == 3 { assert(p[3] == rec(0xCF70, 0xCF70, H2)); assert(p[4] == rec(0xCF71, 0xCF8B, H3));
        } else if i == 4 { assert(p[4] == rec(0xCF71, 0xCF8B, H3)); assert(p[5] == rec(0xCF8C, 0xCF8C, H2));
        } else if i == 5 { assert(p[5] == rec(0xCF8C, 0xCF8C, H2)); assert(p[6] == rec(0xCF8D, 0xCFA7, H3));
        } else if i == 6 { assert(p[6] == rec(0xCF8D, 0xCFA7, H3)); assert(p[7] == rec(0xCFA8, 0xCFA8, H2));
        } else if i == 7 { assert(p[7] == rec(0xCFA8, 0xCFA8, H2)); assert(p[8] == rec(0xCFA9, 0xCFC3, H3));
        } else if i == 8 { assert(p[8] == rec(0xCFA9, 0xCFC3, H3)); assert(p[9] == rec(0xCFC4, 0xCFC4, H2));
        } else if i == 9 { assert(p[9] == rec(0xCFC4, 0xCFC4, H2)); assert(p[10] == rec(0xCFC5, 0xCFDF, H3));
        } else if i == 10 { assert(p[10] == rec(0xCFC5, 0xCFDF, H3)); assert(p[11] == rec(0xCFE0, 0xCFE0, H2));
        } else if i == 11 { assert(p[11] == rec(0xCFE0, 0xCFE0, H2)); assert(p[12] == rec(0xCFE1, 0xCFFB, H3));
        } else if i == 12 { assert(p[12] == rec(0xCFE1, 0xCFFB, H3)); assert(p[13] == rec(0xCFFC, 0xCFFC, H2));
        } else if i == 13 { assert(p[13] == rec(0xCFFC, 0xCFFC, H2)); assert(p[14] == rec(0xCFFD, 0xD017, H3));
        } else if i == 14 { assert(p[14] == rec(0xCFFD, 0xD017, H3)); assert(p[15] == rec(0xD018, 0xD018, H2));
        } else if i == 15 { assert(p[15] == rec(0xD018, 0xD018, H2)); assert(p[16] == rec(0xD019, 0xD033, H3));
        } else if i == 16 { assert(p[16] == rec(0xD019, 0xD033, H3)); assert(p[17] == rec(0xD034, 0xD034, H2));
        } else if i == 17 { assert(p[17] == rec(0xD034, 0xD034, H2)); assert(p[18] == rec(0xD035, 0xD04F, H3));
        } else if i == 18 { assert(p[18] == rec(0xD035, 0xD04F, H3)); assert(p[19] == rec(0xD050, 0xD050, H2));
        } else if i == 19 { assert(p[19] == rec(0xD050, 0xD050, H2)); assert(p[20] == rec(0xD051, 0xD06B, H3));
        } else if i == 20 { assert(p[20] == rec(0xD051, 0xD06B, H3)); assert(p[21] == rec(0xD06C, 0xD06C, H2));
        } else if i == 21 { assert(p[21] == rec(0xD06C, 0xD06C, H2)); assert(p[22] == rec(0xD06D, 0xD087, H3));
        } else if i == 22 { assert(p[22] == rec(0xD06D, 0xD087, H3)); assert(p[23] == rec(0xD088, 0xD088, H2));
        } else if i == 23 { assert(p[23] == rec(0xD088, 0xD088, H2)); assert(p[24] == rec(0xD089, 0xD0A3, H3));
        } else if i == 24 { assert(p[24] == rec(0xD089, 0xD0A3, H3)); assert(p[25] == rec(0xD0A4, 0xD0A4, H2));
        } else if i == 25 { assert(p[25] == rec(0xD0A4, 0xD0A4, H2)); assert(p[26] == rec(0xD0A5, 0xD0BF, H3));
        } else if i == 26 { assert(p[26] == rec(0xD0A5, 0xD0BF, H3)); assert(p[27] == rec(0xD0C0, 0xD0C0, H2));
        } else if i == 27 { assert(p[27] == rec(0xD0C0, 0xD0C0, H2)); assert(p[28] == rec(0xD0C1, 0xD0DB, H3));
        } else if i == 28 { assert(p[28] == rec(0xD0C1, 0xD0DB, H3)); assert(p[29] == rec(0xD0DC, 0xD0DC, H2));
        } else if i == 29 { assert(p[29] == rec(0xD0DC, 0xD0DC, H2)); assert(p[30] == rec(0xD0DD, 0xD0F7, H3));
        } else if i == 30 { assert(p[30] == rec(0xD0DD, 0xD0F7, H3)); assert(p[31] == rec(0xD0F8, 0xD0F8, H2));
        } else if i == 31 { assert(p[31] == rec(0xD0F8, 0xD0F8, H2)); assert(p[32] == rec(0xD0F9, 0xD113, H3));
        } else if i == 32 { assert(p[32] == rec(0xD0F9, 0xD113, H3)); assert(p[33] == rec(0xD114, 0xD114, H2));
        } else if i == 33 { assert(p[33] == rec(0xD114, 0xD114, H2)); assert(p[34] == rec(0xD115, 0xD12F, H3));
        } else if i == 34 { assert(p[34] == rec(0xD115, 0xD12F, H3)); assert(p[35] == rec(0xD130, 0xD130, H2));
        } else if i == 35 { assert(p[35] == rec(0xD130, 0xD130, H2)); assert(p[36] == rec(0xD131, 0xD14B, H3));
        } else if i == 36 { assert(p[36] == rec(0xD131, 0xD14B, H3)); assert(p[37] == rec(0xD14C, 0xD14C, H2));
        } else if i == 37 { assert(p[37] == rec(0xD14C, 0xD14C, H2)); assert(p[38] == rec(0xD14D, 0xD167, H3));
        } else if i == 38 { assert(p[38] == rec(0xD14D, 0xD167, H3)); assert(p[39] == rec(0xD168, 0xD168, H2));
        } else if i == 39 { assert(p[39] == rec(0xD168, 0xD168, H2)); assert(p[40] == rec(0xD169, 0xD183, H3));
        } else if i == 40 { assert(p[40] == rec(0xD169, 0xD183, H3)); assert(p[41] == rec(0xD184, 0xD184, H2));
        } else if i == 41 { assert(p[41] == rec(0xD184, 0xD184, H2)); assert(p[42] == rec(0xD185, 0xD19F, H3));
        } else if i == 42 { assert(p[42] == rec(0xD185, 0xD19F, H3)); assert(p[43] == rec(0xD1A0, 0xD1A0, H2));
        } else if i == 43 { assert(p[43] == rec(0xD1A0, 0xD1A0, H2)); assert(p[44] == rec(0xD1A1, 0xD1BB, H3));
        } else if i == 44 { assert(p[44] == rec(0xD1A1, 0xD1BB, H3)); assert(p[45] == rec(0xD1BC, 0xD1BC, H2));
        } else if i == 45 { assert(p[45] == rec(0xD1BC, 0xD1BC, H2)); assert(p[46] == rec(0xD1BD, 0xD1D7, H3));
        } else if i == 46 { assert(p[46] == rec(0xD1BD, 0xD1D7, H3)); assert(p[47] == rec(0xD1D8, 0xD1D8, H2));
        } else if i == 47 { assert(p[47] == rec(0xD1D8, 0xD1D8, H2)); assert(p[48] == rec(0xD1D9, 0xD1F3, H3));
        } else if i == 48 { assert(p[48] == rec(0xD1D9, 0xD1F3, H3)); assert(p[49] == rec(0xD1F4, 0xD1F4, H2));
        } else if i == 49 { assert(p[49] == rec(0xD1F4, 0xD1F4, H2));
        }
    }
    assert forall|i: int|
        #![trigger p[i], p[i + 1]]
        0 <= i && i + 1 < p.len() implies p[i].end < p[i + 1].start by {}
    assert(p[0] == rec(0xCF39, 0xCF53, H3));
    assert(p[49] == rec(0xD1F4, 0xD1F4, H2));
}

/// The part's length, order and endpoints.
#[verifier::rlimit(100)]
#[verifier::spinoff_prover]
proof fn lemma_part39_sorted()
    ensures
        records_part39().len() == 50,
        records_sorted(records_part39()),
        records_part39()[0].start == 0xD1F5,
        records_part39()[49].end == 0xD4B0,
{
    let p = records_part39();
    assert forall|i: int|
        0 <= i < p.len() implies ((#[trigger] p[i]).start <= p[i].end && p[i].end <= 0x10FFFF && (
    i + 1 < p.len() ==> p[i].end < p[i + 1].start)) by {
        if i == 0 { assert(p[0] == rec(0xD1F5, 0xD20F, H3)); assert(p[1] == rec(0xD210, 0xD210, H2));
        } else if i == 1 { assert(p[1] == rec(0xD210, 0xD210, H2)); assert(p[2] == rec(0xD211, 0xD22B, H3));
        } else if i == 2 { assert(p[2] == rec(0xD211, 0xD22B, H3)); assert(p[3] == rec(0xD22C, 0xD22C, H2));
        } else if i == 3 { assert(p[3] == rec(0xD22C, 0xD22C, H2)); assert(p[4] == rec(0xD22D, 0xD247, H3));
        } else if i == 4 { assert(p[4] == rec(0xD22D, 0xD247, H3)); assert(p[5] == rec(0xD248, 0xD248, H2));
        } else if i == 5 { assert(p[5] == rec(0xD248, 0xD248, H2)); assert(p[6] == rec(0xD249, 0xD263, H3));
        } else if i == 6 { assert(p[6] == rec(0xD249, 0xD263, H3)); assert(p[7] == rec(0xD264, 0xD264, H2));
        } else if i == 7 { assert(p[7] == rec(0xD264, 0xD264, H2)); assert(p[8] == rec(0xD265, 0xD27F, H3));
        } else if i == 8 { assert(p[8] == rec(0xD265, 0xD27F, H3)); assert(p[9] == rec(0xD280, 0xD280, H2));
        } else if i == 9 { assert(p[9] == rec(0xD280, 0xD280, H2)); assert(p[10] == rec(0xD281, 0xD29B, H3));
        } else if i == 10 { assert(p[10] == rec(0xD281, 0xD29B, H3)); assert(p[11] == rec(0xD29C, 0xD29C, H2));
        } else if i == 11 { assert(p[11] == rec(0xD29C, 0xD29C, H2)); assert(p[12] == rec(0xD29D, 0xD2B7, H3));
        } else if i == 12 { assert(p[12] == rec(0xD29D, 0xD2B7, H3)); assert(p[13] == rec(0xD2B8, 0xD2B8, H2));
        } else if i == 13 { assert(p[13] == rec(0xD2B8, 0xD2B8, H2)); assert(p[14] == rec(0xD2B9, 0xD2D3, H3));
        } else if i == 14 { assert(p[14] == rec(0xD2B9, 0xD2D3, H3)); assert(p[15] == rec(0xD2D4, 0xD2D4, H2));
        } else if i == 15 { assert(p[15] == rec(0xD2D4, 0xD2D4, H2)); assert(p[16] == rec(0xD2D5, 0xD2EF, H3));
        } else if i == 16 { assert(p[16] == rec(0xD2D5, 0xD2EF, H3)); assert(p[17] == rec(0xD2F0, 0xD2F0, H2));
        } else if i == 17 { assert(p[17] == rec(0xD2F0, 0xD2F0, H2)); assert(p[18] == rec(0xD2F1, 0xD30B, H3));
        } else if i == 18 { assert(p[18] == rec(0xD2F1, 0xD30B, H3)); assert(p[19] == rec(0xD30C, 0xD30C, H2));
        } else if i == 19 { assert(p[19] == rec(0xD30C, 0xD30C, H2)); assert(p[20] == rec(0xD30D, 0xD327, H3));
        } else if i == 20 { assert(p[20] == rec(0xD30D, 0xD327, H3)); assert(p[21] == rec(0xD328, 0xD328, H2));
        } else if i == 21 { assert(p[21] == rec(0xD328, 0xD328, H2)); assert(p[22] == rec(0xD329, 0xD343, H3));
        } else if i == 22 { assert(p[22] == rec(0xD329, 0xD343, H3)); assert(p[23] == rec(0xD344, 0xD344, H2));
        } else if i == 23 { assert(p[23] == rec(0xD344, 0xD344, H2)); assert(p[24] == rec(0xD345, 0xD35F, H3));
        } else if i == 24 { assert(p[24] == rec(0xD345, 0xD35F, H3)); assert(p[25] == rec(0xD360, 0xD360, H2));
        } else if i == 25 { assert(p[25] == rec(0xD360, 0xD360, H2)); assert(p[26] == rec(0xD361, 0xD37B, H3));
        } else if i == 26 { assert(p[26] == rec(0xD361, 0xD37B, H3)); assert(p[27] == rec(0xD37C, 0xD37C, H2));
        } else if i == 27 { assert(p[27] == rec(0xD37C, 0xD37C, H2)); assert(p[28] == rec(0xD37D, 0xD397, H3));
        } else if i == 28 { assert(p[28] == rec(0xD37D, 0xD397, H3)); assert(p[29] == rec(0xD398, 0xD398, H2));
        } else if i == 29 { assert(p[29] == rec(0xD398, 0xD398, H2)); assert(p[30] == rec(0xD399, 0xD3B3, H3));
        } else if i == 30 { assert(p[30] == rec(0xD399, 0xD3B3, H3)); assert(p[31] == rec(0xD3B4, 0xD3B4, H2));
        } else if i == 31 { assert(p[31] == rec(0xD3B4, 0xD3B4, H2)); assert(p[32] == rec(0xD3B5, 0xD3CF, H3));
        } else if i == 32 { assert(p[32] == rec(0xD3B5, 0xD3CF, H3)); assert(p[33] == rec(0xD3D0, 0xD3D0, H2));
        } else if i == 33 { assert(p[33] == rec(0xD3D0, 0xD3D0, H2)); assert(p[34] == rec(0xD3D1, 0xD3EB, H3));
        } else if i == 34 { assert(p[34] == rec(0xD3D1, 0xD3EB, H3)); assert(p[35] == rec(0xD3EC, 0xD3EC, H2));
        } else if i == 35 { assert(p[35] == rec(0xD3EC, 0xD3EC, H2)); assert(p[36] == rec(0xD3ED, 0xD407, H3));
        } else if i == 36 { assert(p[36] == rec(0xD3ED, 0xD407, H3)); assert(p[37] == rec(0xD408, 0xD408, H2));
        } else if i == 37 { assert(p[37] == rec(0xD408, 0xD408, H2)); assert(p[38] == rec(0xD409, 0xD423, H3));
        } else if i == 38 { assert(p[38] == rec(0xD409, 0xD423, H3)); assert(p[39] == rec(0xD424, 0xD424, H2));
        } else if i == 39 { assert(p[39] == rec(0xD424, 0xD424, H2)); assert(p[40] == rec(0xD425, 0xD43F, H3));
        } else if i == 40 { assert(p[40] == rec(0xD425, 0xD43F, H3)); assert(p[41] == rec(0xD440, 0xD440, H2));
        } else if i == 41 { assert(p[41] == rec(0xD440, 0xD440, H2)); assert(p[42] == rec(0xD441, 0xD45B, H3));
        } else if i == 42 { assert(p[42] == rec(0xD441, 0xD45B, H3)); assert(p[43] == rec(0xD45C, 0xD45C, H2));
        } else if i == 43 { assert(p[43] == rec(0xD45C, 0xD45C, H2)); assert(p[44] == rec(0xD45D, 0xD477, H3));
        } else if i == 44 { assert(p[44] == rec(0xD45D, 0xD477, H3)); assert(p[45] == rec(0xD478, 0xD478, H2));
        } else if i == 45 { assert(p[45] == rec(0xD478, 0xD478, H2)); assert(p[46] == rec(0xD479, 0xD493, H3));
        } else if i == 46 { assert(p[46] == rec(0xD479, 0xD493, H3)); assert(p[47] == rec(0xD494, 0xD494, H2));
        } else if i == 47 { assert(p[47] == rec(0xD494, 0xD494, H2)); assert(p[48] == rec(0xD495, 0xD4AF, H3));
        } else if i == 48 { assert(p[48] == rec(0xD495, 0xD4AF, H3)); assert(p[49] == rec(0xD4B0, 0xD4B0, H2));
        } else if i == 49 { assert(p[49] == rec(0xD4B0, 0xD4B0, H2));
        }
    }
    assert forall|i: int|
        #![trigger p[i], p[i + 1]]
        0 <= i && i + 1 < p.len() implies p[i].end < p[i + 1].start by {}
    assert(p[0] == rec(0xD1F5, 0xD20F, H3));
    assert(p[49] == rec(0xD4B0, 0xD4B0, H2));
}

/// The part's length, order and endpoints.
#[verifier::rlimit(100)]
#[verifier::spinoff_prover]
proof fn lemma_part40_sorted()
    ensures
        records_part40().len() == 50,
        records_sorted(records_part40()),
        records_part40()[0].start == 0xD4B1,
        records_part40()[49].end == 0xD76C,
{
    let p = records_part40();
    assert forall|i: int|
        0 <= i < p.len() implies ((#[trigger] p[i]).start <= p[i].end && p[i].end <= 0x10FFFF && (
    i + 1 < p.len() ==> p[i].end < p[i + 1].start)) by {
        if i == 0 { assert(p[0] == rec(0xD4B1, 0xD4CB, H3)); assert(p[1] == rec(0xD4CC, 0xD4CC, H2));
        } else if i == 1 { assert(p[1] == rec(0xD4CC, 0xD4CC, H2)); assert(p[2] == rec(0xD4CD, 0xD4E7, H3));
        } else if i == 2 { assert(p[2] == rec(0xD4CD, 0xD4E7, H3)); assert(p[3] == rec(0xD4E8, 0xD4E8, H2));
        } else if i == 3 { assert(p[3] == rec(0xD4E8, 0xD4E8, H2)); assert(p[4] == rec(0xD4E9, 0xD503, H3));
        } else if i == 4 { assert(p[4] == rec(0xD4E9, 0xD503, H3)); assert(p[5] == rec(0xD504, 0xD504, H2));
        } else if i == 5 { assert(p[5] == rec(0xD504, 0xD504, H2)); assert(p[6] == rec(0xD505, 0xD51F, H3));
        } else if i == 6 { assert(p[6] == rec(0xD505, 0xD51F, H3)); assert(p[7] == rec(0xD520, 0xD520, H2));
        } else if i == 7 { assert(p[7] == rec(0xD520, 0xD520, H2)); assert(p[8] == rec(0xD521, 0xD53B, H3));
        } else if i == 8 { assert(p[8] == rec(0xD521, 0xD53B, H3)); assert(p[9] == rec(0xD53C, 0xD53C, H2));
        } else if i == 9 { assert(p[9] == rec(0xD53C, 0xD53C, H2)); assert(p[10] == rec(0xD53D, 0xD557, H3));
        } else if i == 10 { assert(p[10] == rec(0xD53D, 0xD557, H3)); assert(p[11] == rec(0xD558, 0xD558, H2));
        } else if i == 11 { assert(p[11] == rec(0xD558, 0xD558, H2)); assert(p[12] == rec(0xD559, 0xD573, H3));
        } else if i == 12 { assert(p[12] == rec(0xD559, 0xD573, H3)); assert(p[13] == rec(0xD574, 0xD574, H2));
        } else if i == 13 { assert(p[13] == rec(0xD574, 0xD574, H2)); assert(p[14] == rec(0xD575, 0xD58F, H3));
        } else if i == 14 { assert(p[14] == rec(0xD575, 0xD58F, H3)); assert(p[15] == rec(0xD590, 0xD590, H2));
        } else if i == 15 { assert(p[15] == rec(0xD590, 0xD590, H2)); assert(p[16] == rec(0xD591, 0xD5AB, H3));
        } else if i == 16 { assert(p[16] == rec(0xD591, 0xD5AB, H3)); assert(p[17] == rec(0xD5AC, 0xD5AC, H2));
        } else if i == 17 { assert(p[17] == rec(0xD5AC, 0xD5AC, H2)); assert(p[18] == rec(0xD5AD, 0xD5C7, H3));
        } else if i == 18 { assert(p[18] == rec(0xD5AD, 0xD5C7, H3)); assert(p[19] == rec(0xD5C8, 0xD5C8, H2));
        } else if i == 19 { assert(p[19] == rec(0xD5C8, 0xD5C8, H2)); assert(p[20] == rec(0xD5C9, 0xD5E3, H3));
        } else if i == 20 { assert(p[20] == rec(0xD5C9, 0xD5E3, H3)); assert(p[21] == rec(0xD5E4, 0xD5E4, H2));
        } else if i == 21 { assert(p[21] == rec(0xD5E4, 0xD5E4, H2)); assert(p[22] == rec(0xD5E5, 0xD5FF, H3));
        } else if i == 22 { assert(p[22] == rec(0xD5E5, 0xD5FF, H3)); assert(p[23] == rec(0xD600, 0xD600, H2));
        } else if i == 23 { assert(p[23] == rec(0xD600, 0xD600, H2)); assert(p[24] == rec(0xD601, 0xD61B, H3));
        } else if i == 24 { assert(p[24] == rec(0xD601, 0xD61B, H3)); assert(p[25] == rec(0xD61C, 0xD61C, H2));
        } else if i == 25 { assert(p[25] == rec(0xD61C, 0xD61C, H2)); assert(p[26] == rec(0xD61D, 0xD637, H3));
        } else if i == 26 { assert(p[26] == rec(0xD61D, 0xD637, H3)); assert(p[27] == rec(0xD638, 0xD638, H2));
        } else if i == 27 { assert(p[27] == rec(0xD638, 0xD638, H2)); assert(p[28] == rec(0xD639, 0xD653, H3));
        } else if i == 28 { assert(p[28] == rec(0xD639, 0xD653, H3)); assert(p[29] == rec(0xD654, 0xD654, H2));
        } else if i == 29 { assert(p[29] == rec(0xD654, 0xD654, H2)); assert(p[30] == rec(0xD655, 0xD66F, H3));
        } else if i == 30 { assert(p[30] == rec(0xD655, 0xD66F, H3)); assert(p[31] == rec(0xD670, 0xD670, H2));
        } else if i == 31 { assert(p[31] == rec(0xD670, 0xD670, H2)); assert(p[32] == rec(0xD671, 0xD68B, H3));
        } else if i == 32 { assert(p[32] == rec(0xD671, 0xD68B, H3)); assert(p[33] == rec(0xD68C, 0xD68C, H2));
        } else if i == 33 { assert(p[33] == rec(0xD68C, 0xD68C, H2)); assert(p[34] == rec(0xD68D, 0xD6A7, H3));
        } else if i == 34 { assert(p[34] == rec(0xD68D, 0xD6A7, H3)); assert(p[35] == rec(0xD6A8, 0xD6A8, H2));
        } else if i == 35 { assert(p[35] == rec(0xD6A8, 0xD6A8, H2)); assert(p[36] == rec(0xD6A9, 0xD6C3, H3));
        } else if i == 36 { assert(p[36] == rec(0xD6A9, 0xD6C3, H3)); assert(p[37] == rec(0xD6C4, 0xD6C4, H2));
        } else if i == 37 { assert(p[37] == rec(0xD6C4, 0xD6C4, H2)); assert(p[38] == rec(0xD6C5, 0xD6DF, H3));
        } else if i == 38 { assert(p[38] == rec(0xD6C5, 0xD6DF, H3)); assert(p[39] == rec(0xD6E0, 0xD6E0, H2));
        } else if i == 39 { assert(p[39] == rec(0xD6E0, 0xD6E0, H2)); assert(p[40] == rec(0xD6E1, 0xD6FB, H3));
        } else if i == 40 { assert(p[40] == rec(0xD6E1, 0xD6FB, H3)); assert(p[41] == rec(0xD6FC, 0xD6FC, H2));
        } else if i == 41 { assert(p[41] == rec(0xD6FC, 0xD6FC, H2)); assert(p[42] == rec(0xD6FD, 0xD717, H3));
        } else if i == 42 { assert(p[42] == rec(0xD6FD, 0xD717, H3)); assert(p[43] == rec(0xD718, 0xD718, H2));
        } else if i == 43 { assert(p[43] == rec(0xD718, 0xD718, H2)); assert(p[44] == rec(0xD719, 0xD733, H3));
        } else if i == 44 { assert(p[44] == rec(0xD719, 0xD733, H3)); assert(p[45] == rec(0xD734, 0xD734, H2));
        } else if i == 45 { assert(p[45] == rec(0xD734, 0xD734, H2)); assert(p[46] == rec(0xD735, 0xD74F, H3));
        } else if i == 46 { assert(p[46] == rec(0xD735, 0xD74F, H3)); assert(p[47] == rec(0xD750, 0xD750, H2));
        } else if i == 47 { assert(p[47] == rec(0xD750, 0xD750, H2)); assert(p[48] == rec(0xD751, 0xD76B, H3));
        } else if i == 48 { assert(p[48] == rec(0xD751, 0xD76B, H3)); assert(p[49] == rec(0xD76C, 0xD76C, H2));
        } else if i == 49 { assert(p[49] == rec(0xD76C, 0xD76C, H2));
        }
    }
    assert forall|i: int|
        #![trigger p[i], p[i + 1]]
        0 <= i && i + 1 < p.len() implies p[i].end < p[i + 1].start by {}
    assert(p[0] == rec(0xD4B1, 0xD4CB, H3));
    assert(p[49] == rec(0xD76C, 0xD76C, H2));
}

/// The part's length, order and endpoints.
#[verifier::rlimit(100)]
#[verifier::spinoff_prover]
proof fn lemma_part41_sorted()
    ensures
        records_part41().len() == 50,
        records_sorted(records_part41()),
        records_part41()[0].start == 0xD76D,
        records_part41()[49].end == 0xFE3F,
{
    let p = records_part41();
    assert forall|i: int|
        0 <= i < p.len() implies ((#[trigger] p[i]).start <= p[i].end && p[i].end <= 0x10FFFF && (
    i + 1 < p.len() ==> p[i].end < p[i + 1].start)) by {
        if i == 0 { assert(p[0] == rec(0xD76D, 0xD787, H3)); assert(p[1] == rec(0xD788, 0xD788, H2));
        } else if i == 1 { assert(p[1] == rec(0xD788, 0xD788, H2)); assert(p[2] == rec(0xD789, 0xD7A3, H3));
        } else if i == 2 { assert(p[2] == rec(0xD789, 0xD7A3, H3)); assert(p[3] == rec(0xD7B0, 0xD7C6, JV));
        } else if i == 3 { assert(p[3] == rec(0xD7B0, 0xD7C6, JV)); assert(p[4] == rec(0xD7CB, 0xD7FB, JT));
        } else if i == 4 { assert(p[4] == rec(0xD7CB, 0xD7FB, JT)); assert(p[5] == rec(0xD800, 0xDFFF, SG));
        } else if i == 5 { assert(p[5] == rec(0xD800, 0xDFFF, SG)); assert(p[6] == rec(0xF900, 0xFAFF, ID));
        } else if i == 6 { assert(p[6] == rec(0xF900, 0xFAFF, ID)); assert(p[7] == rec(0xFB00, 0xFB06, AL));
        } else if i == 7 { assert(p[7] == rec(0xFB00, 0xFB06, AL)); assert(p[8] == rec(0xFB13, 0xFB17, AL));
        } else if i == 8 { assert(p[8] == rec(0xFB13, 0xFB17, AL)); assert(p[9] == rec(0xFB1D, 0xFB1D, HL));
        } else if i == 9 { assert(p[9] == rec(0xFB1D, 0xFB1D, HL)); assert(p[10] == rec(0xFB1E, 0xFB1E, CM));
        } else if i == 10 { assert(p[10] == rec(0xFB1E, 0xFB1E, CM)); assert(p[11] == rec(0xFB1F, 0xFB28, HL));
        } else if i == 11 { assert(p[11] == rec(0xFB1F, 0xFB28, HL)); assert(p[12] == rec(0xFB29, 0xFB29, AL));
        } else if i == 12 { assert(p[12] == rec(0xFB29, 0xFB29, AL)); assert(p[13] == rec(0xFB2A, 0xFB36, HL));
        } else if i == 13 { assert(p[13] == rec(0xFB2A, 0xFB36, HL)); assert(p[14] == rec(0xFB38, 0xFB3C, HL));
        } else if i == 14 { assert(p[14] == rec(0xFB38, 0xFB3C, HL)); assert(p[15] == rec(0xFB3E, 0xFB3E, HL));
        } else if i == 15 { assert(p[15] == rec(0xFB3E, 0xFB3E, HL)); assert(p[16] == rec(0xFB40, 0xFB41, HL));
        } else if i == 16 { assert(p[16] == rec(0xFB40, 0xFB41, HL)); assert(p[17] == rec(0xFB43, 0xFB44, HL));
        } else if i == 17 { assert(p[17] == rec(0xFB43, 0xFB44, HL)); assert(p[18] == rec(0xFB46, 0xFB4F, HL));
        } else if i == 18 { assert(p[18] == rec(0xFB46, 0xFB4F, HL)); assert(p[19] == rec(0xFB50, 0xFBC2, AL));
        } else if i == 19 { assert(p[19] == rec(0xFB50, 0xFBC2, AL)); assert(p[20] == rec(0xFBD3, 0xFD3D, AL));
        } else if i == 20 { assert(p[20] == rec(0xFBD3, 0xFD3D, AL)); assert(p[21] == rec(0xFD3E, 0xFD3E, CL));
        } else if i == 21 { assert(p[21] == rec(0xFD3E, 0xFD3E, CL)); assert(p[22] == rec(0xFD3F, 0xFD3F, OP));
        } else if i == 22 { assert(p[22] == rec(0xFD3F, 0xFD3F, OP)); assert(p[23] == rec(0xFD40, 0xFD8F, AL));
        } else if i == 23 { assert(p[23] == rec(0xFD40, 0xFD8F, AL)); assert(p[24] == rec(0xFD92, 0xFDC7, AL));
        } else if i == 24 { assert(p[24] == rec(0xFD92, 0xFDC7, AL)); assert(p[25] == rec(0xFDCF, 0xFDCF, AL));
        } else if i == 25 { assert(p[25] == rec(0xFDCF, 0xFDCF, AL)); assert(p[26] == rec(0xFDF0, 0xFDFB, AL));
        } else if i == 26 { assert(p[26] == rec(0xFDF0, 0xFDFB, AL)); assert(p[27] == rec(0xFDFC, 0xFDFC, PO));
        } else if i == 27 { assert(p[27] == rec(0xFDFC, 0xFDFC, PO)); assert(p[28] == rec(0xFDFD, 0xFDFF, AL));
        } else if i == 28 { assert(p[28] == rec(0xFDFD, 0xFDFF, AL)); assert(p[29] == rec(0xFE00, 0xFE0F, CM));
        } else if i == 29 { assert(p[29] == rec(0xFE00, 0xFE0F, CM)); assert(p[30] == rec(0xFE10, 0xFE10, IS));
        } else if i == 30 { assert(p[30] == rec(0xFE10, 0xFE10, IS)); assert(p[31] == rec(0xFE11, 0xFE12, CL));
        } else if i == 31 { assert(p[31] == rec(0xFE11, 0xFE12, CL)); assert(p[32] == rec(0xFE13, 0xFE14, IS));
        } else if i == 32 { assert(p[32] == rec(0xFE13, 0xFE14, IS)); assert(p[33] == rec(0xFE15, 0xFE16, EX));
        } else if i == 33 { assert(p[33] == rec(0xFE15, 0xFE16, EX)); assert(p[34] == rec(0xFE17, 0xFE17, OP));
        } else if i == 34 { assert(p[34] == rec(0xFE17, 0xFE17, OP)); assert(p[35] == rec(0xFE18, 0xFE18, CL));
        } else if i == 35 { assert(p[35] == rec(0xFE18, 0xFE18, CL)); assert(p[36] == rec(0xFE19, 0xFE19, IN));
        } else if i == 36 { assert(p[36] == rec(0xFE19, 0xFE19, IN)); assert(p[37] == rec(0xFE20, 0xFE2F, CM));
        } else if i == 37 { assert(p[37] == rec(0xFE20, 0xFE2F, CM)); assert(p[38] == rec(0xFE30, 0xFE34, ID));
        } else if i == 38 { assert(p[38] == rec(0xFE30, 0xFE34, ID)); assert(p[39] == rec(0xFE35, 0xFE35, OP));
        } else if i == 39 { assert(p[39] == rec(0xFE35, 0xFE35, OP)); assert(p[40] == rec(0xFE36, 0xFE36, CL));
        } else if i == 40 { assert(p[40] == rec(0xFE36, 0xFE36, CL)); assert(p[41] == rec(0xFE37, 0xFE37, OP));
        } else if i == 41 { assert(p[41] == rec(0xFE37, 0xFE37, OP)); assert(p[42] == rec(0xFE38, 0xFE38, CL));
        } else if i == 42 { assert(p[42] == rec(0xFE38, 0xFE38, CL)); assert(p[43] == rec(0xFE39, 0xFE39, OP));
        } else if i == 43 { assert(p[43] == rec(0xFE39, 0xFE39, OP)); assert(p[44] == rec(0xFE3A, 0xFE3A, CL));
        } else if i == 44 { assert(p[44] == rec(0xFE3A, 0xFE3A, CL)); assert(p[45] == rec(0xFE3B, 0xFE3B, OP));
        } else if i == 45 { assert(p[45] == rec(0xFE3B, 0xFE3B, OP)); assert(p[46] == rec(0xFE3C, 0xFE3C, CL));
        } else if i == 46 { assert(p[46] == rec(0xFE3C, 0xFE3C, CL)); assert(p[47] == rec(0xFE3D, 0xFE3D, OP));
        } else if i == 47 { assert(p[47] == rec(0xFE3D, 0xFE3D, OP)); assert(p[48] == rec(0xFE3E, 0xFE3E, CL));
        } else if i == 48 { assert(p[48] == rec(0xFE3E, 0xFE3E, CL)); assert(p[49] == rec(0xFE3F, 0xFE3F, OP));
        } else if i == 49 { assert(p[49] == rec(0xFE3F, 0xFE3F, OP));
        }
    }
    assert forall|i: int|
        #![trigger p[i], p[i + 1]]
        0 <= i && i + 1 < p.len() implies p[i].end < p[i + 1].start by {}
    assert(p[0] == rec(0xD76D, 0xD787, H3));
    assert(p[49] == rec(0xFE3F, 0xFE3F, OP));
}

/// The part's length, order and endpoints.
#[verifier::rlimit(100)]
#[verifier::spinoff_prover]
proof fn lemma_part42_sorted()
    ensures
        records_part42().len() == 50,
        records_sorted(records_part42()),
        records_part42()[0].start == 0xFE40,
        records_part42()[49].end == 0xFF5B,
{
    let p = records_part42();
    assert forall|i: int|
        0 <= i < p.len() implies ((#[trigger] p[i]).start <= p[i].end && p[i].end <= 0x10FFFF && (
    i + 1 < p.len() ==> p[i].end < p[i + 1].start)) by {
        if i == 0 { assert(p[0] == rec(0xFE40, 0xFE40, CL)); assert(p[1] == rec(0xFE41, 0xFE41, OP));
        } else if i == 1 { assert(p[1] == rec(0xFE41, 0xFE41, OP)); assert(p[2] == rec(0xFE42, 0xFE42, CL));
        } else if i == 2 { assert(p[2] == rec(0xFE42, 0xFE42, CL)); assert(p[3] == rec(0xFE43, 0xFE43, OP));
        } else if i == 3 { assert(p[3] == rec(0xFE43, 0xFE43, OP)); assert(p[4] == rec(0xFE44, 0xFE44, CL));
        } else if i == 4 { assert(p[4] == rec(0xFE44, 0xFE44, CL)); assert(p[5] == rec(0xFE45, 0xFE46, ID));
        } else if i == 5 { assert(p[5] == rec(0xFE45, 0xFE46, ID)); assert(p[6] == rec(0xFE47, 0xFE47, OP));
        } else if i == 6 { assert(p[6] == rec(0xFE47, 0xFE47, OP)); assert(p[7] == rec(0xFE48, 0xFE48, CL));
        } else if i == 7 { assert(p[7] == rec(0xFE48, 0xFE48, CL)); assert(p[8] == rec(0xFE49, 0xFE4F, ID));
        } else if i == 8 { assert(p[8] == rec(0xFE49, 0xFE4F, ID)); assert(p[9] == rec(0xFE50, 0xFE50, CL));
        } else if i == 9 { assert(p[9] == rec(0xFE50, 0xFE50, CL)); assert(p[10] == rec(0xFE51, 0xFE51, ID));
        } else if i == 10 { assert(p[10] == rec(0xFE51, 0xFE51, ID)); assert(p[11] == rec(0xFE52, 0xFE52, CL));
        } else if i == 11 { assert(p[11] == rec(0xFE52, 0xFE52, CL)); assert(p[12] == rec(0xFE54, 0xFE55, NS));
        } else if i == 12 { assert(p[12] == rec(0xFE54, 0xFE55, NS)); assert(p[13] == rec(0xFE56, 0xFE57, EX));
        } else if i == 13 { assert(p[13] == rec(0xFE56, 0xFE57, EX)); assert(p[14] == rec(0xFE58, 0xFE58, ID));
        } else if i == 14 { assert(p[14] == rec(0xFE58, 0xFE58, ID)); assert(p[15] == rec(0xFE59, 0xFE59, OP));
        } else if i == 15 { assert(p[15] == rec(0xFE59, 0xFE59, OP)); assert(p[16] == rec(0xFE5A, 0xFE5A, CL));
        } else if i == 16 { assert(p[16] == rec(0xFE5A, 0xFE5A, CL)); assert(p[17] == rec(0xFE5B, 0xFE5B, OP));
        } else if i == 17 { assert(p[17] == rec(0xFE5B, 0xFE5B, OP)); assert(p[18] == rec(0xFE5C, 0xFE5C, CL));
        } else if i == 18 { assert(p[18] == rec(0xFE5C, 0xFE5C, CL)); assert(p[19] == rec(0xFE5D, 0xFE5D, OP));
        } else if i == 19 { assert(p[19] == rec(0xFE5D, 0xFE5D, OP)); assert(p[20] == rec(0xFE5E, 0xFE5E, CL));
        } else if i == 20 { assert(p[20] == rec(0xFE5E, 0xFE5E, CL)); assert(p[21] == rec(0xFE5F, 0xFE66, ID));
        } else if i == 21 { assert(p[21] == rec(0xFE5F, 0xFE66, ID)); assert(p[22] == rec(0xFE68, 0xFE68, ID));
        } else if i == 22 { assert(p[22] == rec(0xFE68, 0xFE68, ID)); assert(p[23] == rec(0xFE69, 0xFE69, PR));
        } else if i == 23 { assert(p[23] == rec(0xFE69, 0xFE69, PR)); assert(p[24] == rec(0xFE6A, 0xFE6A, PO));
        } else if i == 24 { assert(p[24] == rec(0xFE6A, 0xFE6A, PO)); assert(p[25] == rec(0xFE6B, 0xFE6B, ID));
        } else if i == 25 { assert(p[25] == rec(0xFE6B, 0xFE6B, ID)); assert(p[26] == rec(0xFE70, 0xFE74, AL));
        } else if i == 26 { assert(p[26] == rec(0xFE70, 0xFE74, AL)); assert(p[27] == rec(0xFE76, 0xFEFC, AL));
        } else if i == 27 { assert(p[27] == rec(0xFE76, 0xFEFC, AL)); assert(p[28] == rec(0xFEFF, 0xFEFF, WJ));
        } else if i == 28 { assert(p[28] == rec(0xFEFF, 0xFEFF, WJ)); assert(p[29] == rec(0xFF01, 0xFF01, EX));
        } else if i == 29 { assert(p[29] == rec(0xFF01, 0xFF01, EX)); assert(p[30] == rec(0xFF02, 0xFF03, ID));
        } else if i == 30 { assert(p[30] == rec(0xFF02, 0xFF03, ID)); assert(p[31] == rec(0xFF04, 0xFF04, PR));
        } else if i == 31 { assert(p[31] == rec(0xFF04, 0xFF04, PR)); assert(p[32] == rec(0xFF05, 0xFF05, PO));
        } else if i == 32 { assert(p[32] == rec(0xFF05, 0xFF05, PO)); assert(p[33] == rec(0xFF06, 0xFF07, ID));
        } else if i == 33 { assert(p[33] == rec(0xFF06, 0xFF07, ID)); assert(p[34] == rec(0xFF08, 0xFF08, OP));
        } else if i == 34 { assert(p[34] == rec(0xFF08, 0xFF08, OP)); assert(p[35] == rec(0xFF09, 0xFF09, CL));
        } else if i == 35 { assert(p[35] == rec(0xFF09, 0xFF09, CL)); assert(p[36] == rec(0xFF0A, 0xFF0B, ID));
        } else if i == 36 { assert(p[36] == rec(0xFF0A, 0xFF0B, ID)); assert(p[37] == rec(0xFF0C, 0xFF0C, CL));
        } else if i == 37 { assert(p[37] == rec(0xFF0C, 0xFF0C, CL)); assert(p[38] == rec(0xFF0D, 0xFF0D, ID));
        } else if i == 38 { assert(p[38] == rec(0xFF0D, 0xFF0D, ID)); assert(p[39] == rec(0xFF0E, 0xFF0E, CL));
        } else if i == 39 { assert(p[39] == rec(0xFF0E, 0xFF0E, CL)); assert(p[40] == rec(0xFF0F, 0xFF19, ID));
        } else if i == 40 { assert(p[40] == rec(0xFF0F, 0xFF19, ID)); assert(p[41] == rec(0xFF1A, 0xFF1B, NS));
        } else if i == 41 { assert(p[41] == rec(0xFF1A, 0xFF1B, NS)); assert(p[42] == rec(0xFF1C, 0xFF1E, ID));
        } else if i == 42 { assert(p[42] == rec(0xFF1C, 0xFF1E, ID)); assert(p[43] == rec(0xFF1F, 0xFF1F, EX));
        } else if i == 43 { assert(p[43] == rec(0xFF1F, 0xFF1F, EX)); assert(p[44] == rec(0xFF20, 0xFF3A, ID));
        } else if i == 44 { assert(p[44] == rec(0xFF20, 0xFF3A, ID)); assert(p[45] == rec(0xFF3B, 0xFF3B, OP));
        } else if i == 45 { assert(p[45] == rec(0xFF3B, 0xFF3B, OP)); assert(p[46] == rec(0xFF3C, 0xFF3C, ID));
        } else if i == 46 { assert(p[46] == rec(0xFF3C, 0xFF3C, ID)); assert(p[47] == rec(0xFF3D, 0xFF3D, CL));
        } else if i == 47 { assert(p[47] == rec(0xFF3D, 0xFF3D, CL)); assert(p[48] == rec(0xFF3E, 0xFF5A, ID));
        } else if i == 48 { assert(p[48] == rec(0xFF3E, 0xFF5A, ID)); assert(p[49] == rec(0xFF5B, 0xFF5B, OP));
        } else if i == 49 { assert(p[49] == rec(0xFF5B, 0xFF5B, OP));
        }
    }
    assert forall|i: int|
        #![trigger p[i], p[i + 1]]
        0 <= i && i + 1 < p.len() implies p[i].end < p[i + 1].start by {}
    assert(p[0] == rec(0xFE40, 0xFE40, CL));
    assert(p[49] == rec(0xFF5B, 0xFF5B, OP));
}

/// The part's length, order and endpoints.
#[verifier::rlimit(100)]
#[verifier::spinoff_prover]
proof fn lemma_part43_sorted()
    ensures
        records_part43().len() == 50,
        records_sorted(records_part43()),
        records_part43()[0].start == 0xFF5C,
        records_part43()[49].end == 0x103C3,
{
    let p = records_part43();
    assert forall|i: int|
        0 <= i < p.len() implies ((#[trigger] p[i]).start <= p[i].end && p[i].end <= 0x10FFFF && (
    i + 1 < p.len() ==> p[i].end < p[i + 1].start)) by {
        if i == 0 { assert(p[0] == rec(0xFF5C, 0xFF5C, ID)); assert(p[1] == rec(0xFF5D, 0xFF5D, CL));
        } else if i == 1 { assert(p[1] == rec(0xFF5D, 0xFF5D, CL)); assert(p[2] == rec(0xFF5E, 0xFF5E, ID));
        } else if i == 2 { assert(p[2] == rec(0xFF5E, 0xFF5E, ID)); assert(p[3] == rec(0xFF5F, 0xFF5F, OP));
        } else if i == 3 { assert(p[3] == rec(0xFF5F, 0xFF5F, OP)); assert(p[4] == rec(0xFF60, 0xFF61, CL));
        } else if i == 4 { assert(p[4] == rec(0xFF60, 0xFF61, CL)); assert(p[5] == rec(0xFF62, 0xFF62, OP));
        } else if i == 5 { assert(p[5] == rec(0xFF62, 0xFF62, OP)); assert(p[6] == rec(0xFF63, 0xFF64, CL));
        } else if i == 6 { assert(p[6] == rec(0xFF63, 0xFF64, CL)); assert(p[7] == rec(0xFF65, 0xFF65, NS));
        } else if i == 7 { assert(p[7] == rec(0xFF65, 0xFF65, NS)); assert(p[8] == rec(0xFF66, 0xFF66, ID));
        } else if i == 8 { assert(p[8] == rec(0xFF66, 0xFF66, ID)); assert(p[9] == rec(0xFF67, 0xFF70, CJ));
        } else if i == 9 { assert(p[9] == rec(0xFF67, 0xFF70, CJ)); assert(p[10] == rec(0xFF71, 0xFF9D, ID));
        } else if i == 10 { assert(p[10] == rec(0xFF71, 0xFF9D, ID)); assert(p[11] == rec(0xFF9E, 0xFF9F, NS));
        } else if i == 11 { assert(p[11] == rec(0xFF9E, 0xFF9F, NS)); assert(p[12] == rec(0xFFA0, 0xFFBE, ID));
        } else if i == 12 { assert(p[12] == rec(0xFFA0, 0xFFBE, ID)); assert(p[13] == rec(0xFFC2, 0xFFC7, ID));
        } else if i == 13 { assert(p[13] == rec(0xFFC2, 0xFFC7, ID)); assert(p[14] == rec(0xFFCA, 0xFFCF, ID));
        } else if i == 14 { assert(p[14] == rec(0xFFCA, 0xFFCF, ID)); assert(p[15] == rec(0xFFD2, 0xFFD7, ID));
        } else if i == 15 { assert(p[15] == rec(0xFFD2, 0xFFD7, ID)); assert(p[16] == rec(0xFFDA, 0xFFDC, ID));
        } else if i == 16 { assert(p[16] == rec(0xFFDA, 0xFFDC, ID)); assert(p[17] == rec(0xFFE0, 0xFFE0, PO));
        } else if i == 17 { assert(p[17] == rec(0xFFE0, 0xFFE0, PO)); assert(p[18] == rec(0xFFE1, 0xFFE1, PR));
        } else if i == 18 { assert(p[18] == rec(0xFFE1, 0xFFE1, PR)); assert(p[19] == rec(0xFFE2, 0xFFE4, ID));
        } else if i == 19 { assert(p[19] == rec(0xFFE2, 0xFFE4, ID)); assert(p[20] == rec(0xFFE5, 0xFFE6, PR));
        } else if i == 20 { assert(p[20] == rec(0xFFE5, 0xFFE6, PR)); assert(p[21] == rec(0xFFE8, 0xFFEE, AL));
        } else if i == 21 { assert(p[21] == rec(0xFFE8, 0xFFEE, AL)); assert(p[22] == rec(0xFFF9, 0xFFFB, CM));
        } else if i == 22 { assert(p[22] == rec(0xFFF9, 0xFFFB, CM)); assert(p[23] == rec(0xFFFC, 0xFFFC, CB));
        } else if i == 23 { assert(p[23] == rec(0xFFFC, 0xFFFC, CB)); assert(p[24] == rec(0xFFFD, 0xFFFD, AI));
        } else if i == 24 { assert(p[24] == rec(0xFFFD, 0xFFFD, AI)); assert(p[25] == rec(0x10000, 0x1000B, AL));
        } else if i == 25 { assert(p[25] == rec(0x10000, 0x1000B, AL)); assert(p[26] == rec(0x1000D, 0x10026, AL));
        } else if i == 26 { assert(p[26] == rec(0x1000D, 0x10026, AL)); assert(p[27] == rec(0x10028, 0x1003A, AL));
        } else if i == 27 { assert(p[27] == rec(0x10028, 0x1003A, AL)); assert(p[28] == rec(0x1003C, 0x1003D, AL));
        } else if i == 28 { assert(p[28] == rec(0x1003C, 0x1003D, AL)); assert(p[29] == rec(0x1003F, 0x1004D, AL));
        } else if i == 29 { assert(p[29] == rec(0x1003F, 0x1004D, AL)); assert(p[30] == rec(0x10050, 0x1005D, AL));
        } else if i == 30 { assert(p[30] == rec(0x10050, 0x1005D, AL)); assert(p[31] == rec(0x10080, 0x100FA, AL));
        } else if i == 31 { assert(p[31] == rec(0x10080, 0x100FA, AL)); assert(p[32] == rec(0x10100, 0x10102, BA));
        } else if i == 32 { assert(p[32] == rec(0x10100, 0x10102, BA)); assert(p[33] == rec(0x10107, 0x10133, AL));
        } else if i == 33 { assert(p[33] == rec(0x10107, 0x10133, AL)); assert(p[34] == rec(0x10137, 0x1018E, AL));
        } else if i == 34 { assert(p[34] == rec(0x10137, 0x1018E, AL)); assert(p[35] == rec(0x10190, 0x1019C, AL));
        } else if i == 35 { assert(p[35] == rec(0x10190, 0x1019C, AL)); assert(p[36] == rec(0x101A0, 0x101A0, AL));
        } else if i == 36 { assert(p[36] == rec(0x101A0, 0x101A0, AL)); assert(p[37] == rec(0x101D0, 0x101FC, AL));
        } else if i == 37 { assert(p[37] == rec(0x101D0, 0x101FC, AL)); assert(p[38] == rec(0x101FD, 0x101FD, CM));
        } else if i == 38 { assert(p[38] == rec(0x101FD, 0x101FD, CM)); assert(p[39] == rec(0x10280, 0x1029C, AL));
        } else if i == 39 { assert(p[39] == rec(0x10280, 0x1029C, AL)); assert(p[40] == rec(0x102A0, 0x102D0, AL));
        } else if i == 40 { assert(p[40] == rec(0x102A0, 0x102D0, AL)); assert(p[41] == rec(0x102E0, 0x102E0, CM));
        } else if i == 41 { assert(p[41] == rec(0x102E0, 0x102E0, CM)); assert(p[42] == rec(0x102E1, 0x102FB, AL));
        } else if i == 42 { assert(p[42] == rec(0x102E1, 0x102FB, AL)); assert(p[43] == rec(0x10300, 0x10323, AL));
        } else if i == 43 { assert(p[43] == rec(0x10300, 0x10323, AL)); assert(p[44] == rec(0x1032D, 0x1034A, AL));
        } else if i == 44 { assert(p[44] == rec(0x1032D, 0x1034A, AL)); assert(p[45] == rec(0x10350, 0x10375, AL));
        } else if i == 45 { assert(p[45] == rec(0x10350, 0x10375, AL)); assert(p[46] == rec(0x10376, 0x1037A, CM));
        } else if i == 46 { assert(p[46] == rec(0x10376, 0x1037A, CM)); assert(p[47] == rec(0x10380, 0x1039D, AL));
        } else if i == 47 { assert(p[47] == rec(0x10380, 0x1039D, AL)); assert(p[48] == rec(0x1039F, 0x1039F, BA));
        } else if i == 48 { assert(p[48] == rec(0x1039F, 0x1039F, BA)); assert(p[49] == rec(0x103A0, 0x103C3, AL));
        } else if i == 49 { assert(p[49] == rec(0x103A0, 0x103C3, AL));
        }
    }
    assert forall|i: int|
        #![trigger p[i], p[i + 1]]
        0 <= i && i + 1 < p.len() implies p[i].end < p[i + 1].start by {}
    assert(p[0] == rec(0xFF5C, 0xFF5C, ID));
    assert(p[49] == rec(0x103A0, 0x103C3, AL));
}

/// The part's length, order and endpoints.
#[verifier::rlimit(100)]
#[verifier::spinoff_prover]
proof fn lemma_part44_sorted()
    ensures
        records_part44().len() == 50,
        records_sorted(records_part44()),
        records_part44()[0].start == 0x103C8,
        records_part44()[49].end == 0x10A48,
{
    let p = records_part44();
    assert forall|i: int|
        0 <= i < p.len() implies ((#[trigger] p[i]).start <= p[i].end && p[i].end <= 0x10FFFF && (
    i + 1 < p.len() ==> p[i].end < p[i + 1].start)) by {
        if i == 0 { assert(p[0] == rec(0x103C8, 0x103CF, AL)); assert(p[1] == rec(0x103D0, 0x103D0, BA));
        } else if i == 1 { assert(p[1] == rec(0x103D0, 0x103D0, BA)); assert(p[2] == rec(0x103D1, 0x103D5, AL));
        } else if i == 2 { assert(p[2] == rec(0x103D1, 0x103D5, AL)); assert(p[3] == rec(0x10400, 0x1049D, AL));
        } else if i == 3 { assert(p[3] == rec(0x10400, 0x1049D, AL)); assert(p[4] == rec(0x104A0, 0x104A9, NU));
        } else if i == 4 { assert(p[4] == rec(0x104A0, 0x104A9, NU)); assert(p[5] == rec(0x104B0, 0x104D3, AL));
        } else if i == 5 { assert(p[5] == rec(0x104B0, 0x104D3, AL)); assert(p[6] == rec(0x104D8, 0x104FB, AL));
        } else if i == 6 { assert(p[6] == rec(0x104D8, 0x104FB, AL)); assert(p[7] == rec(0x10500, 0x10527, AL));
        } else if i == 7 { assert(p[7] == rec(0x10500, 0x10527, AL)); assert(p[8] == rec(0x10530, 0x10563, AL));
        } else if i == 8 { assert(p[8] == rec(0x10530, 0x10563, AL)); assert(p[9] == rec(0x1056F, 0x1057A, AL));
        } else if i == 9 { assert(p[9] == rec(0x1056F, 0x1057A, AL)); assert(p[10] == rec(0x1057C, 0x1058A, AL));
        } else if i == 10 { assert(p[10] == rec(0x1057C, 0x1058A, AL)); assert(p[11] == rec(0x1058C, 0x10592, AL));
        } else if i == 11 { assert(p[11] == rec(0x1058C, 0x10592, AL)); assert(p[12] == rec(0x10594, 0x10595, AL));
        } else if i == 12 { assert(p[12] == rec(0x10594, 0x10595, AL)); assert(p[13] == rec(0x10597, 0x105A1, AL));
        } else if i == 13 { assert(p[13] == rec(0x10597, 0x105A1, AL)); assert(p[14] == rec(0x105A3, 0x105B1, AL));
        } else if i == 14 { assert(p[14] == rec(0x105A3, 0x105B1, AL)); assert(p[15] == rec(0x105B3, 0x105B9, AL));
        } else if i == 15 { assert(p[15] == rec(0x105B3, 0x105B9, AL)); assert(p[16] == rec(0x105BB, 0x105BC, AL));
        } else if i == 16 { assert(p[16] == rec(0x105BB, 0x105BC, AL)); assert(p[17] == rec(0x10600, 0x10736, AL));
        } else if i == 17 { assert(p[17] == rec(0x10600, 0x10736, AL)); assert(p[18] == rec(0x10740, 0x10755, AL));
        } else if i == 18 { assert(p[18] == rec(0x10740, 0x10755, AL)); assert(p[19] == rec(0x10760, 0x10767, AL));
        } else if i == 19 { assert(p[19] == rec(0x10760, 0x10767, AL)); assert(p[20] == rec(0x10780, 0x10785, AL));
        } else if i == 20 { assert(p[20] == rec(0x10780, 0x10785, AL)); assert(p[21] == rec(0x10787, 0x107B0, AL));
        } else if i == 21 { assert(p[21] == rec(0x10787, 0x107B0, AL)); assert(p[22] == rec(0x107B2, 0x107BA, AL));
        } else if i == 22 { assert(p[22] == rec(0x107B2, 0x107BA, AL)); assert(p[23] == rec(0x10800, 0x10805, AL));
        } else if i == 23 { assert(p[23] == rec(0x10800, 0x10805, AL)); assert(p[24] == rec(0x10808, 0x10808, AL));
        } else if i == 24 { assert(p[24] == rec(0x10808, 0x10808, AL)); assert(p[25] == rec(0x1080A, 0x10835, AL));
        } else if i == 25 { assert(p[25] == rec(0x1080A, 0x10835, AL)); assert(p[26] == rec(0x10837, 0x10838, AL));
        } else if i == 26 { assert(p[26] == rec(0x10837, 0x10838, AL)); assert(p[27] == rec(0x1083C, 0x1083C, AL));
        } else if i == 27 { assert(p[27] == rec(0x1083C, 0x1083C, AL)); assert(p[28] == rec(0x1083F, 0x10855, AL));
        } else if i == 28 { assert(p[28] == rec(0x1083F, 0x10855, AL)); assert(p[29] == rec(0x10857, 0x10857, BA));
        } else if i == 29 { assert(p[29] == rec(0x10857, 0x10857, BA)); assert(p[30] == rec(0x10858, 0x1089E, AL));
        } else if i == 30 { assert(p[30] == rec(0x10858, 0x1089E, AL)); assert(p[31] == rec(0x108A7, 0x108AF, AL));
        } else if i == 31 { assert(p[31] == rec(0x108A7, 0x108AF, AL)); assert(p[32] == rec(0x108E0, 0x108F2, AL));
        } else if i == 32 { assert(p[32] == rec(0x108E0, 0x108F2, AL)); assert(p[33] == rec(0x108F4, 0x108F5, AL));
        } else if i == 33 { assert(p[33] == rec(0x108F4, 0x108F5, AL)); assert(p[34] == rec(0x108FB, 0x1091B, AL));
        } else if i == 34 { assert(p[34] == rec(0x108FB, 0x1091B, AL)); assert(p[35] == rec(0x1091F, 0x1091F, BA));
        } else if i == 35 { assert(p[35] == rec(0x1091F, 0x1091F, BA)); assert(p[36] == rec(0x10920, 0x10939, AL));
        } else if i == 36 { assert(p[36] == rec(0x10920, 0x10939, AL)); assert(p[37] == rec(0x1093F, 0x1093F, AL));
        } else if i == 37 { assert(p[37] == rec(0x1093F, 0x1093F, AL)); assert(p[38] == rec(0x10980, 0x109B7, AL));
        } else if i == 38 { assert(p[38] == rec(0x10980, 0x109B7, AL)); assert(p[39] == rec(0x109BC, 0x109CF, AL));
        } else if i == 39 { assert(p[39] == rec(0x109BC, 0x109CF, AL)); assert(p[40] == rec(0x109D2, 0x10A00, AL));
        } else if i == 40 { assert(p[40] == rec(0x109D2, 0x10A00, AL)); assert(p[41] == rec(0x10A01, 0x10A03, CM));
        } else if i == 41 { assert(p[41] == rec(0x10A01, 0x10A03, CM)); assert(p[42] == rec(0x10A05, 0x10A06, CM));
        } else if i == 42 { assert(p[42] == rec(0x10A05, 0x10A06, CM)); assert(p[43] == rec(0x10A0C, 0x10A0F, CM));
        } else if i == 43 { assert(p[43] == rec(0x10A0C, 0x10A0F, CM)); assert(p[44] == rec(0x10A10, 0x10A13, AL));
        } else if i == 44 { assert(p[44] == rec(0x10A10, 0x10A13, AL)); assert(p[45] == rec(0x10A15, 0x10A17, AL));
        } else if i == 45 { assert(p[45] == rec(0x10A15, 0x10A17, AL)); assert(p[46] == rec(0x10A19, 0x10A35, AL));
        } else if i == 46 { assert(p[46] == rec(0x10A19, 0x10A35, AL)); assert(p[47] == rec(0x10A38, 0x10A3A, CM));
        } else if i == 47 { assert(p[47] == rec(0x10A38, 0x10A3A, CM)); assert(p[48] == rec(0x10A3F, 0x10A3F, CM));
        } else if i == 48 { assert(p[48] == rec(0x10A3F, 0x10A3F, CM)); assert(p[49] == rec(0x10A40, 0x10A48, AL));
        } else if i == 49 { assert(p[49] == rec(0x10A40, 0x10A48, AL));
        }
    }
    assert forall|i: int|
        #![trigger p[i], p[i + 1]]
        0 <= i && i + 1 < p.len() implies p[i].end < p[i + 1].start by {}
    assert(p[0] == rec(0x103C8, 0x103CF, AL));
    assert(p[49] == rec(0x10A40, 0x10A48, AL));
}

/// The part's length, order and endpoints.
#[verifier::rlimit(100)]
#[verifier::spinoff_prover]
proof fn lemma_part45_sorted()
    ensures
        records_part45().len() == 50,
        records_sorted(records_part45()),
        records_part45()[0].start == 0x10A50,
        records_part45()[49].end == 0x110BD,
{
    let p = records_part45();
    assert forall|i: int|
        0 <= i < p.len() implies ((#[trigger] p[i]).start <= p[i].end && p[i].end <= 0x10FFFF && (
    i + 1 < p.len() ==> p[i].end < p[i + 1].start)) by {
        if i == 0 { assert(p[0] == rec(0x10A50, 0x10A57, BA)); assert(p[1] == rec(0x10A58, 0x10A58, AL));
        } else if i == 1 { assert(p[1] == rec(0x10A58, 0x10A58, AL)); assert(p[2] == rec(0x10A60, 0x10A9F, AL));
        } else if i == 2 { assert(p[2] == rec(0x10A60, 0x10A9F, AL)); assert(p[3] == rec(0x10AC0, 0x10AE4, AL));
        } else if i == 3 { assert(p[3] == rec(0x10AC0, 0x10AE4, AL)); assert(p[4] == rec(0x10AE5, 0x10AE6, CM));
        } else if i == 4 { assert(p[4] == rec(0x10AE5, 0x10AE6, CM)); assert(p[5] == rec(0x10AEB, 0x10AEF, AL));
        } else if i == 5 { assert(p[5] == rec(0x10AEB, 0x10AEF, AL)); assert(p[6] == rec(0x10AF0, 0x10AF5, BA));
        } else if i == 6 { assert(p[6] == rec(0x10AF0, 0x10AF5, BA)); assert(p[7] == rec(0x10AF6, 0x10AF6, IN));
        } else if i == 7 { assert(p[7] == rec(0x10AF6, 0x10AF6, IN)); assert(p[8] == rec(0x10B00, 0x10B35, AL));
        } else if i == 8 { assert(p[8] == rec(0x10B00, 0x10B35, AL)); assert(p[9] == rec(0x10B39, 0x10B3F, BA));
        } else if i == 9 { assert(p[9] == rec(0x10B39, 0x10B3F, BA)); assert(p[10] == rec(0x10B40, 0x10B55, AL));
        } else if i == 10 { assert(p[10] == rec(0x10B40, 0x10B55, AL)); assert(p[11] == rec(0x10B58, 0x10B72, AL));
        } else if i == 11 { assert(p[11] == rec(0x10B58, 0x10B72, AL)); assert(p[12] == rec(0x10B78, 0x10B91, AL));
        } else if i == 12 { assert(p[12] == rec(0x10B78, 0x10B91, AL)); assert(p[13] == rec(0x10B99, 0x10B9C, AL));
        } else if i == 13 { assert(p[13] == rec(0x10B99, 0x10B9C, AL)); assert(p[14] == rec(0x10BA9, 0x10BAF, AL));
        } else if i == 14 { assert(p[14] == rec(0x10BA9, 0x10BAF, AL)); assert(p[15] == rec(0x10C00, 0x10C48, AL));
        } else if i == 15 { assert(p[15] == rec(0x10C00, 0x10C48, AL)); assert(p[16] == rec(0x10C80, 0x10CB2, AL));
        } else if i == 16 { assert(p[16] == rec(0x10C80, 0x10CB2, AL)); assert(p[17] == rec(0x10CC0, 0x10CF2, AL));
        } else if i == 17 { assert(p[17] == rec(0x10CC0, 0x10CF2, AL)); assert(p[18] == rec(0x10CFA, 0x10D23, AL));
        } else if i == 18 { assert(p[18] == rec(0x10CFA, 0x10D23, AL)); assert(p[19] == rec(0x10D24, 0x10D27, CM));
        } else if i == 19 { assert(p[19] == rec(0x10D24, 0x10D27, CM)); assert(p[20] == rec(0x10D30, 0x10D39, NU));
        } else if i == 20 { assert(p[20] == rec(0x10D30, 0x10D39, NU)); assert(p[21] == rec(0x10E60, 0x10E7E, AL));
        } else if i == 21 { assert(p[21] == rec(0x10E60, 0x10E7E, AL)); assert(p[22] == rec(0x10E80, 0x10EA9, AL));
        } else if i == 22 { assert(p[22] == rec(0x10E80, 0x10EA9, AL)); assert(p[23] == rec(0x10EAB, 0x10EAC, CM));
        } else if i == 23 { assert(p[23] == rec(0x10EAB, 0x10EAC, CM)); assert(p[24] == rec(0x10EAD, 0x10EAD, BA));
        } else if i == 24 { assert(p[24] == rec(0x10EAD, 0x10EAD, BA)); assert(p[25] == rec(0x10EB0, 0x10EB1, AL));
        } else if i == 25 { assert(p[25] == rec(0x10EB0, 0x10EB1, AL)); assert(p[26] == rec(0x10F00, 0x10F27, AL));
        } else if i == 26 { assert(p[26] == rec(0x10F00, 0x10F27, AL)); assert(p[27] == rec(0x10F30, 0x10F45, AL));
        } else if i == 27 { assert(p[27] == rec(0x10F30, 0x10F45, AL)); assert(p[28] == rec(0x10F46, 0x10F50, CM));
        } else if i == 28 { assert(p[28] == rec(0x10F46, 0x10F50, CM)); assert(p[29] == rec(0x10F51, 0x10F59, AL));
        } else if i == 29 { assert(p[29] == rec(0x10F51, 0x10F59, AL)); assert(p[30] == rec(0x10F70, 0x10F81, AL));
        } else if i == 30 { assert(p[30] == rec(0x10F70, 0x10F81, AL)); assert(p[31] == rec(0x10F82, 0x10F85, CM));
        } else if i == 31 { assert(p[31] == rec(0x10F82, 0x10F85, CM)); assert(p[32] == rec(0x10F86, 0x10F89, AL));
        } else if i == 32 { assert(p[32] == rec(0x10F86, 0x10F89, AL)); assert(p[33] == rec(0x10FB0, 0x10FCB, AL));
        } else if i == 33 { assert(p[33] == rec(0x10FB0, 0x10FCB, AL)); assert(p[34] == rec(0x10FE0, 0x10FF6, AL));
        } else if i == 34 { assert(p[34] == rec(0x10FE0, 0x10FF6, AL)); assert(p[35] == rec(0x11000, 0x11002, CM));
        } else if i == 35 { assert(p[35] == rec(0x11000, 0x11002, CM)); assert(p[36] == rec(0x11003, 0x11037, AL));
        } else if i == 36 { assert(p[36] == rec(0x11003, 0x11037, AL)); assert(p[37] == rec(0x11038, 0x11046, CM));
        } else if i == 37 { assert(p[37] == rec(0x11038, 0x11046, CM)); assert(p[38] == rec(0x11047, 0x11048, BA));
        } else if i == 38 { assert(p[38] == rec(0x11047, 0x11048, BA)); assert(p[39] == rec(0x11049, 0x1104D, AL));
        } else if i == 39 { assert(p[39] == rec(0x11049, 0x1104D, AL)); assert(p[40] == rec(0x11052, 0x11065, AL));
        } else if i == 40 { assert(p[40] == rec(0x11052, 0x11065, AL)); assert(p[41] == rec(0x11066, 0x1106F, NU));
        } else if i == 41 { assert(p[41] == rec(0x11066, 0x1106F, NU)); assert(p[42] == rec(0x11070, 0x11070, CM));
        } else if i == 42 { assert(p[42] == rec(0x11070, 0x11070, CM)); assert(p[43] == rec(0x11071, 0x11072, AL));
        } else if i == 43 { assert(p[43] == rec(0x11071, 0x11072, AL)); assert(p[44] == rec(0x11073, 0x11074, CM));
        } else if i == 44 { assert(p[44] == rec(0x11073, 0x11074, CM)); assert(p[45] == rec(0x11075, 0x11075, AL));
        } else if i == 45 { assert(p[45] == rec(0x11075, 0x11075, AL)); assert(p[46] == rec(0x1107F, 0x11082, CM));
        } else if i == 46 { assert(p[46] == rec(0x1107F, 0x11082, CM)); assert(p[47] == rec(0x11083, 0x110AF, AL));
        } else if i == 47 { assert(p[47] == rec(0x11083, 0x110AF, AL)); assert(p[48] == rec(0x110B0, 0x110BA, CM));
        } else if i == 48 { assert(p[48] == rec(0x110B0, 0x110BA, CM)); assert(p[49] == rec(0x110BB, 0x110BD, AL));
        } else if i == 49 { assert(p[49] == rec(0x110BB, 0x110BD, AL));
        }
    }
    assert forall|i: int|
        #![trigger p[i], p[i + 1]]
        0 <= i && i + 1 < p.len() implies p[i].end < p[i + 1].start by {}
    assert(p[0] == rec(0x10A50, 0x10A57, BA));
    assert(p[49] == rec(0x110BB, 0x110BD, AL));
}

/// The part's length, order and endpoints.
#[verifier::rlimit(100)]
#[verifier::spinoff_prover]
proof fn lemma_part46_sorted()
    ensures
        records_part46().len() == 50,
        records_sorted(records_part46()),
        records_part46()[0].start == 0x110BE,
        records_part46()[49].end == 0x112EA,
{
    let p = records_part46();
    assert forall|i: int|
        0 <= i < p.len() implies ((#[trigger] p[i]).start <= p[i].end && p[i].end <= 0x10FFFF && (
    i + 1 < p.len() ==> p[i].end < p[i + 1].start)) by {
        if i == 0 { assert(p[0] == rec(0x110BE, 0x110C1, BA)); assert(p[1] == rec(0x110C2, 0x110C2, CM));
        } else if i == 1 { assert(p[1] == rec(0x110C2, 0x110C2, CM)); assert(p[2] == rec(0x110CD, 0x110CD, AL));
        } else if i == 2 { assert(p[2] == rec(0x110CD, 0x110CD, AL)); assert(p[3] == rec(0x110D0, 0x110E8, AL));
        } else if i == 3 { assert(p[3] == rec(0x110D0, 0x110E8, AL)); assert(p[4] == rec(0x110F0, 0x110F9, NU));
        } else if i == 4 { assert(p[4] == rec(0x110F0, 0x110F9, NU)); assert(p[5] == rec(0x11100, 0x11102, CM));
        } else if i == 5 { assert(p[5] == rec(0x11100, 0x11102, CM)); assert(p[6] == rec(0x11103, 0x11126, AL));
        } else if i == 6 { assert(p[6] == rec(0x11103, 0x11126, AL)); assert(p[7] == rec(0x11127, 0x11134, CM));
        } else if i == 7 { assert(p[7] == rec(0x11127, 0x11134, CM)); assert(p[8] == rec(0x11136, 0x1113F, NU));
        } else if i == 8 { assert(p[8] == rec(0x11136, 0x1113F, NU)); assert(p[9] == rec(0x11140, 0x11143, BA));
        } else if i == 9 { assert(p[9] == rec(0x11140, 0x11143, BA)); assert(p[10] == rec(0x11144, 0x11144, AL));
        } else if i == 10 { assert(p[10] == rec(0x11144, 0x11144, AL)); assert(p[11] == rec(0x11145, 0x11146, CM));
        } else if i == 11 { assert(p[11] == rec(0x11145, 0x11146, CM)); assert(p[12] == rec(0x11147, 0x11147, AL));
        } else if i == 12 { assert(p[12] == rec(0x11147, 0x11147, AL)); assert(p[13] == rec(0x11150, 0x11172, AL));
        } else if i == 13 { assert(p[13] == rec(0x11150, 0x11172, AL)); assert(p[14] == rec(0x11173, 0x11173, CM));
        } else if i == 14 { assert(p[14] == rec(0x11173, 0x11173, CM)); assert(p[15] == rec(0x11174, 0x11174, AL));
        } else if i == 15 { assert(p[15] == rec(0x11174, 0x11174, AL)); assert(p[16] == rec(0x11175, 0x11175, BB));
        } else if i == 16 { assert(p[16] == rec(0x11175, 0x11175, BB)); assert(p[17] == rec(0x11176, 0x11176, AL));
        } else if i == 17 { assert(p[17] == rec(0x11176, 0x11176, AL)); assert(p[18] == rec(0x11180, 0x11182, CM));
        } else if i == 18 { assert(p[18] == rec(0x11180, 0x11182, CM)); assert(p[19] == rec(0x11183, 0x111B2, AL));
        } else if i == 19 { assert(p[19] == rec(0x11183, 0x111B2, AL)); assert(p[20] == rec(0x111B3, 0x111C0, CM));
        } else if i == 20 { assert(p[20] == rec(0x111B3, 0x111C0, CM)); assert(p[21] == rec(0x111C1, 0x111C4, AL));
        } else if i == 21 { assert(p[21] == rec(0x111C1, 0x111C4, AL)); assert(p[22] == rec(0x111C5, 0x111C6, BA));
        } else if i == 22 { assert(p[22] == rec(0x111C5, 0x111C6, BA)); assert(p[23] == rec(0x111C7, 0x111C7, AL));
        } else if i == 23 { assert(p[23] == rec(0x111C7, 0x111C7, AL)); assert(p[24] == rec(0x111C8, 0x111C8, BA));
        } else if i == 24 { assert(p[24] == rec(0x111C8, 0x111C8, BA)); assert(p[25] == rec(0x111C9, 0x111CC, CM));
        } else if i == 25 { assert(p[25] == rec(0x111C9, 0x111CC, CM)); assert(p[26] == rec(0x111CD, 0x111CD, AL));
        } else if i == 26 { assert(p[26] == rec(0x111CD, 0x111CD, AL)); assert(p[27] == rec(0x111CE, 0x111CF, CM));
        } else if i == 27 { assert(p[27] == rec(0x111CE, 0x111CF, CM)); assert(p[28] == rec(0x111D0, 0x111D9, NU));
        } else if i == 28 { assert(p[28] == rec(0x111D0, 0x111D9, NU)); assert(p[29] == rec(0x111DA, 0x111DA, AL));
        } else if i == 29 { assert(p[29] == rec(0x111DA, 0x111DA, AL)); assert(p[30] == rec(0x111DB, 0x111DB, BB));
        } else if i == 30 { assert(p[30] == rec(0x111DB, 0x111DB, BB)); assert(p[31] == rec(0x111DC, 0x111DC, AL));
        } else if i == 31 { assert(p[31] == rec(0x111DC, 0x111DC, AL)); assert(p[32] == rec(0x111DD, 0x111DF, BA));
        } else if i == 32 { assert(p[32] == rec(0x111DD, 0x111DF, BA)); assert(p[33] == rec(0x111E1, 0x111F4, AL));
        } else if i == 33 { assert(p[33] == rec(0x111E1, 0x111F4, AL)); assert(p[34] == rec(0x11200, 0x11211, AL));
        } else if i == 34 { assert(p[34] == rec(0x11200, 0x11211, AL)); assert(p[35] == rec(0x11213, 0x1122B, AL));
        } else if i == 35 { assert(p[35] == rec(0x11213, 0x1122B, AL)); assert(p[36] == rec(0x1122C, 0x11237, CM));
        } else if i == 36 { assert(p[36] == rec(0x1122C, 0x11237, CM)); assert(p[37] == rec(0x11238, 0x11239, BA));
        } else if i == 37 { assert(p[37] == rec(0x11238, 0x11239, BA)); assert(p[38] == rec(0x1123A, 0x1123A, AL));
        } else if i == 38 { assert(p[38] == rec(0x1123A, 0x1123A, AL)); assert(p[39] == rec(0x1123B, 0x1123C, BA));
        } else if i == 39 { assert(p[39] == rec(0x1123B, 0x1123C, BA)); assert(p[40] == rec(0x1123D, 0x1123D, AL));
        } else if i == 40 { assert(p[40] == rec(0x1123D, 0x1123D, AL)); assert(p[41] == rec(0x1123E, 0x1123E, CM));
        } else if i == 41 { assert(p[41] == rec(0x1123E, 0x1123E, CM)); assert(p[42] == rec(0x11280, 0x11286, AL));
        } else if i == 42 { assert(p[42] == rec(0x11280, 0x11286, AL)); assert(p[43] == rec(0x11288, 0x11288, AL));
        } else if i == 43 { assert(p[43] == rec(0x11288, 0x11288, AL)); assert(p[44] == rec(0x1128A, 0x1128D, AL));
        } else if i == 44 { assert(p[44] == rec(0x1128A, 0x1128D, AL)); assert(p[45] == rec(0x1128F, 0x1129D, AL));
        } else if i == 45 { assert(p[45] == rec(0x1128F, 0x1129D, AL)); assert(p[46] == rec(0x1129F, 0x112A8, AL));
        } else if i == 46 { assert(p[46] == rec(0x1129F, 0x112A8, AL)); assert(p[47] == rec(0x112A9, 0x112A9, BA));
        } else if i == 47 { assert(p[47] == rec(0x112A9, 0x112A9, BA)); assert(p[48] == rec(0x112B0, 0x112DE, AL));
        } else if i == 48 { assert(p[48] == rec(0x112B0, 0x112DE, AL)); assert(p[49] == rec(0x112DF, 0x112EA, CM));
        } else if i == 49 { assert(p[49] == rec(0x112DF, 0x112EA, CM));
        }
    }
    assert forall|i: int|
        #![trigger p[i], p[i + 1]]
        0 <= i && i + 1 < p.len() implies p[i].end < p[i + 1].start by {}
    assert(p[0] == rec(0x110BE, 0x110C1, BA));
    assert(p[49] == rec(0x112DF, 0x112EA, CM));
}

/// The part's length, order and endpoints.
#[verifier::rlimit(100)]
#[verifier::spinoff_prover]
proof fn lemma_part47_sorted()
    ensures
        records_part47().len() == 50,
        records_sorted(records_part47()),
        records_part47()[0].start == 0x112F0,
        records_part47()[49].end == 0x116AA,
{
    let p = records_part47();
    assert forall|i: int|
        0 <= i < p.len() implies ((#[trigger] p[i]).start <= p[i].end && p[i].end <= 0x10FFFF && (
    i + 1 < p.len() ==> p[i].end < p[i + 1].start)) by {
        if i == 0 { assert(p[0] == rec(0x112F0, 0x112F9, NU)); assert(p[1] == rec(0x11300, 0x11303, CM));
        } else if i == 1 { assert(p[1] == rec(0x11300, 0x11303, CM)); assert(p[2] == rec(0x11305, 0x1130C, AL));
        } else if i == 2 { assert(p[2] == rec(0x11305, 0x1130C, AL)); assert(p[3] == rec(0x1130F, 0x11310, AL));
        } else if i == 3 { assert(p[3] == rec(0x1130F, 0x11310, AL)); assert(p[4] == rec(0x11313, 0x11328, AL));
        } else if i == 4 { assert(p[4] == rec(0x11313, 0x11328, AL)); assert(p[5] == rec(0x1132A, 0x11330, AL));
        } else if i == 5 { assert(p[5] == rec(0x1132A, 0x11330, AL)); assert(p[6] == rec(0x11332, 0x11333, AL));
        } else if i == 6 { assert(p[6] == rec(0x11332, 0x11333, AL)); assert(p[7] == rec(0x11335, 0x11339, AL));
        } else if i == 7 { assert(p[7] == rec(0x11335, 0x11339, AL)); assert(p[8] == rec(0x1133B, 0x1133C, CM));
        } else if i == 8 { assert(p[8] == rec(0x1133B, 0x1133C, CM)); assert(p[9] == rec(0x1133D, 0x1133D, AL));
        } else if i == 9 { assert(p[9] == rec(0x1133D, 0x1133D, AL)); assert(p[10] == rec(0x1133E, 0x11344, CM));
        } else if i == 10 { assert(p[10] == rec(0x1133E, 0x11344, CM)); assert(p[11] == rec(0x11347, 0x11348, CM));
        } else if i == 11 { assert(p[11] == rec(0x11347, 0x11348, CM)); assert(p[12] == rec(0x1134B, 0x1134D, CM));
        } else if i == 12 { assert(p[12] == rec(0x1134B, 0x1134D, CM)); assert(p[13] == rec(0x11350, 0x11350, AL));
        } else if i == 13 { assert(p[13] == rec(0x11350, 0x11350, AL)); assert(p[14] == rec(0x11357, 0x11357, CM));
        } else if i == 14 { assert(p[14] == rec(0x11357, 0x11357, CM)); assert(p[15] == rec(0x1135D, 0x11361, AL));
        } else if i == 15 { assert(p[15] == rec(0x1135D, 0x11361, AL)); assert(p[16] == rec(0x11362, 0x11363, CM));
        } else if i == 16 { assert(p[16] == rec(0x11362, 0x11363, CM)); assert(p[17] == rec(0x11366, 0x1136C, CM));
        } else if i == 17 { assert(p[17] == rec(0x11366, 0x1136C, CM)); assert(p[18] == rec(0x11370, 0x11374, CM));
        } else if i == 18 { assert(p[18] == rec(0x11370, 0x11374, CM)); assert(p[19] == rec(0x11400, 0x11434, AL));
        } else if i == 19 { assert(p[19] == rec(0x11400, 0x11434, AL)); assert(p[20] == rec(0x11435, 0x11446, CM));
        } else if i == 20 { assert(p[20] == rec(0x11435, 0x11446, CM)); assert(p[21] == rec(0x11447, 0x1144A, AL));
        } else if i == 21 { assert(p[21] == rec(0x11447, 0x1144A, AL)); assert(p[22] == rec(0x1144B, 0x1144E, BA));
        } else if i == 22 { assert(p[22] == rec(0x1144B, 0x1144E, BA)); assert(p[23] == rec(0x1144F, 0x1144F, AL));
        } else if i == 23 { assert(p[23] == rec(0x1144F, 0x1144F, AL)); assert(p[24] == rec(0x11450, 0x11459, NU));
        } else if i == 24 { assert(p[24] == rec(0x11450, 0x11459, NU)); assert(p[25] == rec(0x1145A, 0x1145B, BA));
        } else if i == 25 { assert(p[25] == rec(0x1145A, 0x1145B, BA)); assert(p[26] == rec(0x1145D, 0x1145D, AL));
        } else if i == 26 { assert(p[26] == rec(0x1145D, 0x1145D, AL)); assert(p[27] == rec(0x1145E, 0x1145E, CM));
        } else if i == 27 { assert(p[27] == rec(0x1145E, 0x1145E, CM)); assert(p[28] == rec(0x1145F, 0x11461, AL));
        } else if i == 28 { assert(p[28] == rec(0x1145F, 0x11461, AL)); assert(p[29] == rec(0x11480, 0x114AF, AL));
        } else if i == 29 { assert(p[29] == rec(0x11480, 0x114AF, AL)); assert(p[30] == rec(0x114B0, 0x114C3, CM));
        } else if i == 30 { assert(p[30] == rec(0x114B0, 0x114C3, CM)); assert(p[31] == rec(0x114C4, 0x114C7, AL));
        } else if i == 31 { assert(p[31] == rec(0x114C4, 0x114C7, AL)); assert(p[32] == rec(0x114D0, 0x114D9, NU));
        } else if i == 32 { assert(p[32] == rec(0x114D0, 0x114D9, NU)); assert(p[33] == rec(0x11580, 0x115AE, AL));
        } else if i == 33 { assert(p[33] == rec(0x11580, 0x115AE, AL)); assert(p[34] == rec(0x115AF, 0x115B5, CM));
        } else if i == 34 { assert(p[34] == rec(0x115AF, 0x115B5, CM)); assert(p[35] == rec(0x115B8, 0x115C0, CM));
        } else if i == 35 { assert(p[35] == rec(0x115B8, 0x115C0, CM)); assert(p[36] == rec(0x115C1, 0x115C1, BB));
        } else if i == 36 { assert(p[36] == rec(0x115C1, 0x115C1, BB)); assert(p[37] == rec(0x115C2, 0x115C3, BA));
        } else if i == 37 { assert(p[37] == rec(0x115C2, 0x115C3, BA)); assert(p[38] == rec(0x115C4, 0x115C5, EX));
        } else if i == 38 { assert(p[38] == rec(0x115C4, 0x115C5, EX)); assert(p[39] == rec(0x115C6, 0x115C8, AL));
        } else if i == 39 { assert(p[39] == rec(0x115C6, 0x115C8, AL)); assert(p[40] == rec(0x115C9, 0x115D7, BA));
        } else if i == 40 { assert(p[40] == rec(0x115C9, 0x115D7, BA)); assert(p[41] == rec(0x115D8, 0x115DB, AL));
        } else if i == 41 { assert(p[41] == rec(0x115D8, 0x115DB, AL)); assert(p[42] == rec(0x115DC, 0x115DD, CM));
        } else if i == 42 { assert(p[42] == rec(0x115DC, 0x115DD, CM)); assert(p[43] == rec(0x11600, 0x1162F, AL));
        } else if i == 43 { assert(p[43] == rec(0x11600, 0x1162F, AL)); assert(p[44] == rec(0x11630, 0x11640, CM));
        } else if i == 44 { assert(p[44] == rec(0x11630, 0x11640, CM)); assert(p[45] == rec(0x11641, 0x11642, BA));
        } else if i == 45 { assert(p[45] == rec(0x11641, 0x11642, BA)); assert(p[46] == rec(0x11643, 0x11644, AL));
        } else if i == 46 { assert(p[46] == rec(0x11643, 0x11644, AL)); assert(p[47] == rec(0x11650, 0x11659, NU));
        } else if i == 47 { assert(p[47] == rec(0x11650, 0x11659, NU)); assert(p[48] == rec(0x11660, 0x1166C, BB));
        } else if i == 48 { assert(p[48] == rec(0x11660, 0x1166C, BB)); assert(p[49] == rec(0x11680, 0x116AA, AL));
        } else if i == 49 { assert(p[49] == rec(0x11680, 0x116AA, AL));
        }
    }
    assert forall|i: int|
        #![trigger p[i], p[i + 1]]
        0 <= i && i + 1 < p.len() implies p[i].end < p[i + 1].start by {}
    assert(p[0] == rec(0x112F0, 0x112F9, NU));
    assert(p[49] == rec(0x11680, 0x116AA, AL));
}

/// The part's length, order and endpoints.
#[verifier::rlimit(100)]
#[verifier::spinoff_prover]
proof fn lemma_part48_sorted()
    ensures
        records_part48().len() == 50,
        records_sorted(records_part48()),
        records_part48()[0].start == 0x116AB,
        records_part48()[49].end == 0x11A50,
{
    let p = records_part48();
    assert forall|i: int|
        0 <= i < p.len() implies ((#[trigger] p[i]).start <= p[i].end && p[i].end <= 0x10FFFF && (
    i + 1 < p.len() ==> p[i].end < p[i + 1].start)) by {
        if i == 0 { assert(p[0] == rec(0x116AB, 0x116B7, CM)); assert(p[1] == rec(0x116B8, 0x116B9, AL));
        } else if i == 1 { assert(p[1] == rec(0x116B8, 0x116B9, AL)); assert(p[2] == rec(0x116C0, 0x116C9, NU));
        } else if i == 2 { assert(p[2] == rec(0x116C0, 0x116C9, NU)); assert(p[3] == rec(0x11700, 0x1171A, SA));
        } else if i == 3 { assert(p[3] == rec(0x11700, 0x1171A, SA)); assert(p[4] == rec(0x1171D, 0x1172B, SA));
        } else if i == 4 { assert(p[4] == rec(0x1171D, 0x1172B, SA)); assert(p[5] == rec(0x11730, 0x11739, NU));
        } else if i == 5 { assert(p[5] == rec(0x11730, 0x11739, NU)); assert(p[6] == rec(0x1173A, 0x1173B, SA));
        } else if i == 6 { assert(p[6] == rec(0x1173A, 0x1173B, SA)); assert(p[7] == rec(0x1173C, 0x1173E, BA));
        } else if i == 7 { assert(p[7] == rec(0x1173C, 0x1173E, BA)); assert(p[8] == rec(0x1173F, 0x11746, SA));
        } else if i == 8 { assert(p[8] == rec(0x1173F, 0x11746, SA)); assert(p[9] == rec(0x11800, 0x1182B, AL));
        } else if i == 9 { assert(p[9] == rec(0x11800, 0x1182B, AL)); assert(p[10] == rec(0x1182C, 0x1183A, CM));
        } else if i == 10 { assert(p[10] == rec(0x1182C, 0x1183A, CM)); assert(p[11] == rec(0x1183B, 0x1183B, AL));
        } else if i == 11 { assert(p[11] == rec(0x1183B, 0x1183B, AL)); assert(p[12] == rec(0x118A0, 0x118DF, AL));
        } else if i == 12 { assert(p[12] == rec(0x118A0, 0x118DF, AL)); assert(p[13] == rec(0x118E0, 0x118E9, NU));
        } else if i == 13 { assert(p[13] == rec(0x118E0, 0x118E9, NU)); assert(p[14] == rec(0x118EA, 0x118F2, AL));
        } else if i == 14 { assert(p[14] == rec(0x118EA, 0x118F2, AL)); assert(p[15] == rec(0x118FF, 0x11906, AL));
        } else if i == 15 { assert(p[15] == rec(0x118FF, 0x11906, AL)); assert(p[16] == rec(0x11909, 0x11909, AL));
        } else if i == 16 { assert(p[16] == rec(0x11909, 0x11909, AL)); assert(p[17] == rec(0x1190C, 0x11913, AL));
        } else if i == 17 { assert(p[17] == rec(0x1190C, 0x11913, AL)); assert(p[18] == rec(0x11915, 0x11916, AL));
        } else if i == 18 { assert(p[18] == rec(0x11915, 0x11916, AL)); assert(p[19] == rec(0x11918, 0x1192F, AL));
        } else if i == 19 { assert(p[19] == rec(0x11918, 0x1192F, AL)); assert(p[20] == rec(0x11930, 0x11935, CM));
        } else if i == 20 { assert(p[20] == rec(0x11930, 0x11935, CM)); assert(p[21] == rec(0x11937, 0x11938, CM));
        } else if i == 21 { assert(p[21] == rec(0x11937, 0x11938, CM)); assert(p[22] == rec(0x1193B, 0x1193E, CM));
        } else if i == 22 { assert(p[22] == rec(0x1193B, 0x1193E, CM)); assert(p[23] == rec(0x1193F, 0x1193F, AL));
        } else if i == 23 { assert(p[23] == rec(0x1193F, 0x1193F, AL)); assert(p[24] == rec(0x11940, 0x11940, CM));
        } else if i == 24 { assert(p[24] == rec(0x11940, 0x11940, CM)); assert(p[25] == rec(0x11941, 0x11941, AL));
        } else if i == 25 { assert(p[25] == rec(0x11941, 0x11941, AL)); assert(p[26] == rec(0x11942, 0x11943, CM));
        } else if i == 26 { assert(p[26] == rec(0x11942, 0x11943, CM)); assert(p[27] == rec(0x11944, 0x11946, BA));
        } else if i == 27 { assert(p[27] == rec(0x11944, 0x11946, BA)); assert(p[28] == rec(0x11950, 0x11959, NU));
        } else if i == 28 { assert(p[28] == rec(0x11950, 0x11959, NU)); assert(p[29] == rec(0x119A0, 0x119A7, AL));
        } else if i == 29 { assert(p[29] == rec(0x119A0, 0x119A7, AL)); assert(p[30] == rec(0x119AA, 0x119D0, AL));
        } else if i == 30 { assert(p[30] == rec(0x119AA, 0x119D0, AL)); assert(p[31] == rec(0x119D1, 0x119D7, CM));
        } else if i == 31 { assert(p[31] == rec(0x119D1, 0x119D7, CM)); assert(p[32] == rec(0x119DA, 0x119E0, CM));
        } else if i == 32 { assert(p[32] == rec(0x119DA, 0x119E0, CM)); assert(p[33] == rec(0x119E1, 0x119E1, AL));
        } else if i == 33 { assert(p[33] == rec(0x119E1, 0x119E1, AL)); assert(p[34] == rec(0x119E2, 0x119E2, BB));
        } else if i == 34 { assert(p[34] == rec(0x119E2, 0x119E2, BB)); assert(p[35] == rec(0x119E3, 0x119E3, AL));
        } else if i == 35 { assert(p[35] == rec(0x119E3, 0x119E3, AL)); assert(p[36] == rec(0x119E4, 0x119E4, CM));
        } else if i == 36 { assert(p[36] == rec(0x119E4, 0x119E4, CM)); assert(p[37] == rec(0x11A00, 0x11A00, AL));
        } else if i == 37 { assert(p[37] == rec(0x11A00, 0x11A00, AL)); assert(p[38] == rec(0x11A01, 0x11A0A, CM));
        } else if i == 38 { assert(p[38] == rec(0x11A01, 0x11A0A, CM)); assert(p[39] == rec(0x11A0B, 0x11A32, AL));
        } else if i == 39 { assert(p[39] == rec(0x11A0B, 0x11A32, AL)); assert(p[40] == rec(0x11A33, 0x11A39, CM));
        } else if i == 40 { assert(p[40] == rec(0x11A33, 0x11A39, CM)); assert(p[41] == rec(0x11A3A, 0x11A3A, AL));
        } else if i == 41 { assert(p[41] == rec(0x11A3A, 0x11A3A, AL)); assert(p[42] == rec(0x11A3B, 0x11A3E, CM));
        } else if i == 42 { assert(p[42] == rec(0x11A3B, 0x11A3E, CM)); assert(p[43] == rec(0x11A3F, 0x11A3F, BB));
        } else if i == 43 { assert(p[43] == rec(0x11A3F, 0x11A3F, BB)); assert(p[44] == rec(0x11A40, 0x11A40, AL));
        } else if i == 44 { assert(p[44] == rec(0x11A40, 0x11A40, AL)); assert(p[45] == rec(0x11A41, 0x11A44, BA));
        } else if i == 45 { assert(p[45] == rec(0x11A41, 0x11A44, BA)); assert(p[46] == rec(0x11A45, 0x11A45, BB));
        } else if i == 46 { assert(p[46] == rec(0x11A45, 0x11A45, BB)); assert(p[47] == rec(0x11A46, 0x11A46, AL));
        } else if i == 47 { assert(p[47] == rec(0x11A46, 0x11A46, AL)); assert(p[48] == rec(0x11A47, 0x11A47, CM));
        } else if i == 48 { assert(p[48] == rec(0x11A47, 0x11A47, CM)); assert(p[49] == rec(0x11A50, 0x11A50, AL));
        } else if i == 49 { assert(p[49] == rec(0x11A50, 0x11A50, AL));
        }
    }
    assert forall|i: int|
        #![trigger p[i], p[i + 1]]
        0 <= i && i + 1 < p.len() implies p[i].end < p[i + 1].start by {}
    assert(p[0] == rec(0x116AB, 0x116B7, CM));
    assert(p[49] == rec(0x11A50, 0x11A50, AL));
}

/// The part's length, order and endpoints.
#[verifier::rlimit(100)]
#[verifier::spinoff_prover]
proof fn lemma_part49_sorted()
    ensures
        records_part49().len() == 50,
        records_sorted(records_part49()),
        records_part49()[0].start == 0x11A51,
        records_part49()[49].end == 0x12474,
{
    let p = records_part49();
    assert forall|i: int|
        0 <= i < p.len() implies ((#[trigger] p[i]).start <= p[i].end && p[i].end <= 0x10FFFF && (
    i + 1 < p.len() ==> p[i].end < p[i + 1].start)) by {
        if i == 0 { assert(p[0] == rec(0x11A51, 0x11A5B, CM)); assert(p[1] == rec(0x11A5C, 0x11A89, AL));
        } else if i == 1 { assert(p[1] == rec(0x11A5C, 0x11A89, AL)); assert(p[2] == rec(0x11A8A, 0x11A99, CM));
        } else if i == 2 { assert(p[2] == rec(0x11A8A, 0x11A99, CM)); assert(p[3] == rec(0x11A9A, 0x11A9C, BA));
        } else if i == 3 { assert(p[3] == rec(0x11A9A, 0x11A9C, BA)); assert(p[4] == rec(0x11A9D, 0x11A9D, AL));
        } else if i == 4 { assert(p[4] == rec(0x11A9D, 0x11A9D, AL)); assert(p[5] == rec(0x11A9E, 0x11AA0, BB));
        } else if i == 5 { assert(p[5] == rec(0x11A9E, 0x11AA0, BB)); assert(p[6] == rec(0x11AA1, 0x11AA2, BA));
        } else if i == 6 { assert(p[6] == rec(0x11AA1, 0x11AA2, BA)); assert(p[7] == rec(0x11AB0, 0x11AF8, AL));
        } else if i == 7 { assert(p[7] == rec(0x11AB0, 0x11AF8, AL)); assert(p[8] == rec(0x11C00, 0x11C08, AL));
        } else if i == 8 { assert(p[8] == rec(0x11C00, 0x11C08, AL)); assert(p[9] == rec(0x11C0A, 0x11C2E, AL));
        } else if i == 9 { assert(p[9] == rec(0x11C0A, 0x11C2E, AL)); assert(p[10] == rec(0x11C2F, 0x11C36, CM));
        } else if i == 10 { assert(p[10] == rec(0x11C2F, 0x11C36, CM)); assert(p[11] == rec(0x11C38, 0x11C3F, CM));
        } else if i == 11 { assert(p[11] == rec(0x11C38, 0x11C3F, CM)); assert(p[12] == rec(0x11C40, 0x11C40, AL));
        } else if i == 12 { assert(p[12] == rec(0x11C40, 0x11C40, AL)); assert(p[13] == rec(0x11C41, 0x11C45, BA));
        } else if i == 13 { assert(p[13] == rec(0x11C41, 0x11C45, BA)); assert(p[14] == rec(0x11C50, 0x11C59, NU));
        } else if i == 14 { assert(p[14] == rec(0x11C50, 0x11C59, NU)); assert(p[15] == rec(0x11C5A, 0x11C6C, AL));
        } else if i == 15 { assert(p[15] == rec(0x11C5A, 0x11C6C, AL)); assert(p[16] == rec(0x11C70, 0x11C70, BB));
        } else if i == 16 { assert(p[16] == rec(0x11C70, 0x11C70, BB)); assert(p[17] == rec(0x11C71, 0x11C71, EX));
        } else if i == 17 { assert(p[17] == rec(0x11C71, 0x11C71, EX)); assert(p[18] == rec(0x11C72, 0x11C8F, AL));
        } else if i == 18 { assert(p[18] == rec(0x11C72, 0x11C8F, AL)); assert(p[19] == rec(0x11C92, 0x11CA7, CM));
        } else if i == 19 { assert(p[19] == rec(0x11C92, 0x11CA7, CM)); assert(p[20] == rec(0x11CA9, 0x11CB6, CM));
        } else if i == 20 { assert(p[20] == rec(0x11CA9, 0x11CB6, CM)); assert(p[21] == rec(0x11D00, 0x11D06, AL));
        } else if i == 21 { assert(p[21] == rec(0x11D00, 0x11D06, AL)); assert(p[22] == rec(0x11D08, 0x11D09, AL));
        } else if i == 22 { assert(p[22] == rec(0x11D08, 0x11D09, AL)); assert(p[23] == rec(0x11D0B, 0x11D30, AL));
        } else if i == 23 { assert(p[23] == rec(0x11D0B, 0x11D30, AL)); assert(p[24] == rec(0x11D31, 0x11D36, CM));
        } else if i == 24 { assert(p[24] == rec(0x11D31, 0x11D36, CM)); assert(p[25] == rec(0x11D3A, 0x11D3A, CM));
        } else if i == 25 { assert(p[25] == rec(0x11D3A, 0x11D3A, CM)); assert(p[26] == rec(0x11D3C, 0x11D3D, CM));
        } else if i == 26 { assert(p[26] == rec(0x11D3C, 0x11D3D, CM)); assert(p[27] == rec(0x11D3F, 0x11D45, CM));
        } else if i == 27 { assert(p[27] == rec(0x11D3F, 0x11D45, CM)); assert(p[28] == rec(0x11D46, 0x11D46, AL));
        } else if i == 28 { assert(p[28] == rec(0x11D46, 0x11D46, AL)); assert(p[29] == rec(0x11D47, 0x11D47, CM));
        } else if i == 29 { assert(p[29] == rec(0x11D47, 0x11D47, CM)); assert(p[30] == rec(0x11D50, 0x11D59, NU));
        } else if i == 30 { assert(p[30] == rec(0x11D50, 0x11D59, NU)); assert(p[31] == rec(0x11D60, 0x11D65, AL));
        } else if i == 31 { assert(p[31] == rec(0x11D60, 0x11D65, AL)); assert(p[32] == rec(0x11D67, 0x11D68, AL));
        } else if i == 32 { assert(p[32] == rec(0x11D67, 0x11D68, AL)); assert(p[33] == rec(0x11D6A, 0x11D89, AL));
        } else if i == 33 { assert(p[33] == rec(0x11D6A, 0x11D89, AL)); assert(p[34] == rec(0x11D8A, 0x11D8E, CM));
        } else if i == 34 { assert(p[34] == rec(0x11D8A, 0x11D8E, CM)); assert(p[35] == rec(0x11D90, 0x11D91, CM));
        } else if i == 35 { assert(p[35] == rec(0x11D90, 0x11D91, CM)); assert(p[36] == rec(0x11D93, 0x11D97, CM));
        } else if i == 36 { assert(p[36] == rec(0x11D93, 0x11D97, CM)); assert(p[37] == rec(0x11D98, 0x11D98, AL));
        } else if i == 37 { assert(p[37] == rec(0x11D98, 0x11D98, AL)); assert(p[38] == rec(0x11DA0, 0x11DA9, NU));
        } else if i == 38 { assert(p[38] == rec(0x11DA0, 0x11DA9, NU)); assert(p[39] == rec(0x11EE0, 0x11EF2, AL));
        } else if i == 39 { assert(p[39] == rec(0x11EE0, 0x11EF2, AL)); assert(p[40] == rec(0x11EF3, 0x11EF6, CM));
        } else if i == 40 { assert(p[40] == rec(0x11EF3, 0x11EF6, CM)); assert(p[41] == rec(0x11EF7, 0x11EF8, AL));
        } else if i == 41 { assert(p[41] == rec(0x11EF7, 0x11EF8, AL)); assert(p[42] == rec(0x11FB0, 0x11FB0, AL));
        } else if i == 42 { assert(p[42] == rec(0x11FB0, 0x11FB0, AL)); assert(p[43] == rec(0x11FC0, 0x11FDC, AL));
        } else if i == 43 { assert(p[43] == rec(0x11FC0, 0x11FDC, AL)); assert(p[44] == rec(0x11FDD, 0x11FE0, PO));
        } else if i == 44 { assert(p[44] == rec(0x11FDD, 0x11FE0, PO)); assert(p[45] == rec(0x11FE1, 0x11FF1, AL));
        } else if i == 45 { assert(p[45] == rec(0x11FE1, 0x11FF1, AL)); assert(p[46] == rec(0x11FFF, 0x11FFF, BA));
        } else if i == 46 { assert(p[46] == rec(0x11FFF, 0x11FFF, BA)); assert(p[47] == rec(0x12000, 0x12399, AL));
        } else if i == 47 { assert(p[47] == rec(0x12000, 0x12399, AL)); assert(p[48] == rec(0x12400, 0x1246E, AL));
        } else if i == 48 { assert(p[48] == rec(0x12400, 0x1246E, AL)); assert(p[49] == rec(0x12470, 0x12474, BA));
        } else if i == 49 { assert(p[49] == rec(0x12470, 0x12474, BA));
        }
    }
    assert forall|i: int|
        #![trigger p[i], p[i + 1]]
        0 <= i && i + 1 < p.len() implies p[i].end < p[i + 1].start by {}
    assert(p[0] == rec(0x11A51, 0x11A5B, CM));
    assert(p[49] == rec(0x12470, 0x12474, BA));
}

/// The part's length, order and endpoints.
#[verifier::rlimit(100)]
#[verifier::spinoff_prover]
proof fn lemma_part50_sorted()
    ensures
        records_part50().len() == 50,
        records_sorted(records_part50()),
        records_part50()[0].start == 0x12480,
        records_part50()[49].end == 0x16F92,
{
    let p = records_part50();
    assert forall|i: int|
        0 <= i < p.len() implies ((#[trigger] p[i]).start <= p[i].end && p[i].end <= 0x10FFFF && (
    i + 1 < p.len() ==> p[i].end < p[i + 1].start)) by {
        if i == 0 { assert(p[0] == rec(0x12480, 0x12543, AL)); assert(p[1] == rec(0x12F90, 0x12FF2, AL));
        } else if i == 1 { assert(p[1] == rec(0x12F90, 0x12FF2, AL)); assert(p[2] == rec(0x13000, 0x13257, AL));
        } else if i == 2 { assert(p[2] == rec(0x13000, 0x13257, AL)); assert(p[3] == rec(0x13258, 0x1325A, OP));
        } else if i == 3 { assert(p[3] == rec(0x13258, 0x1325A, OP)); assert(p[4] == rec(0x1325B, 0x1325D, CL));
        } else if i == 4 { assert(p[4] == rec(0x1325B, 0x1325D, CL)); assert(p[5] == rec(0x1325E, 0x13281, AL));
        } else if i == 5 { assert(p[5] == rec(0x1325E, 0x13281, AL)); assert(p[6] == rec(0x13282, 0x13282, CL));
        } else if i == 6 { assert(p[6] == rec(0x13282, 0x13282, CL)); assert(p[7] == rec(0x13283, 0x13285, AL));
        } else if i == 7 { assert(p[7] == rec(0x13283, 0x13285, AL)); assert(p[8] == rec(0x13286, 0x13286, OP));
        } else if i == 8 { assert(p[8] == rec(0x13286, 0x13286, OP)); assert(p[9] == rec(0x13287, 0x13287, CL));
        } else if i == 9 { assert(p[9] == rec(0x13287, 0x13287, CL)); assert(p[10] == rec(0x13288, 0x13288, OP));
        } else if i == 10 { assert(p[10] == rec(0x13288, 0x13288, OP)); assert(p[11] == rec(0x13289, 0x13289, CL));
        } else if i == 11 { assert(p[11] == rec(0x13289, 0x13289, CL)); assert(p[12] == rec(0x1328A, 0x13378, AL));
        } else if i == 12 { assert(p[12] == rec(0x1328A, 0x13378, AL)); assert(p[13] == rec(0x13379, 0x13379, OP));
        } else if i == 13 { assert(p[13] == rec(0x13379, 0x13379, OP)); assert(p[14] == rec(0x1337A, 0x1337B, CL));
        } else if i == 14 { assert(p[14] == rec(0x1337A, 0x1337B, CL)); assert(p[15] == rec(0x1337C, 0x1342E, AL));
        } else if i == 15 { assert(p[15] == rec(0x1337C, 0x1342E, AL)); assert(p[16] == rec(0x13430, 0x13436, GL));
        } else if i == 16 { assert(p[16] == rec(0x13430, 0x13436, GL)); assert(p[17] == rec(0x13437, 0x13437, OP));
        } else if i == 17 { assert(p[17] == rec(0x13437, 0x13437, OP)); assert(p[18] == rec(0x13438, 0x13438, CL));
        } else if i == 18 { assert(p[18] == rec(0x13438, 0x13438, CL)); assert(p[19] == rec(0x14400, 0x145CD, AL));
        } else if i == 19 { assert(p[19] == rec(0x14400, 0x145CD, AL)); assert(p[20] == rec(0x145CE, 0x145CE, OP));
        } else if i == 20 { assert(p[20] == rec(0x145CE, 0x145CE, OP)); assert(p[21] == rec(0x145CF, 0x145CF, CL));
        } else if i == 21 { assert(p[21] == rec(0x145CF, 0x145CF, CL)); assert(p[22] == rec(0x145D0, 0x14646, AL));
        } else if i == 22 { assert(p[22] == rec(0x145D0, 0x14646, AL)); assert(p[23] == rec(0x16800, 0x16A38, AL));
        } else if i == 23 { assert(p[23] == rec(0x16800, 0x16A38, AL)); assert(p[24] == rec(0x16A40, 0x16A5E, AL));
        } else if i == 24 { assert(p[24] == rec(0x16A40, 0x16A5E, AL)); assert(p[25] == rec(0x16A60, 0x16A69, NU));
        } else if i == 25 { assert(p[25] == rec(0x16A60, 0x16A69, NU)); assert(p[26] == rec(0x16A6E, 0x16A6F, BA));
        } else if i == 26 { assert(p[26] == rec(0x16A6E, 0x16A6F, BA)); assert(p[27] == rec(0x16A70, 0x16ABE, AL));
        } else if i == 27 { assert(p[27] == rec(0x16A70, 0x16ABE, AL)); assert(p[28] == rec(0x16AC0, 0x16AC9, NU));
        } else if i == 28 { assert(p[28] == rec(0x16AC0, 0x16AC9, NU)); assert(p[29] == rec(0x16AD0, 0x16AED, AL));
        } else if i == 29 { assert(p[29] == rec(0x16AD0, 0x16AED, AL)); assert(p[30] == rec(0x16AF0, 0x16AF4, CM));
        } else if i == 30 { assert(p[30] == rec(0x16AF0, 0x16AF4, CM)); assert(p[31] == rec(0x16AF5, 0x16AF5, BA));
        } else if i == 31 { assert(p[31] == rec(0x16AF5, 0x16AF5, BA)); assert(p[32] == rec(0x16B00, 0x16B2F, AL));
        } else if i == 32 { assert(p[32] == rec(0x16B00, 0x16B2F, AL)); assert(p[33] == rec(0x16B30, 0x16B36, CM));
        } else if i == 33 { assert(p[33] == rec(0x16B30, 0x16B36, CM)); assert(p[34] == rec(0x16B37, 0x16B39, BA));
        } else if i == 34 { assert(p[34] == rec(0x16B37, 0x16B39, BA)); assert(p[35] == rec(0x16B3A, 0x16B43, AL));
        } else if i == 35 { assert(p[35] == rec(0x16B3A, 0x16B43, AL)); assert(p[36] == rec(0x16B44, 0x16B44, BA));
        } else if i == 36 { assert(p[36] == rec(0x16B44, 0x16B44, BA)); assert(p[37] == rec(0x16B45, 0x16B45, AL));
        } else if i == 37 { assert(p[37] == rec(0x16B45, 0x16B45, AL)); assert(p[38] == rec(0x16B50, 0x16B59, NU));
        } else if i == 38 { assert(p[38] == rec(0x16B50, 0x16B59, NU)); assert(p[39] == rec(0x16B5B, 0x16B61, AL));
        } else if i == 39 { assert(p[39] == rec(0x16B5B, 0x16B61, AL)); assert(p[40] == rec(0x16B63, 0x16B77, AL));
        } else if i == 40 { assert(p[40] == rec(0x16B63, 0x16B77, AL)); assert(p[41] == rec(0x16B7D, 0x16B8F, AL));
        } else if i == 41 { assert(p[41] == rec(0x16B7D, 0x16B8F, AL)); assert(p[42] == rec(0x16E40, 0x16E96, AL));
        } else if i == 42 { assert(p[42] == rec(0x16E40, 0x16E96, AL)); assert(p[43] == rec(0x16E97, 0x16E98, BA));
        } else if i == 43 { assert(p[43] == rec(0x16E97, 0x16E98, BA)); assert(p[44] == rec(0x16E99, 0x16E9A, AL));
        } else if i == 44 { assert(p[44] == rec(0x16E99, 0x16E9A, AL)); assert(p[45] == rec(0x16F00, 0x16F4A, AL));
        } else if i == 45 { assert(p[45] == rec(0x16F00, 0x16F4A, AL)); assert(p[46] == rec(0x16F4F, 0x16F4F, CM));
        } else if i == 46 { assert(p[46] == rec(0x16F4F, 0x16F4F, CM)); assert(p[47] == rec(0x16F50, 0x16F50, AL));
        } else if i == 47 { assert(p[47] == rec(0x16F50, 0x16F50, AL)); assert(p[48] == rec(0x16F51, 0x16F87, CM));
        } else if i == 48 { assert(p[48] == rec(0x16F51, 0x16F87, CM)); assert(p[49] == rec(0x16F8F, 0x16F92, CM));
        } else if i == 49 { assert(p[49] == rec(0x16F8F, 0x16F92, CM));
        }
    }
    assert forall|i: int|
        #![trigger p[i], p[i + 1]]
        0 <= i && i + 1 < p.len() implies p[i].end < p[i + 1].start by {}
    assert(p[0] == rec(0x12480, 0x12543, AL));
    assert(p[49] == rec(0x16F8F, 0x16F92, CM));
}

/// The part's length, order and endpoints.
#[verifier::rlimit(100)]
#[verifier::spinoff_prover]
proof fn lemma_part51_sorted()
    ensures
        records_part51().len() == 50,
        records_sorted(records_part51()),
        records_part51()[0].start == 0x16F93,
        records_part51()[49].end == 0x1D4B9,
{
    let p = records_part51();
    assert forall|i: int|
        0 <= i < p.len() implies ((#[trigger] p[i]).start <= p[i].end && p[i].end <= 0x10FFFF && (
    i + 1 < p.len() ==> p[i].end < p[i + 1].start)) by {
        if i == 0 { assert(p[0] == rec(0x16F93, 0x16F9F, AL)); assert(p[1] == rec(0x16FE0, 0x16FE3, NS));
        } else if i == 1 { assert(p[1] == rec(0x16FE0, 0x16FE3, NS)); assert(p[2] == rec(0x16FE4, 0x16FE4, GL));
        } else if i == 2 { assert(p[2] == rec(0x16FE4, 0x16FE4, GL)); assert(p[3] == rec(0x16FF0, 0x16FF1, CM));
        } else if i == 3 { assert(p[3] == rec(0x16FF0, 0x16FF1, CM)); assert(p[4] == rec(0x17000, 0x187F7, ID));
        } else if i == 4 { assert(p[4] == rec(0x17000, 0x187F7, ID)); assert(p[5] == rec(0x18800, 0x18AFF, ID));
        } else if i == 5 { assert(p[5] == rec(0x18800, 0x18AFF, ID)); assert(p[6] == rec(0x18B00, 0x18CD5, AL));
        } else if i == 6 { assert(p[6] == rec(0x18B00, 0x18CD5, AL)); assert(p[7] == rec(0x18D00, 0x18D08, ID));
        } else if i == 7 { assert(p[7] == rec(0x18D00, 0x18D08, ID)); assert(p[8] == rec(0x1AFF0, 0x1AFF3, AL));
        } else if i == 8 { assert(p[8] == rec(0x1AFF0, 0x1AFF3, AL)); assert(p[9] == rec(0x1AFF5, 0x1AFFB, AL));
        } else if i == 9 { assert(p[9] == rec(0x1AFF5, 0x1AFFB, AL)); assert(p[10] == rec(0x1AFFD, 0x1AFFE, AL));
        } else if i == 10 { assert(p[10] == rec(0x1AFFD, 0x1AFFE, AL)); assert(p[11] == rec(0x1B000, 0x1B122, ID));
        } else if i == 11 { assert(p[11] == rec(0x1B000, 0x1B122, ID)); assert(p[12] == rec(0x1B150, 0x1B152, CJ));
        } else if i == 12 { assert(p[12] == rec(0x1B150, 0x1B152, CJ)); assert(p[13] == rec(0x1B164, 0x1B167, CJ));
        } else if i == 13 { assert(p[13] == rec(0x1B164, 0x1B167, CJ)); assert(p[14] == rec(0x1B170, 0x1B2FB, ID));
        } else if i == 14 { assert(p[14] == rec(0x1B170, 0x1B2FB, ID)); assert(p[15] == rec(0x1BC00, 0x1BC6A, AL));
        } else if i == 15 { assert(p[15] == rec(0x1BC00, 0x1BC6A, AL)); assert(p[16] == rec(0x1BC70, 0x1BC7C, AL));
        } else if i == 16 { assert(p[16] == rec(0x1BC70, 0x1BC7C, AL)); assert(p[17] == rec(0x1BC80, 0x1BC88, AL));
        } else if i == 17 { assert(p[17] == rec(0x1BC80, 0x1BC88, AL)); assert(p[18] == rec(0x1BC90, 0x1BC99, AL));
        } else if i == 18 { assert(p[18] == rec(0x1BC90, 0x1BC99, AL)); assert(p[19] == rec(0x1BC9C, 0x1BC9C, AL));
        } else if i == 19 { assert(p[19] == rec(0x1BC9C, 0x1BC9C, AL)); assert(p[20] == rec(0x1BC9D, 0x1BC9E, CM));
        } else if i == 20 { assert(p[20] == rec(0x1BC9D, 0x1BC9E, CM)); assert(p[21] == rec(0x1BC9F, 0x1BC9F, BA));
        } else if i == 21 { assert(p[21] == rec(0x1BC9F, 0x1BC9F, BA)); assert(p[22] == rec(0x1BCA0, 0x1BCA3, CM));
        } else if i == 22 { assert(p[22] == rec(0x1BCA0, 0x1BCA3, CM)); assert(p[23] == rec(0x1CF00, 0x1CF2D, CM));
        } else if i == 23 { assert(p[23] == rec(0x1CF00, 0x1CF2D, CM)); assert(p[24] == rec(0x1CF30, 0x1CF46, CM));
        } else if i == 24 { assert(p[24] == rec(0x1CF30, 0x1CF46, CM)); assert(p[25] == rec(0x1CF50, 0x1CFC3, AL));
        } else if i == 25 { assert(p[25] == rec(0x1CF50, 0x1CFC3, AL)); assert(p[26] == rec(0x1D000, 0x1D0F5, AL));
        } else if i == 26 { assert(p[26] == rec(0x1D000, 0x1D0F5, AL)); assert(p[27] == rec(0x1D100, 0x1D126, AL));
        } else if i == 27 { assert(p[27] == rec(0x1D100, 0x1D126, AL)); assert(p[28] == rec(0x1D129, 0x1D164, AL));
        } else if i == 28 { assert(p[28] == rec(0x1D129, 0x1D164, AL)); assert(p[29] == rec(0x1D165, 0x1D169, CM));
        } else if i == 29 { assert(p[29] == rec(0x1D165, 0x1D169, CM)); assert(p[30] == rec(0x1D16A, 0x1D16C, AL));
        } else if i == 30 { assert(p[30] == rec(0x1D16A, 0x1D16C, AL)); assert(p[31] == rec(0x1D16D, 0x1D182, CM));
        } else if i == 31 { assert(p[31] == rec(0x1D16D, 0x1D182, CM)); assert(p[32] == rec(0x1D183, 0x1D184, AL));
        } else if i == 32 { assert(p[32] == rec(0x1D183, 0x1D184, AL)); assert(p[33] == rec(0x1D185, 0x1D18B, CM));
        } else if i == 33 { assert(p[33] == rec(0x1D185, 0x1D18B, CM)); assert(p[34] == rec(0x1D18C, 0x1D1A9, AL));
        } else if i == 34 { assert(p[34] == rec(0x1D18C, 0x1D1A9, AL)); assert(p[35] == rec(0x1D1AA, 0x1D1AD, CM));
        } else if i == 35 { assert(p[35] == rec(0x1D1AA, 0x1D1AD, CM)); assert(p[36] == rec(0x1D1AE, 0x1D1EA, AL));
        } else if i == 36 { assert(p[36] == rec(0x1D1AE, 0x1D1EA, AL)); assert(p[37] == rec(0x1D200, 0x1D241, AL));
        } else if i == 37 { assert(p[37] == rec(0x1D200, 0x1D241, AL)); assert(p[38] == rec(0x1D242, 0x1D244, CM));
        } else if i == 38 { assert(p[38] == rec(0x1D242, 0x1D244, CM)); assert(p[39] == rec(0x1D245, 0x1D245, AL));
        } else if i == 39 { assert(p[39] == rec(0x1D245, 0x1D245, AL)); assert(p[40] == rec(0x1D2E0, 0x1D2F3, AL));
        } else if i == 40 { assert(p[40] == rec(0x1D2E0, 0x1D2F3, AL)); assert(p[41] == rec(0x1D300, 0x1D356, AL));
        } else if i == 41 { assert(p[41] == rec(0x1D300, 0x1D356, AL)); assert(p[42] == rec(0x1D360, 0x1D378, AL));
        } else if i == 42 { assert(p[42] == rec(0x1D360, 0x1D378, AL)); assert(p[43] == rec(0x1D400, 0x1D454, AL));
        } else if i == 43 { assert(p[43] == rec(0x1D400, 0x1D454, AL)); assert(p[44] == rec(0x1D456, 0x1D49C, AL));
        } else if i == 44 { assert(p[44] == rec(0x1D456, 0x1D49C, AL)); assert(p[45] == rec(0x1D49E, 0x1D49F, AL));
        } else if i == 45 { assert(p[45] == rec(0x1D49E, 0x1D49F, AL)); assert(p[46] == rec(0x1D4A2, 0x1D4A2, AL));
        } else if i == 46 { assert(p[46] == rec(0x1D4A2, 0x1D4A2, AL)); assert(p[47] == rec(0x1D4A5, 0x1D4A6, AL));
        } else if i == 47 { assert(p[47] == rec(0x1D4A5, 0x1D4A6, AL)); assert(p[48] == rec(0x1D4A9, 0x1D4AC, AL));
        } else if i == 48 { assert(p[48] == rec(0x1D4A9, 0x1D4AC, AL)); assert(p[49] == rec(0x1D4AE, 0x1D4B9, AL));
        } else if i == 49 { assert(p[49] == rec(0x1D4AE, 0x1D4B9, AL));
        }
    }
    assert forall|i: int|
        #![trigger p[i], p[i + 1]]
        0 <= i && i + 1 < p.len() implies p[i].end < p[i + 1].start by {}
    assert(p[0] == rec(0x16F93, 0x16F9F, AL));
    assert(p[49] == rec(0x1D4AE, 0x1D4B9, AL));
}

/// The part's length, order and endpoints.
#[verifier::rlimit(100)]
#[verifier::spinoff_prover]
proof fn lemma_part52_sorted()
    ensures
        records_part52().len() == 50,
        records_sorted(records_part52()),
        records_part52()[0].start == 0x1D4BB,
        records_part52()[49].end == 0x1E8CF,
{
    let p = records_part52();
    assert forall|i: int|
        0 <= i < p.len() implies ((#[trigger] p[i]).start <= p[i].end && p[i].end <= 0x10FFFF && (
    i + 1 < p.len() ==> p[i].end < p[i + 1].start)) by {
        if i == 0 { assert(p[0] == rec(0x1D4BB, 0x1D4BB, AL)); assert(p[1] == rec(0x1D4BD, 0x1D4C3, AL));
        } else if i == 1 { assert(p[1] == rec(0x1D4BD, 0x1D4C3, AL)); assert(p[2] == rec(0x1D4C5, 0x1D505, AL));
        } else if i == 2 { assert(p[2] == rec(0x1D4C5, 0x1D505, AL)); assert(p[3] == rec(0x1D507, 0x1D50A, AL));
        } else if i == 3 { assert(p[3] == rec(0x1D507, 0x1D50A, AL)); assert(p[4] == rec(0x1D50D, 0x1D514, AL));
        } else if i == 4 { assert(p[4] == rec(0x1D50D, 0x1D514, AL)); assert(p[5] == rec(0x1D516, 0x1D51C, AL));
        } else if i == 5 { assert(p[5] == rec(0x1D516, 0x1D51C, AL)); assert(p[6] == rec(0x1D51E, 0x1D539, AL));
        } else if i == 6 { assert(p[6] == rec(0x1D51E, 0x1D539, AL)); assert(p[7] == rec(0x1D53B, 0x1D53E, AL));
        } else if i == 7 { assert(p[7] == rec(0x1D53B, 0x1D53E, AL)); assert(p[8] == rec(0x1D540, 0x1D544, AL));
        } else if i == 8 { assert(p[8] == rec(0x1D540, 0x1D544, AL)); assert(p[9] == rec(0x1D546, 0x1D546, AL));
        } else if i == 9 { assert(p[9] == rec(0x1D546, 0x1D546, AL)); assert(p[10] == rec(0x1D54A, 0x1D550, AL));
        } else if i == 10 { assert(p[10] == rec(0x1D54A, 0x1D550, AL)); assert(p[11] == rec(0x1D552, 0x1D6A5, AL));
        } else if i == 11 { assert(p[11] == rec(0x1D552, 0x1D6A5, AL)); assert(p[12] == rec(0x1D6A8, 0x1D7CB, AL));
        } else if i == 12 { assert(p[12] == rec(0x1D6A8, 0x1D7CB, AL)); assert(p[13] == rec(0x1D7CE, 0x1D7FF, NU));
        } else if i == 13 { assert(p[13] == rec(0x1D7CE, 0x1D7FF, NU)); assert(p[14] == rec(0x1D800, 0x1D9FF, AL));
        } else if i == 14 { assert(p[14] == rec(0x1D800, 0x1D9FF, AL)); assert(p[15] == rec(0x1DA00, 0x1DA36, CM));
        } else if i == 15 { assert(p[15] == rec(0x1DA00, 0x1DA36, CM)); assert(p[16] == rec(0x1DA37, 0x1DA3A, AL));
        } else if i == 16 { assert(p[16] == rec(0x1DA37, 0x1DA3A, AL)); assert(p[17] == rec(0x1DA3B, 0x1DA6C, CM));
        } else if i == 17 { assert(p[17] == rec(0x1DA3B, 0x1DA6C, CM)); assert(p[18] == rec(0x1DA6D, 0x1DA74, AL));
        } else if i == 18 { assert(p[18] == rec(0x1DA6D, 0x1DA74, AL)); assert(p[19] == rec(0x1DA75, 0x1DA75, CM));
        } else if i == 19 { assert(p[19] == rec(0x1DA75, 0x1DA75, CM)); assert(p[20] == rec(0x1DA76, 0x1DA83, AL));
        } else if i == 20 { assert(p[20] == rec(0x1DA76, 0x1DA83, AL)); assert(p[21] == rec(0x1DA84, 0x1DA84, CM));
        } else if i == 21 { assert(p[21] == rec(0x1DA84, 0x1DA84, CM)); assert(p[22] == rec(0x1DA85, 0x1DA86, AL));
        } else if i == 22 { assert(p[22] == rec(0x1DA85, 0x1DA86, AL)); assert(p[23] == rec(0x1DA87, 0x1DA8A, BA));
        } else if i == 23 { assert(p[23] == rec(0x1DA87, 0x1DA8A, BA)); assert(p[24] == rec(0x1DA8B, 0x1DA8B, AL));
        } else if i == 24 { assert(p[24] == rec(0x1DA8B, 0x1DA8B, AL)); assert(p[25] == rec(0x1DA9B, 0x1DA9F, CM));
        } else if i == 25 { assert(p[25] == rec(0x1DA9B, 0x1DA9F, CM)); assert(p[26] == rec(0x1DAA1, 0x1DAAF, CM));
        } else if i == 26 { assert(p[26] == rec(0x1DAA1, 0x1DAAF, CM)); assert(p[27] == rec(0x1DF00, 0x1DF1E, AL));
        } else if i == 27 { assert(p[27] == rec(0x1DF00, 0x1DF1E, AL)); assert(p[28] == rec(0x1E000, 0x1E006, CM));
        } else if i == 28 { assert(p[28] == rec(0x1E000, 0x1E006, CM)); assert(p[29] == rec(0x1E008, 0x1E018, CM));
        } else if i == 29 { assert(p[29] == rec(0x1E008, 0x1E018, CM)); assert(p[30] == rec(0x1E01B, 0x1E021, CM));
        } else if i == 30 { assert(p[30] == rec(0x1E01B, 0x1E021, CM)); assert(p[31] == rec(0x1E023, 0x1E024, CM));
        } else if i == 31 { assert(p[31] == rec(0x1E023, 0x1E024, CM)); assert(p[32] == rec(0x1E026, 0x1E02A, CM));
        } else if i == 32 { assert(p[32] == rec(0x1E026, 0x1E02A, CM)); assert(p[33] == rec(0x1E100, 0x1E12C, AL));
        } else if i == 33 { assert(p[33] == rec(0x1E100, 0x1E12C, AL)); assert(p[34] == rec(0x1E130, 0x1E136, CM));
        } else if i == 34 { assert(p[34] == rec(0x1E130, 0x1E136, CM)); assert(p[35] == rec(0x1E137, 0x1E13D, AL));
        } else if i == 35 { assert(p[35] == rec(0x1E137, 0x1E13D, AL)); assert(p[36] == rec(0x1E140, 0x1E149, NU));
        } else if i == 36 { assert(p[36] == rec(0x1E140, 0x1E149, NU)); assert(p[37] == rec(0x1E14E, 0x1E14F, AL));
        } else if i == 37 { assert(p[37] == rec(0x1E14E, 0x1E14F, AL)); assert(p[38] == rec(0x1E290, 0x1E2AD, AL));
        } else if i == 38 { assert(p[38] == rec(0x1E290, 0x1E2AD, AL)); assert(p[39] == rec(0x1E2AE, 0x1E2AE, CM));
        } else if i == 39 { assert(p[39] == rec(0x1E2AE, 0x1E2AE, CM)); assert(p[40] == rec(0x1E2C0, 0x1E2EB, AL));
        } else if i == 40 { assert(p[40] == rec(0x1E2C0, 0x1E2EB, AL)); assert(p[41] == rec(0x1E2EC, 0x1E2EF, CM));
        } else if i == 41 { assert(p[41] == rec(0x1E2EC, 0x1E2EF, CM)); assert(p[42] == rec(0x1E2F0, 0x1E2F9, NU));
        } else if i == 42 { assert(p[42] == rec(0x1E2F0, 0x1E2F9, NU)); assert(p[43] == rec(0x1E2FF, 0x1E2FF, PR));
        } else if i == 43 { assert(p[43] == rec(0x1E2FF, 0x1E2FF, PR)); assert(p[44] == rec(0x1E7E0, 0x1E7E6, AL));
        } else if i == 44 { assert(p[44] == rec(0x1E7E0, 0x1E7E6, AL)); assert(p[45] == rec(0x1E7E8, 0x1E7EB, AL));
        } else if i == 45 { assert(p[45] == rec(0x1E7E8, 0x1E7EB, AL)); assert(p[46] == rec(0x1E7ED, 0x1E7EE, AL));
        } else if i == 46 { assert(p[46] == rec(0x1E7ED, 0x1E7EE, AL)); assert(p[47] == rec(0x1E7F0, 0x1E7FE, AL));
        } else if i == 47 { assert(p[47] == rec(0x1E7F0, 0x1E7FE, AL)); assert(p[48] == rec(0x1E800, 0x1E8C4, AL));
        } else if i == 48 { assert(p[48] == rec(0x1E800, 0x1E8C4, AL)); assert(p[49] == rec(0x1E8C7, 0x1E8CF, AL));
        } else if i == 49 { assert(p[49] == rec(0x1E8C7, 0x1E8CF, AL));
        }
    }
    assert forall|i: int|
        #![trigger p[i], p[i + 1]]
        0 <= i && i + 1 < p.len() implies p[i].end < p[i + 1].start by {}
    assert(p[0] == rec(0x1D4BB, 0x1D4BB, AL));
    assert(p[49] == rec(0x1E8C7, 0x1E8CF, AL));
}

/// The part's length, order and endpoints.
#[verifier::rlimit(100)]
#[verifier::spinoff_prover]
proof fn lemma_part53_sorted()
    ensures
        records_part53().len() == 50,
        records_sorted(records_part53()),
        records_part53()[0].start == 0x1E8D0,
        records_part53()[49].end == 0x1F12D,
{
    let p = records_part53();
    assert forall|i: int|
        0 <= i < p.len() implies ((#[trigger] p[i]).start <= p[i].end && p[i].end <= 0x10FFFF && (
    i + 1 < p.len() ==> p[i].end < p[i + 1].start)) by {
        if i == 0 { assert(p[0] == rec(0x1E8D0, 0x1E8D6, CM)); assert(p[1] == rec(0x1E900, 0x1E943, AL));
        } else if i == 1 { assert(p[1] == rec(0x1E900, 0x1E943, AL)); assert(p[2] == rec(0x1E944, 0x1E94A, CM));
        } else if i == 2 { assert(p[2] == rec(0x1E944, 0x1E94A, CM)); assert(p[3] == rec(0x1E94B, 0x1E94B, AL));
        } else if i == 3 { assert(p[3] == rec(0x1E94B, 0x1E94B, AL)); assert(p[4] == rec(0x1E950, 0x1E959, NU));
        } else if i == 4 { assert(p[4] == rec(0x1E950, 0x1E959, NU)); assert(p[5] == rec(0x1E95E, 0x1E95F, OP));
        } else if i == 5 { assert(p[5] == rec(0x1E95E, 0x1E95F, OP)); assert(p[6] == rec(0x1EC71, 0x1ECAB, AL));
        } else if i == 6 { assert(p[6] == rec(0x1EC71, 0x1ECAB, AL)); assert(p[7] == rec(0x1ECAC, 0x1ECAC, PO));
        } else if i == 7 { assert(p[7] == rec(0x1ECAC, 0x1ECAC, PO)); assert(p[8] == rec(0x1ECAD, 0x1ECAF, AL));
        } else if i == 8 { assert(p[8] == rec(0x1ECAD, 0x1ECAF, AL)); assert(p[9] == rec(0x1ECB0, 0x1ECB0, PO));
        } else if i == 9 { assert(p[9] == rec(0x1ECB0, 0x1ECB0, PO)); assert(p[10] == rec(0x1ECB1, 0x1ECB4, AL));
        } else if i == 10 { assert(p[10] == rec(0x1ECB1, 0x1ECB4, AL)); assert(p[11] == rec(0x1ED01, 0x1ED3D, AL));
        } else if i == 11 { assert(p[11] == rec(0x1ED01, 0x1ED3D, AL)); assert(p[12] == rec(0x1EE00, 0x1EE03, AL));
        } else if i == 12 { assert(p[12] == rec(0x1EE00, 0x1EE03, AL)); assert(p[13] == rec(0x1EE05, 0x1EE1F, AL));
        } else if i == 13 { assert(p[13] == rec(0x1EE05, 0x1EE1F, AL)); assert(p[14] == rec(0x1EE21, 0x1EE22, AL));
        } else if i == 14 { assert(p[14] == rec(0x1EE21, 0x1EE22, AL)); assert(p[15] == rec(0x1EE24, 0x1EE24, AL));
        } else if i == 15 { assert(p[15] == rec(0x1EE24, 0x1EE24, AL)); assert(p[16] == rec(0x1EE27, 0x1EE27, AL));
        } else if i == 16 { assert(p[16] == rec(0x1EE27, 0x1EE27, AL)); assert(p[17] == rec(0x1EE29, 0x1EE32, AL));
        } else if i == 17 { assert(p[17] == rec(0x1EE29, 0x1EE32, AL)); assert(p[18] == rec(0x1EE34, 0x1EE37, AL));
        } else if i == 18 { assert(p[18] == rec(0x1EE34, 0x1EE37, AL)); assert(p[19] == rec(0x1EE39, 0x1EE39, AL));
        } else if i == 19 { assert(p[19] == rec(0x1EE39, 0x1EE39, AL)); assert(p[20] == rec(0x1EE3B, 0x1EE3B, AL));
        } else if i == 20 { assert(p[20] == rec(0x1EE3B, 0x1EE3B, AL)); assert(p[21] == rec(0x1EE42, 0x1EE42, AL));
        } else if i == 21 { assert(p[21] == rec(0x1EE42, 0x1EE42, AL)); assert(p[22] == rec(0x1EE47, 0x1EE47, AL));
        } else if i == 22 { assert(p[22] == rec(0x1EE47, 0x1EE47, AL)); assert(p[23] == rec(0x1EE49, 0x1EE49, AL));
        } else if i == 23 { assert(p[23] == rec(0x1EE49, 0x1EE49, AL)); assert(p[24] == rec(0x1EE4B, 0x1EE4B, AL));
        } else if i == 24 { assert(p[24] == rec(0x1EE4B, 0x1EE4B, AL)); assert(p[25] == rec(0x1EE4D, 0x1EE4F, AL));
        } else if i == 25 { assert(p[25] == rec(0x1EE4D, 0x1EE4F, AL)); assert(p[26] == rec(0x1EE51, 0x1EE52, AL));
        } else if i == 26 { assert(p[26] == rec(0x1EE51, 0x1EE52, AL)); assert(p[27] == rec(0x1EE54, 0x1EE54, AL));
        } else if i == 27 { assert(p[27] == rec(0x1EE54, 0x1EE54, AL)); assert(p[28] == rec(0x1EE57, 0x1EE57, AL));
        } else if i == 28 { assert(p[28] == rec(0x1EE57, 0x1EE57, AL)); assert(p[29] == rec(0x1EE59, 0x1EE59, AL));
        } else if i == 29 { assert(p[29] == rec(0x1EE59, 0x1EE59, AL)); assert(p[30] == rec(0x1EE5B, 0x1EE5B, AL));
        } else if i == 30 { assert(p[30] == rec(0x1EE5B, 0x1EE5B, AL)); assert(p[31] == rec(0x1EE5D, 0x1EE5D, AL));
        } else if i == 31 { assert(p[31] == rec(0x1EE5D, 0x1EE5D, AL)); assert(p[32] == rec(0x1EE5F, 0x1EE5F, AL));
        } else if i == 32 { assert(p[32] == rec(0x1EE5F, 0x1EE5F, AL)); assert(p[33] == rec(0x1EE61, 0x1EE62, AL));
        } else if i == 33 { assert(p[33] == rec(0x1EE61, 0x1EE62, AL)); assert(p[34] == rec(0x1EE64, 0x1EE64, AL));
        } else if i == 34 { assert(p[34] == rec(0x1EE64, 0x1EE64, AL)); assert(p[35] == rec(0x1EE67, 0x1EE6A, AL));
        } else if i == 35 { assert(p[35] == rec(0x1EE67, 0x1EE6A, AL)); assert(p[36] == rec(0x1EE6C, 0x1EE72, AL));
        } else if i == 36 { assert(p[36] == rec(0x1EE6C, 0x1EE72, AL)); assert(p[37] == rec(0x1EE74, 0x1EE77, AL));
        } else if i == 37 { assert(p[37] == rec(0x1EE74, 0x1EE77, AL)); assert(p[38] == rec(0x1EE79, 0x1EE7C, AL));
        } else if i == 38 { assert(p[38] == rec(0x1EE79, 0x1EE7C, AL)); assert(p[39] == rec(0x1EE7E, 0x1EE7E, AL));
        } else if i == 39 { assert(p[39] == rec(0x1EE7E, 0x1EE7E, AL)); assert(p[40] == rec(0x1EE80, 0x1EE89, AL));
        } else if i == 40 { assert(p[40] == rec(0x1EE80, 0x1EE89, AL)); assert(p[41] == rec(0x1EE8B, 0x1EE9B, AL));
        } else if i == 41 { assert(p[41] == rec(0x1EE8B, 0x1EE9B, AL)); assert(p[42] == rec(0x1EEA1, 0x1EEA3, AL));
        } else if i == 42 { assert(p[42] == rec(0x1EEA1, 0x1EEA3, AL)); assert(p[43] == rec(0x1EEA5, 0x1EEA9, AL));
        } else if i == 43 { assert(p[43] == rec(0x1EEA5, 0x1EEA9, AL)); assert(p[44] == rec(0x1EEAB, 0x1EEBB, AL));
        } else if i == 44 { assert(p[44] == rec(0x1EEAB, 0x1EEBB, AL)); assert(p[45] == rec(0x1EEF0, 0x1EEF1, AL));
        } else if i == 45 { assert(p[45] == rec(0x1EEF0, 0x1EEF1, AL)); assert(p[46] == rec(0x1F000, 0x1F0FF, ID));
        } else if i == 46 { assert(p[46] == rec(0x1F000, 0x1F0FF, ID)); assert(p[47] == rec(0x1F100, 0x1F10C, AI));
        } else if i == 47 { assert(p[47] == rec(0x1F100, 0x1F10C, AI)); assert(p[48] == rec(0x1F10D, 0x1F10F, ID));
        } else if i == 48 { assert(p[48] == rec(0x1F10D, 0x1F10F, ID)); assert(p[49] == rec(0x1F110, 0x1F12D, AI));
        } else if i == 49 { assert(p[49] == rec(0x1F110, 0x1F12D, AI));
        }
    }
    assert forall|i: int|
        #![trigger p[i], p[i + 1]]
        0 <= i && i + 1 < p.len() implies p[i].end < p[i + 1].start by {}
    assert(p[0] == rec(0x1E8D0, 0x1E8D6, CM));
    assert(p[49] == rec(0x1F110, 0x1F12D, AI));
}

/// The part's length, order and endpoints.
#[verifier::rlimit(100)]
#[verifier::spinoff_prover]
proof fn lemma_part54_sorted()
    ensures
        records_part54().len() == 50,
        records_sorted(records_part54()),
        records_part54()[0].start == 0x1F12E,
        records_part54()[49].end == 0x1F4B0,
{
    let p = records_part54();
    assert forall|i: int|
        0 <= i < p.len() implies ((#[trigger] p[i]).start <= p[i].end && p[i].end <= 0x10FFFF && (
    i + 1 < p.len() ==> p[i].end < p[i + 1].start)) by {
        if i == 0 { assert(p[0] == rec(0x1F12E, 0x1F12F, AL)); assert(p[1] == rec(0x1F130, 0x1F169, AI));
        } else if i == 1 { assert(p[1] == rec(0x1F130, 0x1F169, AI)); assert(p[2] == rec(0x1F16A, 0x1F16C, AL));
        } else if i == 2 { assert(p[2] == rec(0x1F16A, 0x1F16C, AL)); assert(p[3] == rec(0x1F16D, 0x1F16F, ID));
        } else if i == 3 { assert(p[3] == rec(0x1F16D, 0x1F16F, ID)); assert(p[4] == rec(0x1F170, 0x1F1AC, AI));
        } else if i == 4 { assert(p[4] == rec(0x1F170, 0x1F1AC, AI)); assert(p[5] == rec(0x1F1AD, 0x1F1E5, ID));
        } else if i == 5 { assert(p[5] == rec(0x1F1AD, 0x1F1E5, ID)); assert(p[6] == rec(0x1F1E6, 0x1F1FF, RI));
        } else if i == 6 { assert(p[6] == rec(0x1F1E6, 0x1F1FF, RI)); assert(p[7] == rec(0x1F200, 0x1F384, ID));
        } else if i == 7 { assert(p[7] == rec(0x1F200, 0x1F384, ID)); assert(p[8] == rec(0x1F385, 0x1F385, EB));
        } else if i == 8 { assert(p[8] == rec(0x1F385, 0x1F385, EB)); assert(p[9] == rec(0x1F386, 0x1F39B, ID));
        } else if i == 9 { assert(p[9] == rec(0x1F386, 0x1F39B, ID)); assert(p[10] == rec(0x1F39C, 0x1F39D, AL));
        } else if i == 10 { assert(p[10] == rec(0x1F39C, 0x1F39D, AL)); assert(p[11] == rec(0x1F39E, 0x1F3B4, ID));
        } else if i == 11 { assert(p[11] == rec(0x1F39E, 0x1F3B4, ID)); assert(p[12] == rec(0x1F3B5, 0x1F3B6, AL));
        } else if i == 12 { assert(p[12] == rec(0x1F3B5, 0x1F3B6, AL)); assert(p[13] == rec(0x1F3B7, 0x1F3BB, ID));
        } else if i == 13 { assert(p[13] == rec(0x1F3B7, 0x1F3BB, ID)); assert(p[14] == rec(0x1F3BC, 0x1F3BC, AL));
        } else if i == 14 { assert(p[14] == rec(0x1F3BC, 0x1F3BC, AL)); assert(p[15] == rec(0x1F3BD, 0x1F3C1, ID));
        } else if i == 15 { assert(p[15] == rec(0x1F3BD, 0x1F3C1, ID)); assert(p[16] == rec(0x1F3C2, 0x1F3C4, EB));
        } else if i == 16 { assert(p[16] == rec(0x1F3C2, 0x1F3C4, EB)); assert(p[17] == rec(0x1F3C5, 0x1F3C6, ID));
        } else if i == 17 { assert(p[17] == rec(0x1F3C5, 0x1F3C6, ID)); assert(p[18] == rec(0x1F3C7, 0x1F3C7, EB));
        } else if i == 18 { assert(p[18] == rec(0x1F3C7, 0x1F3C7, EB)); assert(p[19] == rec(0x1F3C8, 0x1F3C9, ID));
        } else if i == 19 { assert(p[19] == rec(0x1F3C8, 0x1F3C9, ID)); assert(p[20] == rec(0x1F3CA, 0x1F3CC, EB));
        } else if i == 20 { assert(p[20] == rec(0x1F3CA, 0x1F3CC, EB)); assert(p[21] == rec(0x1F3CD, 0x1F3FA, ID));
        } else if i == 21 { assert(p[21] == rec(0x1F3CD, 0x1F3FA, ID)); assert(p[22] == rec(0x1F3FB, 0x1F3FF, EM));
        } else if i == 22 { assert(p[22] == rec(0x1F3FB, 0x1F3FF, EM)); assert(p[23] == rec(0x1F400, 0x1F441, ID));
        } else if i == 23 { assert(p[23] == rec(0x1F400, 0x1F441, ID)); assert(p[24] == rec(0x1F442, 0x1F443, EB));
        } else if i == 24 { assert(p[24] == rec(0x1F442, 0x1F443, EB)); assert(p[25] == rec(0x1F444, 0x1F445, ID));
        } else if i == 25 { assert(p[25] == rec(0x1F444, 0x1F445, ID)); assert(p[26] == rec(0x1F446, 0x1F450, EB));
        } else if i == 26 { assert(p[26] == rec(0x1F446, 0x1F450, EB)); assert(p[27] == rec(0x1F451, 0x1F465, ID));
        } else if i == 27 { assert(p[27] == rec(0x1F451, 0x1F465, ID)); assert(p[28] == rec(0x1F466, 0x1F478, EB));
        } else if i == 28 { assert(p[28] == rec(0x1F466, 0x1F478, EB)); assert(p[29] == rec(0x1F479, 0x1F47B, ID));
        } else if i == 29 { assert(p[29] == rec(0x1F479, 0x1F47B, ID)); assert(p[30] == rec(0x1F47C, 0x1F47C, EB));
        } else if i == 30 { assert(p[30] == rec(0x1F47C, 0x1F47C, EB)); assert(p[31] == rec(0x1F47D, 0x1F480, ID));
        } else if i == 31 { assert(p[31] == rec(0x1F47D, 0x1F480, ID)); assert(p[32] == rec(0x1F481, 0x1F483, EB));
        } else if i == 32 { assert(p[32] == rec(0x1F481, 0x1F483, EB)); assert(p[33] == rec(0x1F484, 0x1F484, ID));
        } else if i == 33 { assert(p[33] == rec(0x1F484, 0x1F484, ID)); assert(p[34] == rec(0x1F485, 0x1F487, EB));
        } else if i == 34 { assert(p[34] == rec(0x1F485, 0x1F487, EB)); assert(p[35] == rec(0x1F488, 0x1F48E, ID));
        } else if i == 35 { assert(p[35] == rec(0x1F488, 0x1F48E, ID)); assert(p[36] == rec(0x1F48F, 0x1F48F, EB));
        } else if i == 36 { assert(p[36] == rec(0x1F48F, 0x1F48F, EB)); assert(p[37] == rec(0x1F490, 0x1F490, ID));
        } else if i == 37 { assert(p[37] == rec(0x1F490, 0x1F490, ID)); assert(p[38] == rec(0x1F491, 0x1F491, EB));
        } else if i == 38 { assert(p[38] == rec(0x1F491, 0x1F491, EB)); assert(p[39] == rec(0x1F492, 0x1F49F, ID));
        } else if i == 39 { assert(p[39] == rec(0x1F492, 0x1F49F, ID)); assert(p[40] == rec(0x1F4A0, 0x1F4A0, AL));
        } else if i == 40 { assert(p[40] == rec(0x1F4A0, 0x1F4A0, AL)); assert(p[41] == rec(0x1F4A1, 0x1F4A1, ID));
        } else if i == 41 { assert(p[41] == rec(0x1F4A1, 0x1F4A1, ID)); assert(p[42] == rec(0x1F4A2, 0x1F4A2, AL));
        } else if i == 42 { assert(p[42] == rec(0x1F4A2, 0x1F4A2, AL)); assert(p[43] == rec(0x1F4A3, 0x1F4A3, ID));
        } else if i == 43 { assert(p[43] == rec(0x1F4A3, 0x1F4A3, ID)); assert(p[44] == rec(0x1F4A4, 0x1F4A4, AL));
        } else if i == 44 { assert(p[44] == rec(0x1F4A4, 0x1F4A4, AL)); assert(p[45] == rec(0x1F4A5, 0x1F4A9, ID));
        } else if i == 45 { assert(p[45] == rec(0x1F4A5, 0x1F4A9, ID)); assert(p[46] == rec(0x1F4AA, 0x1F4AA, EB));
        } else if i == 46 { assert(p[46] == rec(0x1F4AA, 0x1F4AA, EB)); assert(p[47] == rec(0x1F4AB, 0x1F4AE, ID));
        } else if i == 47 { assert(p[47] == rec(0x1F4AB, 0x1F4AE, ID)); assert(p[48] == rec(0x1F4AF, 0x1F4AF, AL));
        } else if i == 48 { assert(p[48] == rec(0x1F4AF, 0x1F4AF, AL)); assert(p[49] == rec(0x1F4B0, 0x1F4B0, ID));
        } else if i == 49 { assert(p[49] == rec(0x1F4B0, 0x1F4B0, ID));
        }
    }
    assert forall|i: int|
        #![trigger p[i], p[i + 1]]
        0 <= i && i + 1 < p.len() implies p[i].end < p[i + 1].start by {}
    assert(p[0] == rec(0x1F12E, 0x1F12F, AL));
    assert(p[49] == rec(0x1F4B0, 0x1F4B0, ID));
}

/// The part's length, order and endpoints.
#[verifier::rlimit(100)]
#[verifier::spinoff_prover]
proof fn lemma_part55_sorted()
    ensures
        records_part55().len() == 50,
        records_sorted(records_part55()),
        records_part55()[0].start == 0x1F4B1,
        records_part55()[49].end == 0x1F8FF,
{
    let p = records_part55();
    assert forall|i: int|
        0 <= i < p.len() implies ((#[trigger] p[i]).start <= p[i].end && p[i].end <= 0x10FFFF && (
    i + 1 < p.len() ==> p[i].end < p[i + 1].start)) by {
        if i == 0 { assert(p[0] == rec(0x1F4B1, 0x1F4B2, AL)); assert(p[1] == rec(0x1F4B3, 0x1F4FF, ID));
        } else if i == 1 { assert(p[1] == rec(0x1F4B3, 0x1F4FF, ID)); assert(p[2] == rec(0x1F500, 0x1F506, AL));
        } else if i == 2 { assert(p[2] == rec(0x1F500, 0x1F506, AL)); assert(p[3] == rec(0x1F507, 0x1F516, ID));
        } else if i == 3 { assert(p[3] == rec(0x1F507, 0x1F516, ID)); assert(p[4] == rec(0x1F517, 0x1F524, AL));
        } else if i == 4 { assert(p[4] == rec(0x1F517, 0x1F524, AL)); assert(p[5] == rec(0x1F525, 0x1F531, ID));
        } else if i == 5 { assert(p[5] == rec(0x1F525, 0x1F531, ID)); assert(p[6] == rec(0x1F532, 0x1F549, AL));
        } else if i == 6 { assert(p[6] == rec(0x1F532, 0x1F549, AL)); assert(p[7] == rec(0x1F54A, 0x1F573, ID));
        } else if i == 7 { assert(p[7] == rec(0x1F54A, 0x1F573, ID)); assert(p[8] == rec(0x1F574, 0x1F575, EB));
        } else if i == 8 { assert(p[8] == rec(0x1F574, 0x1F575, EB)); assert(p[9] == rec(0x1F576, 0x1F579, ID));
        } else if i == 9 { assert(p[9] == rec(0x1F576, 0x1F579, ID)); assert(p[10] == rec(0x1F57A, 0x1F57A, EB));
        } else if i == 10 { assert(p[10] == rec(0x1F57A, 0x1F57A, EB)); assert(p[11] == rec(0x1F57B, 0x1F58F, ID));
        } else if i == 11 { assert(p[11] == rec(0x1F57B, 0x1F58F, ID)); assert(p[12] == rec(0x1F590, 0x1F590, EB));
        } else if i == 12 { assert(p[12] == rec(0x1F590, 0x1F590, EB)); assert(p[13] == rec(0x1F591, 0x1F594, ID));
        } else if i == 13 { assert(p[13] == rec(0x1F591, 0x1F594, ID)); assert(p[14] == rec(0x1F595, 0x1F596, EB));
        } else if i == 14 { assert(p[14] == rec(0x1F595, 0x1F596, EB)); assert(p[15] == rec(0x1F597, 0x1F5D3, ID));
        } else if i == 15 { assert(p[15] == rec(0x1F597, 0x1F5D3, ID)); assert(p[16] == rec(0x1F5D4, 0x1F5DB, AL));
        } else if i == 16 { assert(p[16] == rec(0x1F5D4, 0x1F5DB, AL)); assert(p[17] == rec(0x1F5DC, 0x1F5F3, ID));
        } else if i == 17 { assert(p[17] == rec(0x1F5DC, 0x1F5F3, ID)); assert(p[18] == rec(0x1F5F4, 0x1F5F9, AL));
        } else if i == 18 { assert(p[18] == rec(0x1F5F4, 0x1F5F9, AL)); assert(p[19] == rec(0x1F5FA, 0x1F644, ID));
        } else if i == 19 { assert(p[19] == rec(0x1F5FA, 0x1F644, ID)); assert(p[20] == rec(0x1F645, 0x1F647, EB));
        } else if i == 20 { assert(p[20] == rec(0x1F645, 0x1F647, EB)); assert(p[21] == rec(0x1F648, 0x1F64A, ID));
        } else if i == 21 { assert(p[21] == rec(0x1F648, 0x1F64A, ID)); assert(p[22] == rec(0x1F64B, 0x1F64F, EB));
        } else if i == 22 { assert(p[22] == rec(0x1F64B, 0x1F64F, EB)); assert(p[23] == rec(0x1F650, 0x1F675, AL));
        } else if i == 23 { assert(p[23] == rec(0x1F650, 0x1F675, AL)); assert(p[24] == rec(0x1F676, 0x1F678, QU));
        } else if i == 24 { assert(p[24] == rec(0x1F676, 0x1F678, QU)); assert(p[25] == rec(0x1F679, 0x1F67B, NS));
        } else if i == 25 { assert(p[25] == rec(0x1F679, 0x1F67B, NS)); assert(p[26] == rec(0x1F67C, 0x1F67F, AL));
        } else if i == 26 { assert(p[26] == rec(0x1F67C, 0x1F67F, AL)); assert(p[27] == rec(0x1F680, 0x1F6A2, ID));
        } else if i == 27 { assert(p[27] == rec(0x1F680, 0x1F6A2, ID)); assert(p[28] == rec(0x1F6A3, 0x1F6A3, EB));
        } else if i == 28 { assert(p[28] == rec(0x1F6A3, 0x1F6A3, EB)); assert(p[29] == rec(0x1F6A4, 0x1F6B3, ID));
        } else if i == 29 { assert(p[29] == rec(0x1F6A4, 0x1F6B3, ID)); assert(p[30] == rec(0x1F6B4, 0x1F6B6, EB));
        } else if i == 30 { assert(p[30] == rec(0x1F6B4, 0x1F6B6, EB)); assert(p[31] == rec(0x1F6B7, 0x1F6BF, ID));
        } else if i == 31 { assert(p[31] == rec(0x1F6B7, 0x1F6BF, ID)); assert(p[32] == rec(0x1F6C0, 0x1F6C0, EB));
        } else if i == 32 { assert(p[32] == rec(0x1F6C0, 0x1F6C0, EB)); assert(p[33] == rec(0x1F6C1, 0x1F6CB, ID));
        } else if i == 33 { assert(p[33] == rec(0x1F6C1, 0x1F6CB, ID)); assert(p[34] == rec(0x1F6CC, 0x1F6CC, EB));
        } else if i == 34 { assert(p[34] == rec(0x1F6CC, 0x1F6CC, EB)); assert(p[35] == rec(0x1F6CD, 0x1F6FF, ID));
        } else if i == 35 { assert(p[35] == rec(0x1F6CD, 0x1F6FF, ID)); assert(p[36] == rec(0x1F700, 0x1F773, AL));
        } else if i == 36 { assert(p[36] == rec(0x1F700, 0x1F773, AL)); assert(p[37] == rec(0x1F774, 0x1F77F, ID));
        } else if i == 37 { assert(p[37] == rec(0x1F774, 0x1F77F, ID)); assert(p[38] == rec(0x1F780, 0x1F7D4, AL));
        } else if i == 38 { assert(p[38] == rec(0x1F780, 0x1F7D4, AL)); assert(p[39] == rec(0x1F7D5, 0x1F7FF, ID));
        } else if i == 39 { assert(p[39] == rec(0x1F7D5, 0x1F7FF, ID)); assert(p[40] == rec(0x1F800, 0x1F80B, AL));
        } else if i == 40 { assert(p[40] == rec(0x1F800, 0x1F80B, AL)); assert(p[41] == rec(0x1F80C, 0x1F80F, ID));
        } else if i == 41 { assert(p[41] == rec(0x1F80C, 0x1F80F, ID)); assert(p[42] == rec(0x1F810, 0x1F847, AL));
        } else if i == 42 { assert(p[42] == rec(0x1F810, 0x1F847, AL)); assert(p[43] == rec(0x1F848, 0x1F84F, ID));
        } else if i == 43 { assert(p[43] == rec(0x1F848, 0x1F84F, ID)); assert(p[44] == rec(0x1F850, 0x1F859, AL));
        } else if i == 44 { assert(p[44] == rec(0x1F850, 0x1F859, AL)); assert(p[45] == rec(0x1F85A, 0x1F85F, ID));
        } else if i == 45 { assert(p[45] == rec(0x1F85A, 0x1F85F, ID)); assert(p[46] == rec(0x1F860, 0x1F887, AL));
        } else if i == 46 { assert(p[46] == rec(0x1F860, 0x1F887, AL)); assert(p[47] == rec(0x1F888, 0x1F88F, ID));
        } else if i == 47 { assert(p[47] == rec(0x1F888, 0x1F88F, ID)); assert(p[48] == rec(0x1F890, 0x1F8AD, AL));
        } else if i == 48 { assert(p[48] == rec(0x1F890, 0x1F8AD, AL)); assert(p[49] == rec(0x1F8AE, 0x1F8FF, ID));
        } else if i == 49 { assert(p[49] == rec(0x1F8AE, 0x1F8FF, ID));
        }
    }
    assert forall|i: int|
        #![trigger p[i], p[i + 1]]
        0 <= i && i + 1 < p.len() implies p[i].end < p[i + 1].start by {}
    assert(p[0] == rec(0x1F4B1, 0x1F4B2, AL));
    assert(p[49] == rec(0x1F8AE, 0x1F8FF, ID));
}

/// The part's length, order and endpoints.
#[verifier::rlimit(100)]
#[verifier::spinoff_prover]
proof fn lemma_part56_sorted()
    ensures
        records_part56().len() == 40,
        records_sorted(records_part56()),
        records_part56()[0].start == 0x1F900,
        records_part56()[39].end == 0xE01EF,
{
    let p = records_part56();
    assert forall|i: int|
        0 <= i < p.len() implies ((#[trigger] p[i]).start <= p[i].end && p[i].end <= 0x10FFFF && (
    i + 1 < p.len() ==> p[i].end < p[i + 1].start)) by {
        if i == 0 { assert(p[0] == rec(0x1F900, 0x1F90B, AL)); assert(p[1] == rec(0x1F90C, 0x1F90C, EB));
        } else if i == 1 { assert(p[1] == rec(0x1F90C, 0x1F90C, EB)); assert(p[2] == rec(0x1F90D, 0x1F90E, ID));
        } else if i == 2 { assert(p[2] == rec(0x1F90D, 0x1F90E, ID)); assert(p[3] == rec(0x1F90F, 0x1F90F, EB));
        } else if i == 3 { assert(p[3] == rec(0x1F90F, 0x1F90F, EB)); assert(p[4] == rec(0x1F910, 0x1F917, ID));
        } else if i == 4 { assert(p[4] == rec(0x1F910, 0x1F917, ID)); assert(p[5] == rec(0x1F918, 0x1F91F, EB));
        } else if i == 5 { assert(p[5] == rec(0x1F918, 0x1F91F, EB)); assert(p[6] == rec(0x1F920, 0x1F925, ID));
        } else if i == 6 { assert(p[6] == rec(0x1F920, 0x1F925, ID)); assert(p[7] == rec(0x1F926, 0x1F926, EB));
        } else if i == 7 { assert(p[7] == rec(0x1F926, 0x1F926, EB)); assert(p[8] == rec(0x1F927, 0x1F92F, ID));
        } else if i == 8 { assert(p[8] == rec(0x1F927, 0x1F92F, ID)); assert(p[9] == rec(0x1F930, 0x1F939, EB));
        } else if i == 9 { assert(p[9] == rec(0x1F930, 0x1F939, EB)); assert(p[10] == rec(0x1F93A, 0x1F93B, ID));
        } else if i == 10 { assert(p[10] == rec(0x1F93A, 0x1F93B, ID)); assert(p[11] == rec(0x1F93C, 0x1F93E, EB));
        } else if i == 11 { assert(p[11] == rec(0x1F93C, 0x1F93E, EB)); assert(p[12] == rec(0x1F93F, 0x1F976, ID));
        } else if i == 12 { assert(p[12] == rec(0x1F93F, 0x1F976, ID)); assert(p[13] == rec(0x1F977, 0x1F977, EB));
        } else if i == 13 { assert(p[13] == rec(0x1F977, 0x1F977, EB)); assert(p[14] == rec(0x1F978, 0x1F9B4, ID));
        } else if i == 14 { assert(p[14] == rec(0x1F978, 0x1F9B4, ID)); assert(p[15] == rec(0x1F9B5, 0x1F9B6, EB));
        } else if i == 15 { assert(p[15] == rec(0x1F9B5, 0x1F9B6, EB)); assert(p[16] == rec(0x1F9B7, 0x1F9B7, ID));
        } else if i == 16 { assert(p[16] == rec(0x1F9B7, 0x1F9B7, ID)); assert(p[17] == rec(0x1F9B8, 0x1F9B9, EB));
        } else if i == 17 { assert(p[17] == rec(0x1F9B8, 0x1F9B9, EB)); assert(p[18] == rec(0x1F9BA, 0x1F9BA, ID));
        } else if i == 18 { assert(p[18] == rec(0x1F9BA, 0x1F9BA, ID)); assert(p[19] == rec(0x1F9BB, 0x1F9BB, EB));
        } else if i == 19 { assert(p[19] == rec(0x1F9BB, 0x1F9BB, EB)); assert(p[20] == rec(0x1F9BC, 0x1F9CC, ID));
        } else if i == 20 { assert(p[20] == rec(0x1F9BC, 0x1F9CC, ID)); assert(p[21] == rec(0x1F9CD, 0x1F9CF, EB));
        } else if i == 21 { assert(p[21] == rec(0x1F9CD, 0x1F9CF, EB)); assert(p[22] == rec(0x1F9D0, 0x1F9D0, ID));
        } else if i == 22 { assert(p[22] == rec(0x1F9D0, 0x1F9D0, ID)); assert(p[23] == rec(0x1F9D1, 0x1F9DD, EB));
        } else if i == 23 { assert(p[23] == rec(0x1F9D1, 0x1F9DD, EB)); assert(p[24] == rec(0x1F9DE, 0x1F9FF, ID));
        } else if i == 24 { assert(p[24] == rec(0x1F9DE, 0x1F9FF, ID)); assert(p[25] == rec(0x1FA00, 0x1FA53, AL));
        } else if i == 25 { assert(p[25] == rec(0x1FA00, 0x1FA53, AL)); assert(p[26] == rec(0x1FA54, 0x1FAC2, ID));
        } else if i == 26 { assert(p[26] == rec(0x1FA54, 0x1FAC2, ID)); assert(p[27] == rec(0x1FAC3, 0x1FAC5, EB));
        } else if i == 27 { assert(p[27] == rec(0x1FAC3, 0x1FAC5, EB)); assert(p[28] == rec(0x1FAC6, 0x1FAEF, ID));
        } else if i == 28 { assert(p[28] == rec(0x1FAC6, 0x1FAEF, ID)); assert(p[29] == rec(0x1FAF0, 0x1FAF6, EB));
        } else if i == 29 { assert(p[29] == rec(0x1FAF0, 0x1FAF6, EB)); assert(p[30] == rec(0x1FAF7, 0x1FAFF, ID));
        } else if i == 30 { assert(p[30] == rec(0x1FAF7, 0x1FAFF, ID)); assert(p[31] == rec(0x1FB00, 0x1FB92, AL));
        } else if i == 31 { assert(p[31] == rec(0x1FB00, 0x1FB92, AL)); assert(p[32] == rec(0x1FB94, 0x1FBCA, AL));
        } else if i == 32 { assert(p[32] == rec(0x1FB94, 0x1FBCA, AL)); assert(p[33] == rec(0x1FBF0, 0x1FBF9, NU));
        } else if i == 33 { assert(p[33] == rec(0x1FBF0, 0x1FBF9, NU)); assert(p[34] == rec(0x1FC00, 0x1FFFD, ID));
        } else if i == 34 { assert(p[34] == rec(0x1FC00, 0x1FFFD, ID)); assert(p[35] == rec(0x20000, 0x2FFFD, ID));
        } else if i == 35 { assert(p[35] == rec(0x20000, 0x2FFFD, ID)); assert(p[36] == rec(0x30000, 0x3FFFD, ID));
        } else if i == 36 { assert(p[36] == rec(0x30000, 0x3FFFD, ID)); assert(p[37] == rec(0xE0001, 0xE0001, CM));
        } else if i == 37 { assert(p[37] == rec(0xE0001, 0xE0001, CM)); assert(p[38] == rec(0xE0020, 0xE007F, CM));
        } else if i == 38 { assert(p[38] == rec(0xE0020, 0xE007F, CM)); assert(p[39] == rec(0xE0100, 0xE01EF, CM));
        } else if i == 39 { assert(p[39] == rec(0xE0100, 0xE01EF, CM));
        }
    }
    assert forall|i: int|
        #![trigger p[i], p[i + 1]]
        0 <= i && i + 1 < p.len() implies p[i].end < p[i + 1].start by {}
    assert(p[0] == rec(0x1F900, 0x1F90B, AL));
    assert(p[39] == rec(0xE0100, 0xE01EF, CM));
}

/// Append the records of [`records_part1`].
#[verifier::rlimit(100)]
#[verifier::spinoff_prover]
fn push_part1(v: &mut Vec<Record>)
    ensures
        final(v)@ == old(v)@ + records_part1(),
{
    v.push(rec(0x0000, 0x0008, CM));
    v.push(rec(0x0009, 0x0009, BA));
    v.push(rec(0x000A, 0x000A, LF));
    v.push(rec(0x000B, 0x000C, BK));
    v.push(rec(0x000D, 0x000D, CR));
    v.push(rec(0x000E, 0x001F, CM));
    v.push(rec(0x0020, 0x0020, SP));
    v.push(rec(0x0021, 0x0021, EX));
    v.push(rec(0x0022, 0x0022, QU));
    v.push(rec(0x0023, 0x0023, AL));
    v.push(rec(0x0024, 0x0024, PR));
    v.push(rec(0x0025, 0x0025, PO));
    v.push(rec(0x0026, 0x0026, AL));
    v.push(rec(0x0027, 0x0027, QU));
    v.push(rec(0x0028, 0x0028, OP));
    v.push(rec(0x0029, 0x0029, CP));
    v.push(rec(0x002A, 0x002A, AL));
    v.push(rec(0x002B, 0x002B, PR));
    v.push(rec(0x002C, 0x002C, IS));
    v.push(rec(0x002D, 0x002D, HY));
    v.push(rec(0x002E, 0x002E, IS));
    v.push(rec(0x002F, 0x002F, SY));
    v.push(rec(0x0030, 0x0039, NU));
    v.push(rec(0x003A, 0x003B, IS));
    v.push(rec(0x003C, 0x003E, AL));
    v.push(rec(0x003F, 0x003F, EX));
    v.push(rec(0x0040, 0x005A, AL));
    v.push(rec(0x005B, 0x005B, OP));
    v.push(rec(0x005C, 0x005C, PR));
    v.push(rec(0x005D, 0x005D, CP));
    v.push(rec(0x005E, 0x007A, AL));
    v.push(rec(0x007B, 0x007B, OP));
    v.push(rec(0x007C, 0x007C, BA));
    v.push(rec(0x007D, 0x007D, CL));
    v.push(rec(0x007E, 0x007E, AL));
    v.push(rec(0x007F, 0x0084, CM));
    v.push(rec(0x0085, 0x0085, NL));
    v.push(rec(0x0086, 0x009F, CM));
    v.push(rec(0x00A0, 0x00A0, GL));
    v.push(rec(0x00A1, 0x00A1, OP));
    v.push(rec(0x00A2, 0x00A2, PO));
    v.push(rec(0x00A3, 0x00A5, PR));
    v.push(rec(0x00A6, 0x00A6, AL));
    v.push(rec(0x00A7, 0x00A8, AI));
    v.push(rec(0x00A9, 0x00A9, AL));
    v.push(rec(0x00AA, 0x00AA, AI));
    v.push(rec(0x00AB, 0x00AB, QU));
    v.push(rec(0x00AC, 0x00AC, AL));
    v.push(rec(0x00AD, 0x00AD, BA));
    v.push(rec(0x00AE, 0x00AF, AL));
    proof {
        assert(v@ =~= old(v)@ + records_part1());
    }
}

/// Append the records of [`records_part2`].
#[verifier::rlimit(100)]
#[verifier::spinoff_prover]
fn push_part2(v: &mut Vec<Record>)
    ensures
        final(v)@ == old(v)@ + records_part2(),
{
    v.push(rec(0x00B0, 0x00B0, PO));
    v.push(rec(0x00B1, 0x00B1, PR));
    v.push(rec(0x00B2, 0x00B3, AI));
    v.push(rec(0x00B4, 0x00B4, BB));
    v.push(rec(0x00B5, 0x00B5, AL));
    v.push(rec(0x00B6, 0x00BA, AI));
    v.push(rec(0x00BB, 0x00BB, QU));
    v.push(rec(0x00BC, 0x00BE, AI));
    v.push(rec(0x00BF, 0x00BF, OP));
    v.push(rec(0x00C0, 0x00D6, AL));
    v.push(rec(0x00D7, 0x00D7, AI));
    v.push(rec(0x00D8, 0x00F6, AL));
    v.push(rec(0x00F7, 0x00F7, AI));
    v.push(rec(0x00F8, 0x02C6, AL));
    v.push(rec(0x02C7, 0x02C7, AI));
    v.push(rec(0x02C8, 0x02C8, BB));
    v.push(rec(0x02C9, 0x02CB, AI));
    v.push(rec(0x02CC, 0x02CC, BB));
    v.push(rec(0x02CD, 0x02CD, AI));
    v.push(rec(0x02CE, 0x02CF, AL));
    v.push(rec(0x02D0, 0x02D0, AI));
    v.push(rec(0x02D1, 0x02D7, AL));
    v.push(rec(0x02D8, 0x02DB, AI));
    v.push(rec(0x02DC, 0x02DC, AL));
    v.push(rec(0x02DD, 0x02DD, AI));
    v.push(rec(0x02DE, 0x02DE, AL));
    v.push(rec(0x02DF, 0x02DF, BB));
    v.push(rec(0x02E0, 0x02FF, AL));
    v.push(rec(0x0300, 0x034E, CM));
    v.push(rec(0x034F, 0x034F, GL));
    v.push(rec(0x0350, 0x035B, CM));
    v.push(rec(0x035C, 0x0362, GL));
    v.push(rec(0x0363, 0x036F, CM));
    v.push(rec(0x0370, 0x0377, AL));
    v.push(rec(0x037A, 0x037D, AL));
    v.push(rec(0x037E, 0x037E, IS));
    v.push(rec(0x037F, 0x037F, AL));
    v.push(rec(0x0384, 0x038A, AL));
    v.push(rec(0x038C, 0x038C, AL));
    v.push(rec(0x038E, 0x03A1, AL));
    v.push(rec(0x03A3, 0x0482, AL));
    v.push(rec(0x0483, 0x0489, CM));
    v.push(rec(0x048A, 0x052F, AL));
    v.push(rec(0x0531, 0x0556, AL));
    v.push(rec(0x0559, 0x0588, AL));
    v.push(rec(0x0589, 0x0589, IS));
    v.push(rec(0x058A, 0x058A, BA));
    v.push(rec(0x058D, 0x058E, AL));
    v.push(rec(0x058F, 0x058F, PR));
    v.push(rec(0x0591, 0x05BD, CM));
    proof {
        assert(v@ =~= old(v)@ + records_part2());
    }
}

/// Append the records of [`records_part3`].
#[verifier::rlimit(100)]
#[verifier::spinoff_prover]
fn push_part3(v: &mut Vec<Record>)
    ensures
        final(v)@ == old(v)@ + records_part3(),
{
    v.push(rec(0x05BE, 0x05BE, BA));
    v.push(rec(0x05BF, 0x05BF, CM));
    v.push(rec(0x05C0, 0x05C0, AL));
    v.push(rec(0x05C1, 0x05C2, CM));
    v.push(rec(0x05C3, 0x05C3, AL));
    v.push(rec(0x05C4, 0x05C5, CM));
    v.push(rec(0x05C6, 0x05C6, EX));
    v.push(rec(0x05C7, 0x05C7, CM));
    v.push(rec(0x05D0, 0x05EA, HL));
    v.push(rec(0x05EF, 0x05F2, HL));
    v.push(rec(0x05F3, 0x05F4, AL));
    v.push(rec(0x0600, 0x0608, AL));
    v.push(rec(0x0609, 0x060B, PO));
    v.push(rec(0x060C, 0x060D, IS));
    v.push(rec(0x060E, 0x060F, AL));
    v.push(rec(0x0610, 0x061A, CM));
    v.push(rec(0x061B, 0x061B, EX));
    v.push(rec(0x061C, 0x061C, CM));
    v.push(rec(0x061D, 0x061F, EX));
    v.push(rec(0x0620, 0x064A, AL));
    v.push(rec(0x064B, 0x065F, CM));
    v.push(rec(0x0660, 0x0669, NU));
    v.push(rec(0x066A, 0x066A, PO));
    v.push(rec(0x066B, 0x066C, NU));
    v.push(rec(0x066D, 0x066F, AL));
    v.push(rec(0x0670, 0x0670, CM));
    v.push(rec(0x0671, 0x06D3, AL));
    v.push(rec(0x06D4, 0x06D4, EX));
    v.push(rec(0x06D5, 0x06D5, AL));
    v.push(rec(0x06D6, 0x06DC, CM));
    v.push(rec(0x06DD, 0x06DE, AL));
    v.push(rec(0x06DF, 0x06E4, CM));
    v.push(rec(0x06E5, 0x06E6, AL));
    v.push(rec(0x06E7, 0x06E8, CM));
    v.push(rec(0x06E9, 0x06E9, AL));
    v.push(rec(0x06EA, 0x06ED, CM));
    v.push(rec(0x06EE, 0x06EF, AL));
    v.push(rec(0x06F0, 0x06F9, NU));
    v.push(rec(0x06FA, 0x070D, AL));
    v.push(rec(0x070F, 0x0710, AL));
    v.push(rec(0x0711, 0x0711, CM));
    v.push(rec(0x0712, 0x072F, AL));
    v.push(rec(0x0730, 0x074A, CM));
    v.push(rec(0x074D, 0x07A5, AL));
    v.push(rec(0x07A6, 0x07B0, CM));
    v.push(rec(0x07B1, 0x07B1, AL));
    v.push(rec(0x07C0, 0x07C9, NU));
    v.push(rec(0x07CA, 0x07EA, AL));
    v.push(rec(0x07EB, 0x07F3, CM));
    v.push(rec(0x07F4, 0x07F7, AL));
    proof {
        assert(v@ =~= old(v)@ + records_part3());
    }
}

/// Append the records of [`records_part4`].
#[verifier::rlimit(100)]
#[verifier::spinoff_prover]
fn push_part4(v: &mut Vec<Record>)
    ensures
        final(v)@ == old(v)@ + records_part4(),
{
    v.push(rec(0x07F8, 0x07F8, IS));
    v.push(rec(0x07F9, 0x07F9, EX));
    v.push(rec(0x07FA, 0x07FA, AL));
    v.push(rec(0x07FD, 0x07FD, CM));
    v.push(rec(0x07FE, 0x07FF, PR));
    v.push(rec(0x0800, 0x0815, AL));
    v.push(rec(0x0816, 0x0819, CM));
    v.push(rec(0x081A, 0x081A, AL));
    v.push(rec(0x081B, 0x0823, CM));
    v.push(rec(0x0824, 0x0824, AL));
    v.push(rec(0x0825, 0x0827, CM));
    v.push(rec(0x0828, 0x0828, AL));
    v.push(rec(0x0829, 0x082D, CM));
    v.push(rec(0x0830, 0x083E, AL));
    v.push(rec(0x0840, 0x0858, AL));
    v.push(rec(0x0859, 0x085B, CM));
    v.push(rec(0x085E, 0x085E, AL));
    v.push(rec(0x0860, 0x086A, AL));
    v.push(rec(0x0870, 0x088E, AL));
    v.push(rec(0x0890, 0x0891, AL));
    v.push(rec(0x0898, 0x089F, CM));
    v.push(rec(0x08A0, 0x08C9, AL));
    v.push(rec(0x08CA, 0x08E1, CM));
    v.push(rec(0x08E2, 0x08E2, AL));
    v.push(rec(0x08E3, 0x0903, CM));
    v.push(rec(0x0904, 0x0939, AL));
    v.push(rec(0x093A, 0x093C, CM));
    v.push(rec(0x093D, 0x093D, AL));
    v.push(rec(0x093E, 0x094F, CM));
    v.push(rec(0x0950, 0x0950, AL));
    v.push(rec(0x0951, 0x0957, CM));
    v.push(rec(0x0958, 0x0961, AL));
    v.push(rec(0x0962, 0x0963, CM));
    v.push(rec(0x0964, 0x0965, BA));
    v.push(rec(0x0966, 0x096F, NU));
    v.push(rec(0x0970, 0x0980, AL));
    v.push(rec(0x0981, 0x0983, CM));
    v.push(rec(0x0985, 0x098C, AL));
    v.push(rec(0x098F, 0x0990, AL));
    v.push(rec(0x0993, 0x09A8, AL));
    v.push(rec(0x09AA, 0x09B0, AL));
    v.push(rec(0x09B2, 0x09B2, AL));
    v.push(rec(0x09B6, 0x09B9, AL));
    v.push(rec(0x09BC, 0x09BC, CM));
    v.push(rec(0x09BD, 0x09BD, AL));
    v.push(rec(0x09BE, 0x09C4, CM));
    v.push(rec(0x09C7, 0x09C8, CM));
    v.push(rec(0x09CB, 0x09CD, CM));
    v.push(rec(0x09CE, 0x09CE, AL));
    v.push(rec(0x09D7, 0x09D7, CM));
    proof {
        assert(v@ =~= old(v)@ + records_part4());
    }
}

/// Append the records of [`records_part5`].
#[verifier::rlimit(100)]
#[verifier::spinoff_prover]
fn push_part5(v: &mut Vec<Record>)
    ensures
        final(v)@ == old(v)@ + records_part5(),
{
    v.push(rec(0x09DC, 0x09DD, AL));
    v.push(rec(0x09DF, 0x09E1, AL));
    v.push(rec(0x09E2, 0x09E3, CM));
    v.push(rec(0x09E6, 0x09EF, NU));
    v.push(rec(0x09F0, 0x09F1, AL));
    v.push(rec(0x09F2, 0x09F3, PO));
    v.push(rec(0x09F4, 0x09F8, AL));
    v.push(rec(0x09F9, 0x09F9, PO));
    v.push(rec(0x09FA, 0x09FA, AL));
    v.push(rec(0x09FB, 0x09FB, PR));
    v.push(rec(0x09FC, 0x09FD, AL));
    v.push(rec(0x09FE, 0x09FE, CM));
    v.push(rec(0x0A01, 0x0A03, CM));
    v.push(rec(0x0A05, 0x0A0A, AL));
    v.push(rec(0x0A0F, 0x0A10, AL));
    v.push(rec(0x0A13, 0x0A28, AL));
    v.push(rec(0x0A2A, 0x0A30, AL));
    v.push(rec(0x0A32, 0x0A33, AL));
    v.push(rec(0x0A35, 0x0A36, AL));
    v.push(rec(0x0A38, 0x0A39, AL));
    v.push(rec(0x0A3C, 0x0A3C, CM));
    v.push(rec(0x0A3E, 0x0A42, CM));
    v.push(rec(0x0A47, 0x0A48, CM));
    v.push(rec(0x0A4B, 0x0A4D, CM));
    v.push(rec(0x0A51, 0x0A51, CM));
    v.push(rec(0x0A59, 0x0A5C, AL));
    v.push(rec(0x0A5E, 0x0A5E, AL));
    v.push(rec(0x0A66, 0x0A6F, NU));
    v.push(rec(0x0A70, 0x0A71, CM));
    v.push(rec(0x0A72, 0x0A74, AL));
    v.push(rec(0x0A75, 0x0A75, CM));
    v.push(rec(0x0A76, 0x0A76, AL));
    v.push(rec(0x0A81, 0x0A83, CM));
    v.push(rec(0x0A85, 0x0A8D, AL));
    v.push(rec(0x0A8F, 0x0A91, AL));
    v.push(rec(0x0A93, 0x0AA8, AL));
    v.push(rec(0x0AAA, 0x0AB0, AL));
    v.push(rec(0x0AB2, 0x0AB3, AL));
    v.push(rec(0x0AB5, 0x0AB9, AL));
    v.push(rec(0x0ABC, 0x0ABC, CM));
    v.push(rec(0x0ABD, 0x0ABD, AL));
    v.push(rec(0x0ABE, 0x0AC5, CM));
    v.push(rec(0x0AC7, 0x0AC9, CM));
    v.push(rec(0x0ACB, 0x0ACD, CM));
    v.push(rec(0x0AD0, 0x0AD0, AL));
    v.push(rec(0x0AE0, 0x0AE1, AL));
    v.push(rec(0x0AE2, 0x0AE3, CM));
    v.push(rec(0x0AE6, 0x0AEF, NU));
    v.push(rec(0x0AF0, 0x0AF0, AL));
    v.push(rec(0x0AF1, 0x0AF1, PR));
    proof {
        assert(v@ =~= old(v)@ + records_part5());
    }
}

/// Append the records of [`records_part6`].
#[verifier::rlimit(100)]
#[verifier::spinoff_prover]
fn push_part6(v: &mut Vec<Record>)
    ensures
        final(v)@ == old(v)@ + records_part6(),
{
    v.push(rec(0x0AF9, 0x0AF9, AL));
    v.push(rec(0x0AFA, 0x0AFF, CM));
    v.push(rec(0x0B01, 0x0B03, CM));
    v.push(rec(0x0B05, 0x0B0C, AL));
    v.push(rec(0x0B0F, 0x0B10, AL));
    v.push(rec(0x0B13, 0x0B28, AL));
    v.push(rec(0x0B2A, 0x0B30, AL));
    v.push(rec(0x0B32, 0x0B33, AL));
    v.push(rec(0x0B35, 0x0B39, AL));
    v.push(rec(0x0B3C, 0x0B3C, CM));
    v.push(rec(0x0B3D, 0x0B3D, AL));
    v.push(rec(0x0B3E, 0x0B44, CM));
    v.push(rec(0x0B47, 0x0B48, CM));
    v.push(rec(0x0B4B, 0x0B4D, CM));
    v.push(rec(0x0B55, 0x0B57, CM));
    v.push(rec(0x0B5C, 0x0B5D, AL));
    v.push(rec(0x0B5F, 0x0B61, AL));
    v.push(rec(0x0B62, 0x0B63, CM));
    v.push(rec(0x0B66, 0x0B6F, NU));
    v.push(rec(0x0B70, 0x0B77, AL));
    v.push(rec(0x0B82, 0x0B82, CM));
    v.push(rec(0x0B83, 0x0B83, AL));
    v.push(rec(0x0B85, 0x0B8A, AL));
    v.push(rec(0x0B8E, 0x0B90, AL));
    v.push(rec(0x0B92, 0x0B95, AL));
    v.push(rec(0x0B99, 0x0B9A, AL));
    v.push(rec(0x0B9C, 0x0B9C, AL));
    v.push(rec(0x0B9E, 0x0B9F, AL));
    v.push(rec(0x0BA3, 0x0BA4, AL));
    v.push(rec(0x0BA8, 0x0BAA, AL));
    v.push(rec(0x0BAE, 0x0BB9, AL));
    v.push(rec(0x0BBE, 0x0BC2, CM));
    v.push(rec(0x0BC6, 0x0BC8, CM));
    v.push(rec(0x0BCA, 0x0BCD, CM));
    v.push(rec(0x0BD0, 0x0BD0, AL));
    v.push(rec(0x0BD7, 0x0BD7, CM));
    v.push(rec(0x0BE6, 0x0BEF, NU));
    v.push(rec(0x0BF0, 0x0BF8, AL));
    v.push(rec(0x0BF9, 0x0BF9, PR));
    v.push(rec(0x0BFA, 0x0BFA, AL));
    v.push(rec(0x0C00, 0x0C04, CM));
    v.push(rec(0x0C05, 0x0C0C, AL));
    v.push(rec(0x0C0E, 0x0C10, AL));
    v.push(rec(0x0C12, 0x0C28, AL));
    v.push(rec(0x0C2A, 0x0C39, AL));
    v.push(rec(0x0C3C, 0x0C3C, CM));
    v.push(rec(0x0C3D, 0x0C3D, AL));
    v.push(rec(0x0C3E, 0x0C44, CM));
    v.push(rec(0x0C46, 0x0C48, CM));
    v.push(rec(0x0C4A, 0x0C4D, CM));
    proof {
        assert(v@ =~= old(v)@ + records_part6());
    }
}

/// Append the records of [`records_part7`].
#[verifier::rlimit(100)]
#[verifier::spinoff_prover]
fn push_part7(v: &mut Vec<Record>)
    ensures
        final(v)@ == old(v)@ + records_part7(),
{
    v.push(rec(0x0C55, 0x0C56, CM));
    v.push(rec(0x0C58, 0x0C5A, AL));
    v.push(rec(0x0C5D, 0x0C5D, AL));
    v.push(rec(0x0C60, 0x0C61, AL));
    v.push(rec(0x0C62, 0x0C63, CM));
    v.push(rec(0x0C66, 0x0C6F, NU));
    v.push(rec(0x0C77, 0x0C77, BB));
    v.push(rec(0x0C78, 0x0C80, AL));
    v.push(rec(0x0C81, 0x0C83, CM));
    v.push(rec(0x0C84, 0x0C84, BB));
    v.push(rec(0x0C85, 0x0C8C, AL));
    v.push(rec(0x0C8E, 0x0C90, AL));
    v.push(rec(0x0C92, 0x0CA8, AL));
    v.push(rec(0x0CAA, 0x0CB3, AL));
    v.push(rec(0x0CB5, 0x0CB9, AL));
    v.push(rec(0x0CBC, 0x0CBC, CM));
    v.push(rec(0x0CBD, 0x0CBD, AL));
    v.push(rec(0x0CBE, 0x0CC4, CM));
    v.push(rec(0x0CC6, 0x0CC8, CM));
    v.push(rec(0x0CCA, 0x0CCD, CM));
    v.push(rec(0x0CD5, 0x0CD6, CM));
    v.push(rec(0x0CDD, 0x0CDE, AL));
    v.push(rec(0x0CE0, 0x0CE1, AL));
    v.push(rec(0x0CE2, 0x0CE3, CM));
    v.push(rec(0x0CE6, 0x0CEF, NU));
    v.push(rec(0x0CF1, 0x0CF2, AL));
    v.push(rec(0x0D00, 0x0D03, CM));
    v.push(rec(0x0D04, 0x0D0C, AL));
    v.push(rec(0x0D0E, 0x0D10, AL));
    v.push(rec(0x0D12, 0x0D3A, AL));
    v.push(rec(0x0D3B, 0x0D3C, CM));
    v.push(rec(0x0D3D, 0x0D3D, AL));
    v.push(rec(0x0D3E, 0x0D44, CM));
    v.push(rec(0x0D46, 0x0D48, CM));
    v.push(rec(0x0D4A, 0x0D4D, CM));
    v.push(rec(0x0D4E, 0x0D4F, AL));
    v.push(rec(0x0D54, 0x0D56, AL));
    v.push(rec(0x0D57, 0x0D57, CM));
    v.push(rec(0x0D58, 0x0D61, AL));
    v.push(rec(0x0D62, 0x0D63, CM));
    v.push(rec(0x0D66, 0x0D6F, NU));
    v.push(rec(0x0D70, 0x0D78, AL));
    v.push(rec(0x0D79, 0x0D79, PO));
    v.push(rec(0x0D7A, 0x0D7F, AL));
    v.push(rec(0x0D81, 0x0D83, CM));
    v.push(rec(0x0D85, 0x0D96, AL));
    v.push(rec(0x0D9A, 0x0DB1, AL));
    v.push(rec(0x0DB3, 0x0DBB, AL));
    v.push(rec(0x0DBD, 0x0DBD, AL));
    v.push(rec(0x0DC0, 0x0DC6, AL));
    proof {
        assert(v@ =~= old(v)@ + records_part7());
    }
}

/// Append the records of [`records_part8`].
#[verifier::rlimit(100)]
#[verifier::spinoff_prover]
fn push_part8(v: &mut Vec<Record>)
    ensures
        final(v)@ == old(v)@ + records_part8(),
{
    v.push(rec(0x0DCA, 0x0DCA, CM));
    v.push(rec(0x0DCF, 0x0DD4, CM));
    v.push(rec(0x0DD6, 0x0DD6, CM));
    v.push(rec(0x0DD8, 0x0DDF, CM));
    v.push(rec(0x0DE6, 0x0DEF, NU));
    v.push(rec(0x0DF2, 0x0DF3, CM));
    v.push(rec(0x0DF4, 0x0DF4, AL));
    v.push(rec(0x0E01, 0x0E3A, SA));
    v.push(rec(0x0E3F, 0x0E3F, PR));
    v.push(rec(0x0E40, 0x0E4E, SA));
    v.push(rec(0x0E4F, 0x0E4F, AL));
    v.push(rec(0x0E50, 0x0E59, NU));
    v.push(rec(0x0E5A, 0x0E5B, BA));
    v.push(rec(0x0E81, 0x0E82, SA));
    v.push(rec(0x0E84, 0x0E84, SA));
    v.push(rec(0x0E86, 0x0E8A, SA));
    v.push(rec(0x0E8C, 0x0EA3, SA));
    v.push(rec(0x0EA5, 0x0EA5, SA));
    v.push(rec(0x0EA7, 0x0EBD, SA));
    v.push(rec(0x0EC0, 0x0EC4, SA));
    v.push(rec(0x0EC6, 0x0EC6, SA));
    v.push(rec(0x0EC8, 0x0ECD, SA));
    v.push(rec(0x0ED0, 0x0ED9, NU));
    v.push(rec(0x0EDC, 0x0EDF, SA));
    v.push(rec(0x0F00, 0x0F00, AL));
    v.push(rec(0x0F01, 0x0F04, BB));
    v.push(rec(0x0F05, 0x0F05, AL));
    v.push(rec(0x0F06, 0x0F07, BB));
    v.push(rec(0x0F08, 0x0F08, GL));
    v.push(rec(0x0F09, 0x0F0A, BB));
    v.push(rec(0x0F0B, 0x0F0B, BA));
    v.push(rec(0x0F0C, 0x0F0C, GL));
    v.push(rec(0x0F0D, 0x0F11, EX));
    v.push(rec(0x0F12, 0x0F12, GL));
    v.push(rec(0x0F13, 0x0F13, AL));
    v.push(rec(0x0F14, 0x0F14, EX));
    v.push(rec(0x0F15, 0x0F17, AL));
    v.push(rec(0x0F18, 0x0F19, CM));
    v.push(rec(0x0F1A, 0x0F1F, AL));
    v.push(rec(0x0F20, 0x0F29, NU));
    v.push(rec(0x0F2A, 0x0F33, AL));
    v.push(rec(0x0F34, 0x0F34, BA));
    v.push(rec(0x0F35, 0x0F35, CM));
    v.push(rec(0x0F36, 0x0F36, AL));
    v.push(rec(0x0F37, 0x0F37, CM));
    v.push(rec(0x0F38, 0x0F38, AL));
    v.push(rec(0x0F39, 0x0F39, CM));
    v.push(rec(0x0F3A, 0x0F3A, OP));
    v.push(rec(0x0F3B, 0x0F3B, CL));
    v.push(rec(0x0F3C, 0x0F3C, OP));
    proof {
        assert(v@ =~= old(v)@ + records_part8());
    }
}

/// Append the records of [`records_part9`].
#[verifier::rlimit(100)]
#[verifier::spinoff_prover]
fn push_part9(v: &mut Vec<Record>)
    ensures
        final(v)@ == old(v)@ + records_part9(),
{
    v.push(rec(0x0F3D, 0x0F3D, CL));
    v.push(rec(0x0F3E, 0x0F3F, CM));
    v.push(rec(0x0F40, 0x0F47, AL));
    v.push(rec(0x0F49, 0x0F6C, AL));
    v.push(rec(0x0F71, 0x0F7E, CM));
    v.push(rec(0x0F7F, 0x0F7F, BA));
    v.push(rec(0x0F80, 0x0F84, CM));
    v.push(rec(0x0F85, 0x0F85, BA));
    v.push(rec(0x0F86, 0x0F87, CM));
    v.push(rec(0x0F88, 0x0F8C, AL));
    v.push(rec(0x0F8D, 0x0F97, CM));
    v.push(rec(0x0F99, 0x0FBC, CM));
    v.push(rec(0x0FBE, 0x0FBF, BA));
    v.push(rec(0x0FC0, 0x0FC5, AL));
    v.push(rec(0x0FC6, 0x0FC6, CM));
    v.push(rec(0x0FC7, 0x0FCC, AL));
    v.push(rec(0x0FCE, 0x0FCF, AL));
    v.push(rec(0x0FD0, 0x0FD1, BB));
    v.push(rec(0x0FD2, 0x0FD2, BA));
    v.push(rec(0x0FD3, 0x0FD3, BB));
    v.push(rec(0x0FD4, 0x0FD8, AL));
    v.push(rec(0x0FD9, 0x0FDA, GL));
    v.push(rec(0x1000, 0x103F, SA));
    v.push(rec(0x1040, 0x1049, NU));
    v.push(rec(0x104A, 0x104B, BA));
    v.push(rec(0x104C, 0x104F, AL));
    v.push(rec(0x1050, 0x108F, SA));
    v.push(rec(0x1090, 0x1099, NU));
    v.push(rec(0x109A, 0x109F, SA));
    v.push(rec(0x10A0, 0x10C5, AL));
    v.push(rec(0x10C7, 0x10C7, AL));
    v.push(rec(0x10CD, 0x10CD, AL));
    v.push(rec(0x10D0, 0x10FF, AL));
    v.push(rec(0x1100, 0x115F, JL));
    v.push(rec(0x1160, 0x11A7, JV));
    v.push(rec(0x11A8, 0x11FF, JT));
    v.push(rec(0x1200, 0x1248, AL));
    v.push(rec(0x124A, 0x124D, AL));
    v.push(rec(0x1250, 0x1256, AL));
    v.push(rec(0x1258, 0x1258, AL));
    v.push(rec(0x125A, 0x125D, AL));
    v.push(rec(0x1260, 0x1288, AL));
    v.push(rec(0x128A, 0x128D, AL));
    v.push(rec(0x1290, 0x12B0, AL));
    v.push(rec(0x12B2, 0x12B5, AL));
    v.push(rec(0x12B8, 0x12BE, AL));
    v.push(rec(0x12C0, 0x12C0, AL));
    v.push(rec(0x12C2, 0x12C5, AL));
    v.push(rec(0x12C8, 0x12D6, AL));
    v.push(rec(0x12D8, 0x1310, AL));
    proof {
        assert(v@ =~= old(v)@ + records_part9());
    }
}

/// Append the records of [`records_part10`].
#[verifier::rlimit(100)]
#[verifier::spinoff_prover]
fn push_part10(v: &mut Vec<Record>)
    ensures
        final(v)@ == old(v)@ + records_part10(),
{
    v.push(rec(0x1312, 0x1315, AL));
    v.push(rec(0x1318, 0x135A, AL));
    v.push(rec(0x135D, 0x135F, CM));
    v.push(rec(0x1360, 0x1360, AL));
    v.push(rec(0x1361, 0x1361, BA));
    v.push(rec(0x1362, 0x137C, AL));
    v.push(rec(0x1380, 0x1399, AL));
    v.push(rec(0x13A0, 0x13F5, AL));
    v.push(rec(0x13F8, 0x13FD, AL));
    v.push(rec(0x1400, 0x1400, BA));
    v.push(rec(0x1401, 0x167F, AL));
    v.push(rec(0x1680, 0x1680, BA));
    v.push(rec(0x1681, 0x169A, AL));
    v.push(rec(0x169B, 0x169B, OP));
    v.push(rec(0x169C, 0x169C, CL));
    v.push(rec(0x16A0, 0x16EA, AL));
    v.push(rec(0x16EB, 0x16ED, BA));
    v.push(rec(0x16EE, 0x16F8, AL));
    v.push(rec(0x1700, 0x1711, AL));
    v.push(rec(0x1712, 0x1715, CM));
    v.push(rec(0x171F, 0x1731, AL));
    v.push(rec(0x1732, 0x1734, CM));
    v.push(rec(0x1735, 0x1736, BA));
    v.push(rec(0x1740, 0x1751, AL));
    v.push(rec(0x1752, 0x1753, CM));
    v.push(rec(0x1760, 0x176C, AL));
    v.push(rec(0x176E, 0x1770, AL));
    v.push(rec(0x1772, 0x1773, CM));
    v.push(rec(0x1780, 0x17D3, SA));
    v.push(rec(0x17D4, 0x17D5, BA));
    v.push(rec(0x17D6, 0x17D6, NS));
    v.push(rec(0x17D7, 0x17D7, SA));
    v.push(rec(0x17D8, 0x17D8, BA));
    v.push(rec(0x17D9, 0x17D9, AL));
    v.push(rec(0x17DA, 0x17DA, BA));
    v.push(rec(0x17DB, 0x17DB, PR));
    v.push(rec(0x17DC, 0x17DD, SA));
    v.push(rec(0x17E0, 0x17E9, NU));
    v.push(rec(0x17F0, 0x17F9, AL));
    v.push(rec(0x1800, 0x1801, AL));
    v.push(rec(0x1802, 0x1803, EX));
    v.push(rec(0x1804, 0x1805, BA));
    v.push(rec(0x1806, 0x1806, BB));
    v.push(rec(0x1807, 0x1807, AL));
    v.push(rec(0x1808, 0x1809, EX));
    v.push(rec(0x180A, 0x180A, AL));
    v.push(rec(0x180B, 0x180D, CM));
    v.push(rec(0x180E, 0x180E, GL));
    v.push(rec(0x180F, 0x180F, CM));
    v.push(rec(0x1810, 0x1819, NU));
    proof {
        assert(v@ =~= old(v)@ + records_part10());
    }
}

/// Append the records of [`records_part11`].
#[verifier::rlimit(100)]
#[verifier::spinoff_prover]
fn push_part11(v: &mut Vec<Record>)
    ensures
        final(v)@ == old(v)@ + records_part11(),
{
    v.push(rec(0x1820, 0x1878, AL));
    v.push(rec(0x1880, 0x1884, AL));
    v.push(rec(0x1885, 0x1886, CM));
    v.push(rec(0x1887, 0x18A8, AL));
    v.push(rec(0x18A9, 0x18A9, CM));
    v.push(rec(0x18AA, 0x18AA, AL));
    v.push(rec(0x18B0, 0x18F5, AL));
    v.push(rec(0x1900, 0x191E, AL));
    v.push(rec(0x1920, 0x192B, CM));
    v.push(rec(0x1930, 0x193B, CM));
    v.push(rec(0x1940, 0x1940, AL));
    v.push(rec(0x1944, 0x1945, EX));
    v.push(rec(0x1946, 0x194F, NU));
    v.push(rec(0x1950, 0x196D, SA));
    v.push(rec(0x1970, 0x1974, SA));
    v.push(rec(0x1980, 0x19AB, SA));
    v.push(rec(0x19B0, 0x19C9, SA));
    v.push(rec(0x19D0, 0x19D9, NU));
    v.push(rec(0x19DA, 0x19DA, SA));
    v.push(rec(0x19DE, 0x19DF, SA));
    v.push(rec(0x19E0, 0x1A16, AL));
    v.push(rec(0x1A17, 0x1A1B, CM));
    v.push(rec(0x1A1E, 0x1A1F, AL));
    v.push(rec(0x1A20, 0x1A5E, SA));
    v.push(rec(0x1A60, 0x1A7C, SA));
    v.push(rec(0x1A7F, 0x1A7F, CM));
    v.push(rec(0x1A80, 0x1A89, NU));
    v.push(rec(0x1A90, 0x1A99, NU));
    v.push(rec(0x1AA0, 0x1AAD, SA));
    v.push(rec(0x1AB0, 0x1ACE, CM));
    v.push(rec(0x1B00, 0x1B04, CM));
    v.push(rec(0x1B05, 0x1B33, AL));
    v.push(rec(0x1B34, 0x1B44, CM));
    v.push(rec(0x1B45, 0x1B4C, AL));
    v.push(rec(0x1B50, 0x1B59, NU));
    v.push(rec(0x1B5A, 0x1B5B, BA));
    v.push(rec(0x1B5C, 0x1B5C, AL));
    v.push(rec(0x1B5D, 0x1B60, BA));
    v.push(rec(0x1B61, 0x1B6A, AL));
    v.push(rec(0x1B6B, 0x1B73, CM));
    v.push(rec(0x1B74, 0x1B7C, AL));
    v.push(rec(0x1B7D, 0x1B7E, BA));
    v.push(rec(0x1B80, 0x1B82, CM));
    v.push(rec(0x1B83, 0x1BA0, AL));
    v.push(rec(0x1BA1, 0x1BAD, CM));
    v.push(rec(0x1BAE, 0x1BAF, AL));
    v.push(rec(0x1BB0, 0x1BB9, NU));
    v.push(rec(0x1BBA, 0x1BE5, AL));
    v.push(rec(0x1BE6, 0x1BF3, CM));
    v.push(rec(0x1BFC, 0x1C23, AL));
    proof {
        assert(v@ =~= old(v)@ + records_part11());
    }
}

/// Append the records of [`records_part12`].
#[verifier::rlimit(100)]
#[verifier::spinoff_prover]
fn push_part12(v: &mut Vec<Record>)
    ensures
        final(v)@ == old(v)@ + records_part12(),
{
    v.push(rec(0x1C24, 0x1C37, CM));
    v.push(rec(0x1C3B, 0x1C3F, BA));
    v.push(rec(0x1C40, 0x1C49, NU));
    v.push(rec(0x1C4D, 0x1C4F, AL));
    v.push(rec(0x1C50, 0x1C59, NU));
    v.push(rec(0x1C5A, 0x1C7D, AL));
    v.push(rec(0x1C7E, 0x1C7F, BA));
    v.push(rec(0x1C80, 0x1C88, AL));
    v.push(rec(0x1C90, 0x1CBA, AL));
    v.push(rec(0x1CBD, 0x1CC7, AL));
    v.push(rec(0x1CD0, 0x1CD2, CM));
    v.push(rec(0x1CD3, 0x1CD3, AL));
    v.push(rec(0x1CD4, 0x1CE8, CM));
    v.push(rec(0x1CE9, 0x1CEC, AL));
    v.push(rec(0x1CED, 0x1CED, CM));
    v.push(rec(0x1CEE, 0x1CF3, AL));
    v.push(rec(0x1CF4, 0x1CF4, CM));
    v.push(rec(0x1CF5, 0x1CF6, AL));
    v.push(rec(0x1CF7, 0x1CF9, CM));
    v.push(rec(0x1CFA, 0x1CFA, AL));
    v.push(rec(0x1D00, 0x1DBF, AL));
    v.push(rec(0x1DC0, 0x1DFF, CM));
    v.push(rec(0x1E00, 0x1F15, AL));
    v.push(rec(0x1F18, 0x1F1D, AL));
    v.push(rec(0x1F20, 0x1F45, AL));
    v.push(rec(0x1F48, 0x1F4D, AL));
    v.push(rec(0x1F50, 0x1F57, AL));
    v.push(rec(0x1F59, 0x1F59, AL));
    v.push(rec(0x1F5B, 0x1F5B, AL));
    v.push(rec(0x1F5D, 0x1F5D, AL));
    v.push(rec(0x1F5F, 0x1F7D, AL));
    v.push(rec(0x1F80, 0x1FB4, AL));
    v.push(rec(0x1FB6, 0x1FC4, AL));
    v.push(rec(0x1FC6, 0x1FD3, AL));
    v.push(rec(0x1FD6, 0x1FDB, AL));
    v.push(rec(0x1FDD, 0x1FEF, AL));
    v.push(rec(0x1FF2, 0x1FF4, AL));
    v.push(rec(0x1FF6, 0x1FFC, AL));
    v.push(rec(0x1FFD, 0x1FFD, BB));
    v.push(rec(0x1FFE, 0x1FFE, AL));
    v.push(rec(0x2000, 0x2006, BA));
    v.push(rec(0x2007, 0x2007, GL));
    v.push(rec(0x2008, 0x200A, BA));
    v.push(rec(0x200B, 0x200B, ZW));
    v.push(rec(0x200C, 0x200C, CM));
    v.push(rec(0x200D, 0x200D, ZWJ));
    v.push(rec(0x200E, 0x200F, CM));
    v.push(rec(0x2010, 0x2010, BA));
    v.push(rec(0x2011, 0x2011, GL));
    v.push(rec(0x2012, 0x2013, BA));
    proof {
        assert(v@ =~= old(v)@ + records_part12());
    }
}

/// Append the records of [`records_part13`].
#[verifier::rlimit(100)]
#[verifier::spinoff_prover]
fn push_part13(v: &mut Vec<Record>)
    ensures
        final(v)@ == old(v)@ + records_part13(),
{
    v.push(rec(0x2014, 0x2014, B2));
    v.push(rec(0x2015, 0x2016, AI));
    v.push(rec(0x2017, 0x2017, AL));
    v.push(rec(0x2018, 0x2019, QU));
    v.push(rec(0x201A, 0x201A, OP));
    v.push(rec(0x201B, 0x201D, QU));
    v.push(rec(0x201E, 0x201E, OP));
    v.push(rec(0x201F, 0x201F, QU));
    v.push(rec(0x2020, 0x2021, AI));
    v.push(rec(0x2022, 0x2023, AL));
    v.push(rec(0x2024, 0x2026, IN));
    v.push(rec(0x2027, 0x2027, BA));
    v.push(rec(0x2028, 0x2029, BK));
    v.push(rec(0x202A, 0x202E, CM));
    v.push(rec(0x202F, 0x202F, GL));
    v.push(rec(0x2030, 0x2037, PO));
    v.push(rec(0x2038, 0x2038, AL));
    v.push(rec(0x2039, 0x203A, QU));
    v.push(rec(0x203B, 0x203B, AI));
    v.push(rec(0x203C, 0x203D, NS));
    v.push(rec(0x203E, 0x2043, AL));
    v.push(rec(0x2044, 0x2044, IS));
    v.push(rec(0x2045, 0x2045, OP));
    v.push(rec(0x2046, 0x2046, CL));
    v.push(rec(0x2047, 0x2049, NS));
    v.push(rec(0x204A, 0x2055, AL));
    v.push(rec(0x2056, 0x2056, BA));
    v.push(rec(0x2057, 0x2057, AL));
    v.push(rec(0x2058, 0x205B, BA));
    v.push(rec(0x205C, 0x205C, AL));
    v.push(rec(0x205D, 0x205F, BA));
    v.push(rec(0x2060, 0x2060, WJ));
    v.push(rec(0x2061, 0x2064, AL));
    v.push(rec(0x2066, 0x206F, CM));
    v.push(rec(0x2070, 0x2071, AL));
    v.push(rec(0x2074, 0x2074, AI));
    v.push(rec(0x2075, 0x207C, AL));
    v.push(rec(0x207D, 0x207D, OP));
    v.push(rec(0x207E, 0x207E, CL));
    v.push(rec(0x207F, 0x207F, AI));
    v.push(rec(0x2080, 0x2080, AL));
    v.push(rec(0x2081, 0x2084, AI));
    v.push(rec(0x2085, 0x208C, AL));
    v.push(rec(0x208D, 0x208D, OP));
    v.push(rec(0x208E, 0x208E, CL));
    v.push(rec(0x2090, 0x209C, AL));
    v.push(rec(0x20A0, 0x20A6, PR));
    v.push(rec(0x20A7, 0x20A7, PO));
    v.push(rec(0x20A8, 0x20B5, PR));
    v.push(rec(0x20B6, 0x20B6, PO));
    proof {
        assert(v@ =~= old(v)@ + records_part13());
    }
}

/// Append the records of [`records_part14`].
#[verifier::rlimit(100)]
#[verifier::spinoff_prover]
fn push_part14(v: &mut Vec<Record>)
    ensures
        final(v)@ == old(v)@ + records_part14(),
{
    v.push(rec(0x20B7, 0x20BA, PR));
    v.push(rec(0x20BB, 0x20BB, PO));
    v.push(rec(0x20BC, 0x20BD, PR));
    v.push(rec(0x20BE, 0x20BE, PO));
    v.push(rec(0x20BF, 0x20BF, PR));
    v.push(rec(0x20C0, 0x20C0, PO));
    v.push(rec(0x20C1, 0x20CF, PR));
    v.push(rec(0x20D0, 0x20F0, CM));
    v.push(rec(0x2100, 0x2102, AL));
    v.push(rec(0x2103, 0x2103, PO));
    v.push(rec(0x2104, 0x2104, AL));
    v.push(rec(0x2105, 0x2105, AI));
    v.push(rec(0x2106, 0x2108, AL));
    v.push(rec(0x2109, 0x2109, PO));
    v.push(rec(0x210A, 0x2112, AL));
    v.push(rec(0x2113, 0x2113, AI));
    v.push(rec(0x2114, 0x2115, AL));
    v.push(rec(0x2116, 0x2116, PR));
    v.push(rec(0x2117, 0x2120, AL));
    v.push(rec(0x2121, 0x2122, AI));
    v.push(rec(0x2123, 0x212A, AL));
    v.push(rec(0x212B, 0x212B, AI));
    v.push(rec(0x212C, 0x2153, AL));
    v.push(rec(0x2154, 0x2155, AI));
    v.push(rec(0x2156, 0x215A, AL));
    v.push(rec(0x215B, 0x215B, AI));
    v.push(rec(0x215C, 0x215D, AL));
    v.push(rec(0x215E, 0x215E, AI));
    v.push(rec(0x215F, 0x215F, AL));
    v.push(rec(0x2160, 0x216B, AI));
    v.push(rec(0x216C, 0x216F, AL));
    v.push(rec(0x2170, 0x2179, AI));
    v.push(rec(0x217A, 0x2188, AL));
    v.push(rec(0x2189, 0x2189, AI));
    v.push(rec(0x218A, 0x218B, AL));
    v.push(rec(0x2190, 0x2199, AI));
    v.push(rec(0x219A, 0x21D1, AL));
    v.push(rec(0x21D2, 0x21D2, AI));
    v.push(rec(0x21D3, 0x21D3, AL));
    v.push(rec(0x21D4, 0x21D4, AI));
    v.push(rec(0x21D5, 0x21FF, AL));
    v.push(rec(0x2200, 0x2200, AI));
    v.push(rec(0x2201, 0x2201, AL));
    v.push(rec(0x2202, 0x2203, AI));
    v.push(rec(0x2204, 0x2206, AL));
    v.push(rec(0x2207, 0x2208, AI));
    v.push(rec(0x2209, 0x220A, AL));
    v.push(rec(0x220B, 0x220B, AI));
    v.push(rec(0x220C, 0x220E, AL));
    v.push(rec(0x220F, 0x220F, AI));
    proof {
        assert(v@ =~= old(v)@ + records_part14());
    }
}

/// Append the records of [`records_part15`].
#[verifier::rlimit(100)]
#[verifier::spinoff_prover]
fn push_part15(v: &mut Vec<Record>)
    ensures
        final(v)@ == old(v)@ + records_part15(),
{
    v.push(rec(0x2210, 0x2210, AL));
    v.push(rec(0x2211, 0x2211, AI));
    v.push(rec(0x2212, 0x2213, PR));
    v.push(rec(0x2214, 0x2214, AL));
    v.push(rec(0x2215, 0x2215, AI));
    v.push(rec(0x2216, 0x2219, AL));
    v.push(rec(0x221A, 0x221A, AI));
    v.push(rec(0x221B, 0x221C, AL));
    v.push(rec(0x221D, 0x2220, AI));
    v.push(rec(0x2221, 0x2222, AL));
    v.push(rec(0x2223, 0x2223, AI));
    v.push(rec(0x2224, 0x2224, AL));
    v.push(rec(0x2225, 0x2225, AI));
    v.push(rec(0x2226, 0x2226, AL));
    v.push(rec(0x2227, 0x222C, AI));
    v.push(rec(0x222D, 0x222D, AL));
    v.push(rec(0x222E, 0x222E, AI));
    v.push(rec(0x222F, 0x2233, AL));
    v.push(rec(0x2234, 0x2237, AI));
    v.push(rec(0x2238, 0x223B, AL));
    v.push(rec(0x223C, 0x223D, AI));
    v.push(rec(0x223E, 0x2247, AL));
    v.push(rec(0x2248, 0x2248, AI));
    v.push(rec(0x2249, 0x224B, AL));
    v.push(rec(0x224C, 0x224C, AI));
    v.push(rec(0x224D, 0x2251, AL));
    v.push(rec(0x2252, 0x2252, AI));
    v.push(rec(0x2253, 0x225F, AL));
    v.push(rec(0x2260, 0x2261, AI));
    v.push(rec(0x2262, 0x2263, AL));
    v.push(rec(0x2264, 0x2267, AI));
    v.push(rec(0x2268, 0x2269, AL));
    v.push(rec(0x226A, 0x226B, AI));
    v.push(rec(0x226C, 0x226D, AL));
    v.push(rec(0x226E, 0x226F, AI));
    v.push(rec(0x2270, 0x2281, AL));
    v.push(rec(0x2282, 0x2283, AI));
    v.push(rec(0x2284, 0x2285, AL));
    v.push(rec(0x2286, 0x2287, AI));
    v.push(rec(0x2288, 0x2294, AL));
    v.push(rec(0x2295, 0x2295, AI));
    v.push(rec(0x2296, 0x2298, AL));
    v.push(rec(0x2299, 0x2299, AI));
    v.push(rec(0x229A, 0x22A4, AL));
    v.push(rec(0x22A5, 0x22A5, AI));
    v.push(rec(0x22A6, 0x22BE, AL));
    v.push(rec(0x22BF, 0x22BF, AI));
    v.push(rec(0x22C0, 0x22EE, AL));
    v.push(rec(0x22EF, 0x22EF, IN));
    v.push(rec(0x22F0, 0x2307, AL));
    proof {
        assert(v@ =~= old(v)@ + records_part15());
    }
}

/// Append the records of [`records_part16`].
#[verifier::rlimit(100)]
#[verifier::spinoff_prover]
fn push_part16(v: &mut Vec<Record>)
    ensures
        final(v)@ == old(v)@ + records_part16(),
{
    v.push(rec(0x2308, 0x2308, OP));
    v.push(rec(0x2309, 0x2309, CL));
    v.push(rec(0x230A, 0x230A, OP));
    v.push(rec(0x230B, 0x230B, CL));
    v.push(rec(0x230C, 0x2311, AL));
    v.push(rec(0x2312, 0x2312, AI));
    v.push(rec(0x2313, 0x2319, AL));
    v.push(rec(0x231A, 0x231B, ID));
    v.push(rec(0x231C, 0x2328, AL));
    v.push(rec(0x2329, 0x2329, OP));
    v.push(rec(0x232A, 0x232A, CL));
    v.push(rec(0x232B, 0x23EF, AL));
    v.push(rec(0x23F0, 0x23F3, ID));
    v.push(rec(0x23F4, 0x2426, AL));
    v.push(rec(0x2440, 0x244A, AL));
    v.push(rec(0x2460, 0x24FE, AI));
    v.push(rec(0x24FF, 0x24FF, AL));
    v.push(rec(0x2500, 0x254B, AI));
    v.push(rec(0x254C, 0x254F, AL));
    v.push(rec(0x2550, 0x2574, AI));
    v.push(rec(0x2575, 0x257F, AL));
    v.push(rec(0x2580, 0x258F, AI));
    v.push(rec(0x2590, 0x2591, AL));
    v.push(rec(0x2592, 0x2595, AI));
    v.push(rec(0x2596, 0x259F, AL));
    v.push(rec(0x25A0, 0x25A1, AI));
    v.push(rec(0x25A2, 0x25A2, AL));
    v.push(rec(0x25A3, 0x25A9, AI));
    v.push(rec(0x25AA, 0x25B1, AL));
    v.push(rec(0x25B2, 0x25B3, AI));
    v.push(rec(0x25B4, 0x25B5, AL));
    v.push(rec(0x25B6, 0x25B7, AI));
    v.push(rec(0x25B8, 0x25BB, AL));
    v.push(rec(0x25BC, 0x25BD, AI));
    v.push(rec(0x25BE, 0x25BF, AL));
    v.push(rec(0x25C0, 0x25C1, AI));
    v.push(rec(0x25C2, 0x25C5, AL));
    v.push(rec(0x25C6, 0x25C8, AI));
    v.push(rec(0x25C9, 0x25CA, AL));
    v.push(rec(0x25CB, 0x25CB, AI));
    v.push(rec(0x25CC, 0x25CD, AL));
    v.push(rec(0x25CE, 0x25D1, AI));
    v.push(rec(0x25D2, 0x25E1, AL));
    v.push(rec(0x25E2, 0x25E5, AI));
    v.push(rec(0x25E6, 0x25EE, AL));
    v.push(rec(0x25EF, 0x25EF, AI));
    v.push(rec(0x25F0, 0x25FF, AL));
    v.push(rec(0x2600, 0x2603, ID));
    v.push(rec(0x2604, 0x2604, AL));
    v.push(rec(0x2605, 0x2606, AI));
    proof {
        assert(v@ =~= old(v)@ + records_part16());
    }
}

/// Append the records of [`records_part17`].
#[verifier::rlimit(100)]
#[verifier::spinoff_prover]
fn push_part17(v: &mut Vec<Record>)
    ensures
        final(v)@ == old(v)@ + records_part17(),
{
    v.push(rec(0x2607, 0x2608, AL));
    v.push(rec(0x2609, 0x2609, AI));
    v.push(rec(0x260A, 0x260D, AL));
    v.push(rec(0x260E, 0x260F, AI));
    v.push(rec(0x2610, 0x2613, AL));
    v.push(rec(0x2614, 0x2615, ID));
    v.push(rec(0x2616, 0x2617, AI));
    v.push(rec(0x2618, 0x2618, ID));
    v.push(rec(0x2619, 0x2619, AL));
    v.push(rec(0x261A, 0x261C, ID));
    v.push(rec(0x261D, 0x261D, EB));
    v.push(rec(0x261E, 0x261F, ID));
    v.push(rec(0x2620, 0x2638, AL));
    v.push(rec(0x2639, 0x263B, ID));
    v.push(rec(0x263C, 0x263F, AL));
    v.push(rec(0x2640, 0x2640, AI));
    v.push(rec(0x2641, 0x2641, AL));
    v.push(rec(0x2642, 0x2642, AI));
    v.push(rec(0x2643, 0x265F, AL));
    v.push(rec(0x2660, 0x2661, AI));
    v.push(rec(0x2662, 0x2662, AL));
    v.push(rec(0x2663, 0x2665, AI));
    v.push(rec(0x2666, 0x2666, AL));
    v.push(rec(0x2667, 0x2667, AI));
    v.push(rec(0x2668, 0x2668, ID));
    v.push(rec(0x2669, 0x266A, AI));
    v.push(rec(0x266B, 0x266B, AL));
    v.push(rec(0x266C, 0x266D, AI));
    v.push(rec(0x266E, 0x266E, AL));
    v.push(rec(0x266F, 0x266F, AI));
    v.push(rec(0x2670, 0x267E, AL));
    v.push(rec(0x267F, 0x267F, ID));
    v.push(rec(0x2680, 0x269D, AL));
    v.push(rec(0x269E, 0x269F, AI));
    v.push(rec(0x26A0, 0x26BC, AL));
    v.push(rec(0x26BD, 0x26C8, ID));
    v.push(rec(0x26C9, 0x26CC, AI));
    v.push(rec(0x26CD, 0x26CD, ID));
    v.push(rec(0x26CE, 0x26CE, AL));
    v.push(rec(0x26CF, 0x26D1, ID));
    v.push(rec(0x26D2, 0x26D2, AI));
    v.push(rec(0x26D3, 0x26D4, ID));
    v.push(rec(0x26D5, 0x26D7, AI));
    v.push(rec(0x26D8, 0x26D9, ID));
    v.push(rec(0x26DA, 0x26DB, AI));
    v.push(rec(0x26DC, 0x26DC, ID));
    v.push(rec(0x26DD, 0x26DE, AI));
    v.push(rec(0x26DF, 0x26E1, ID));
    v.push(rec(0x26E2, 0x26E2, AL));
    v.push(rec(0x26E3, 0x26E3, AI));
    proof {
        assert(v@ =~= old(v)@ + records_part17());
    }
}

/// Append the records of [`records_part18`].
#[verifier::rlimit(100)]
#[verifier::spinoff_prover]
fn push_part18(v: &mut Vec<Record>)
    ensures
        final(v)@ == old(v)@ + records_part18(),
{
    v.push(rec(0x26E4, 0x26E7, AL));
    v.push(rec(0x26E8, 0x26E9, AI));
    v.push(rec(0x26EA, 0x26EA, ID));
    v.push(rec(0x26EB, 0x26F0, AI));
    v.push(rec(0x26F1, 0x26F5, ID));
    v.push(rec(0x26F6, 0x26F6, AI));
    v.push(rec(0x26F7, 0x26F8, ID));
    v.push(rec(0x26F9, 0x26F9, EB));
    v.push(rec(0x26FA, 0x26FA, ID));
    v.push(rec(0x26FB, 0x26FC, AI));
    v.push(rec(0x26FD, 0x2704, ID));
    v.push(rec(0x2705, 0x2707, AL));
    v.push(rec(0x2708, 0x2709, ID));
    v.push(rec(0x270A, 0x270D, EB));
    v.push(rec(0x270E, 0x2756, AL));
    v.push(rec(0x2757, 0x2757, AI));
    v.push(rec(0x2758, 0x275A, AL));
    v.push(rec(0x275B, 0x2760, QU));
    v.push(rec(0x2761, 0x2761, AL));
    v.push(rec(0x2762, 0x2763, EX));
    v.push(rec(0x2764, 0x2764, ID));
    v.push(rec(0x2765, 0x2767, AL));
    v.push(rec(0x2768, 0x2768, OP));
    v.push(rec(0x2769, 0x2769, CL));
    v.push(rec(0x276A, 0x276A, OP));
    v.push(rec(0x276B, 0x276B, CL));
    v.push(rec(0x276C, 0x276C, OP));
    v.push(rec(0x276D, 0x276D, CL));
    v.push(rec(0x276E, 0x276E, OP));
    v.push(rec(0x276F, 0x276F, CL));
    v.push(rec(0x2770, 0x2770, OP));
    v.push(rec(0x2771, 0x2771, CL));
    v.push(rec(0x2772, 0x2772, OP));
    v.push(rec(0x2773, 0x2773, CL));
    v.push(rec(0x2774, 0x2774, OP));
    v.push(rec(0x2775, 0x2775, CL));
    v.push(rec(0x2776, 0x2793, AI));
    v.push(rec(0x2794, 0x27C4, AL));
    v.push(rec(0x27C5, 0x27C5, OP));
    v.push(rec(0x27C6, 0x27C6, CL));
    v.push(rec(0x27C7, 0x27E5, AL));
    v.push(rec(0x27E6, 0x27E6, OP));
    v.push(rec(0x27E7, 0x27E7, CL));
    v.push(rec(0x27E8, 0x27E8, OP));
    v.push(rec(0x27E9, 0x27E9, CL));
    v.push(rec(0x27EA, 0x27EA, OP));
    v.push(rec(0x27EB, 0x27EB, CL));
    v.push(rec(0x27EC, 0x27EC, OP));
    v.push(rec(0x27ED, 0x27ED, CL));
    v.push(rec(0x27EE, 0x27EE, OP));
    proof {
        assert(v@ =~= old(v)@ + records_part18());
    }
}

/// Append the records of [`records_part19`].
#[verifier::rlimit(100)]
#[verifier::spinoff_prover]
fn push_part19(v: &mut Vec<Record>)
    ensures
        final(v)@ == old(v)@ + records_part19(),
{
    v.push(rec(0x27EF, 0x27EF, CL));
    v.push(rec(0x27F0, 0x2982, AL));
    v.push(rec(0x2983, 0x2983, OP));
    v.push(rec(0x2984, 0x2984, CL));
    v.push(rec(0x2985, 0x2985, OP));
    v.push(rec(0x2986, 0x2986, CL));
    v.push(rec(0x2987, 0x2987, OP));
    v.push(rec(0x2988, 0x2988, CL));
    v.push(rec(0x2989, 0x2989, OP));
    v.push(rec(0x298A, 0x298A, CL));
    v.push(rec(0x298B, 0x298B, OP));
    v.push(rec(0x298C, 0x298C, CL));
    v.push(rec(0x298D, 0x298D, OP));
    v.push(rec(0x298E, 0x298E, CL));
    v.push(rec(0x298F, 0x298F, OP));
    v.push(rec(0x2990, 0x2990, CL));
    v.push(rec(0x2991, 0x2991, OP));
    v.push(rec(0x2992, 0x2992, CL));
    v.push(rec(0x2993, 0x2993, OP));
    v.push(rec(0x2994, 0x2994, CL));
    v.push(rec(0x2995, 0x2995, OP));
    v.push(rec(0x2996, 0x2996, CL));
    v.push(rec(0x2997, 0x2997, OP));
    v.push(rec(0x2998, 0x2998, CL));
    v.push(rec(0x2999, 0x29D7, AL));
    v.push(rec(0x29D8, 0x29D8, OP));
    v.push(rec(0x29D9, 0x29D9, CL));
    v.push(rec(0x29DA, 0x29DA, OP));
    v.push(rec(0x29DB, 0x29DB, CL));
    v.push(rec(0x29DC, 0x29FB, AL));
    v.push(rec(0x29FC, 0x29FC, OP));
    v.push(rec(0x29FD, 0x29FD, CL));
    v.push(rec(0x29FE, 0x2B54, AL));
    v.push(rec(0x2B55, 0x2B59, AI));
    v.push(rec(0x2B5A, 0x2B73, AL));
    v.push(rec(0x2B76, 0x2B95, AL));
    v.push(rec(0x2B97, 0x2CEE, AL));
    v.push(rec(0x2CEF, 0x2CF1, CM));
    v.push(rec(0x2CF2, 0x2CF3, AL));
    v.push(rec(0x2CF9, 0x2CF9, EX));
    v.push(rec(0x2CFA, 0x2CFC, BA));
    v.push(rec(0x2CFD, 0x2CFD, AL));
    v.push(rec(0x2CFE, 0x2CFE, EX));
    v.push(rec(0x2CFF, 0x2CFF, BA));
    v.push(rec(0x2D00, 0x2D25, AL));
    v.push(rec(0x2D27, 0x2D27, AL));
    v.push(rec(0x2D2D, 0x2D2D, AL));
    v.push(rec(0x2D30, 0x2D67, AL));
    v.push(rec(0x2D6F, 0x2D6F, AL));
    v.push(rec(0x2D70, 0x2D70, BA));
    proof {
        assert(v@ =~= old(v)@ + records_part19());
    }
}

/// Append the records of [`records_part20`].
#[verifier::rlimit(100)]
#[verifier::spinoff_prover]
fn push_part20(v: &mut Vec<Record>)
    ensures
        final(v)@ == old(v)@ + records_part20(),
{
    v.push(rec(0x2D7F, 0x2D7F, CM));
    v.push(rec(0x2D80, 0x2D96, AL));
    v.push(rec(0x2DA0, 0x2DA6, AL));
    v.push(rec(0x2DA8, 0x2DAE, AL));
    v.push(rec(0x2DB0, 0x2DB6, AL));
    v.push(rec(0x2DB8, 0x2DBE, AL));
    v.push(rec(0x2DC0, 0x2DC6, AL));
    v.push(rec(0x2DC8, 0x2DCE, AL));
    v.push(rec(0x2DD0, 0x2DD6, AL));
    v.push(rec(0x2DD8, 0x2DDE, AL));
    v.push(rec(0x2DE0, 0x2DFF, CM));
    v.push(rec(0x2E00, 0x2E0D, QU));
    v.push(rec(0x2E0E, 0x2E15, BA));
    v.push(rec(0x2E16, 0x2E16, AL));
    v.push(rec(0x2E17, 0x2E17, BA));
    v.push(rec(0x2E18, 0x2E18, OP));
    v.push(rec(0x2E19, 0x2E19, BA));
    v.push(rec(0x2E1A, 0x2E1B, AL));
    v.push(rec(0x2E1C, 0x2E1D, QU));
    v.push(rec(0x2E1E, 0x2E1F, AL));
    v.push(rec(0x2E20, 0x2E21, QU));
    v.push(rec(0x2E22, 0x2E22, OP));
    v.push(rec(0x2E23, 0x2E23, CL));
    v.push(rec(0x2E24, 0x2E24, OP));
    v.push(rec(0x2E25, 0x2E25, CL));
    v.push(rec(0x2E26, 0x2E26, OP));
    v.push(rec(0x2E27, 0x2E27, CL));
    v.push(rec(0x2E28, 0x2E28, OP));
    v.push(rec(0x2E29, 0x2E29, CL));
    v.push(rec(0x2E2A, 0x2E2D, BA));
    v.push(rec(0x2E2E, 0x2E2E, EX));
    v.push(rec(0x2E2F, 0x2E2F, AL));
    v.push(rec(0x2E30, 0x2E31, BA));
    v.push(rec(0x2E32, 0x2E32, AL));
    v.push(rec(0x2E33, 0x2E34, BA));
    v.push(rec(0x2E35, 0x2E39, AL));
    v.push(rec(0x2E3A, 0x2E3B, B2));
    v.push(rec(0x2E3C, 0x2E3E, BA));
    v.push(rec(0x2E3F, 0x2E3F, AL));
    v.push(rec(0x2E40, 0x2E41, BA));
    v.push(rec(0x2E42, 0x2E42, OP));
    v.push(rec(0x2E43, 0x2E4A, BA));
    v.push(rec(0x2E4B, 0x2E4B, AL));
    v.push(rec(0x2E4C, 0x2E4C, BA));
    v.push(rec(0x2E4D, 0x2E4D, AL));
    v.push(rec(0x2E4E, 0x2E4F, BA));
    v.push(rec(0x2E50, 0x2E52, AL));
    v.push(rec(0x2E53, 0x2E54, EX));
    v.push(rec(0x2E55, 0x2E55, OP));
    v.push(rec(0x2E56, 0x2E56, CL));
    proof {
        assert(v@ =~= old(v)@ + records_part20());
    }
}

/// Append the records of [`records_part21`].
#[verifier::rlimit(100)]
#[verifier::spinoff_prover]
fn push_part21(v: &mut Vec<Record>)
    ensures
        final(v)@ == old(v)@ + records_part21(),
{
    v.push(rec(0x2E57, 0x2E57, OP));
    v.push(rec(0x2E58, 0x2E58, CL));
    v.push(rec(0x2E59, 0x2E59, OP));
    v.push(rec(0x2E5A, 0x2E5A, CL));
    v.push(rec(0x2E5B, 0x2E5B, OP));
    v.push(rec(0x2E5C, 0x2E5C, CL));
    v.push(rec(0x2E5D, 0x2E5D, BA));
    v.push(rec(0x2E80, 0x2E99, ID));
    v.push(rec(0x2E9B, 0x2EF3, ID));
    v.push(rec(0x2F00, 0x2FD5, ID));
    v.push(rec(0x2FF0, 0x2FFB, ID));
    v.push(rec(0x3000, 0x3000, BA));
    v.push(rec(0x3001, 0x3002, CL));
    v.push(rec(0x3003, 0x3004, ID));
    v.push(rec(0x3005, 0x3005, NS));
    v.push(rec(0x3006, 0x3007, ID));
    v.push(rec(0x3008, 0x3008, OP));
    v.push(rec(0x3009, 0x3009, CL));
    v.push(rec(0x300A, 0x300A, OP));
    v.push(rec(0x300B, 0x300B, CL));
    v.push(rec(0x300C, 0x300C, OP));
    v.push(rec(0x300D, 0x300D, CL));
    v.push(rec(0x300E, 0x300E, OP));
    v.push(rec(0x300F, 0x300F, CL));
    v.push(rec(0x3010, 0x3010, OP));
    v.push(rec(0x3011, 0x3011, CL));
    v.push(rec(0x3012, 0x3013, ID));
    v.push(rec(0x3014, 0x3014, OP));
    v.push(rec(0x3015, 0x3015, CL));
    v.push(rec(0x3016, 0x3016, OP));
    v.push(rec(0x3017, 0x3017, CL));
    v.push(rec(0x3018, 0x3018, OP));
    v.push(rec(0x3019, 0x3019, CL));
    v.push(rec(0x301A, 0x301A, OP));
    v.push(rec(0x301B, 0x301B, CL));
    v.push(rec(0x301C, 0x301C, NS));
    v.push(rec(0x301D, 0x301D, OP));
    v.push(rec(0x301E, 0x301F, CL));
    v.push(rec(0x3020, 0x3029, ID));
    v.push(rec(0x302A, 0x302F, CM));
    v.push(rec(0x3030, 0x3034, ID));
    v.push(rec(0x3035, 0x3035, CM));
    v.push(rec(0x3036, 0x303A, ID));
    v.push(rec(0x303B, 0x303C, NS));
    v.push(rec(0x303D, 0x303F, ID));
    v.push(rec(0x3041, 0x3041, CJ));
    v.push(rec(0x3042, 0x3042, ID));
    v.push(rec(0x3043, 0x3043, CJ));
    v.push(rec(0x3044, 0x3044, ID));
    v.push(rec(0x3045, 0x3045, CJ));
    proof {
        assert(v@ =~= old(v)@ + records_part21());
    }
}

/// Append the records of [`records_part22`].
#[verifier::rlimit(100)]
#[verifier::spinoff_prover]
fn push_part22(v: &mut Vec<Record>)
    ensures
        final(v)@ == old(v)@ + records_part22(),
{
    v.push(rec(0x3046, 0x3046, ID));
    v.push(rec(0x3047, 0x3047, CJ));
    v.push(rec(0x3048, 0x3048, ID));
    v.push(rec(0x3049, 0x3049, CJ));
    v.push(rec(0x304A, 0x3062, ID));
    v.push(rec(0x3063, 0x3063, CJ));
    v.push(rec(0x3064, 0x3082, ID));
    v.push(rec(0x3083, 0x3083, CJ));
    v.push(rec(0x3084, 0x3084, ID));
    v.push(rec(0x3085, 0x3085, CJ));
    v.push(rec(0x3086, 0x3086, ID));
    v.push(rec(0x3087, 0x3087, CJ));
    v.push(rec(0x3088, 0x308D, ID));
    v.push(rec(0x308E, 0x308E, CJ));
    v.push(rec(0x308F, 0x3094, ID));
    v.push(rec(0x3095, 0x3096, CJ));
    v.push(rec(0x3099, 0x309A, CM));
    v.push(rec(0x309B, 0x309E, NS));
    v.push(rec(0x309F, 0x309F, ID));
    v.push(rec(0x30A0, 0x30A0, NS));
    v.push(rec(0x30A1, 0x30A1, CJ));
    v.push(rec(0x30A2, 0x30A2, ID));
    v.push(rec(0x30A3, 0x30A3, CJ));
    v.push(rec(0x30A4, 0x30A4, ID));
    v.push(rec(0x30A5, 0x30A5, CJ));
    v.push(rec(0x30A6, 0x30A6, ID));
    v.push(rec(0x30A7, 0x30A7, CJ));
    v.push(rec(0x30A8, 0x30A8, ID));
    v.push(rec(0x30A9, 0x30A9, CJ));
    v.push(rec(0x30AA, 0x30C2, ID));
    v.push(rec(0x30C3, 0x30C3, CJ));
    v.push(rec(0x30C4, 0x30E2, ID));
    v.push(rec(0x30E3, 0x30E3, CJ));
    v.push(rec(0x30E4, 0x30E4, ID));
    v.push(rec(0x30E5, 0x30E5, CJ));
    v.push(rec(0x30E6, 0x30E6, ID));
    v.push(rec(0x30E7, 0x30E7, CJ));
    v.push(rec(0x30E8, 0x30ED, ID));
    v.push(rec(0x30EE, 0x30EE, CJ));
    v.push(rec(0x30EF, 0x30F4, ID));
    v.push(rec(0x30F5, 0x30F6, CJ));
    v.push(rec(0x30F7, 0x30FA, ID));
    v.push(rec(0x30FB, 0x30FB, NS));
    v.push(rec(0x30FC, 0x30FC, CJ));
    v.push(rec(0x30FD, 0x30FE, NS));
    v.push(rec(0x30FF, 0x30FF, ID));
    v.push(rec(0x3105, 0x312F, ID));
    v.push(rec(0x3131, 0x318E, ID));
    v.push(rec(0x3190, 0x31E3, ID));
    v.push(rec(0x31F0, 0x31FF, CJ));
    proof {
        assert(v@ =~= old(v)@ + records_part22());
    }
}

/// Append the records of [`records_part23`].
#[verifier::rlimit(100)]
#[verifier::spinoff_prover]
fn push_part23(v: &mut Vec<Record>)
    ensures
        final(v)@ == old(v)@ + records_part23(),
{
    v.push(rec(0x3200, 0x321E, ID));
    v.push(rec(0x3220, 0x3247, ID));
    v.push(rec(0x3248, 0x324F, AI));
    v.push(rec(0x3250, 0x4DBF, ID));
    v.push(rec(0x4DC0, 0x4DFF, AL));
    v.push(rec(0x4E00, 0xA014, ID));
    v.push(rec(0xA015, 0xA015, NS));
    v.push(rec(0xA016, 0xA48C, ID));
    v.push(rec(0xA490, 0xA4C6, ID));
    v.push(rec(0xA4D0, 0xA4FD, AL));
    v.push(rec(0xA4FE, 0xA4FF, BA));
    v.push(rec(0xA500, 0xA60C, AL));
    v.push(rec(0xA60D, 0xA60D, BA));
    v.push(rec(0xA60E, 0xA60E, EX));
    v.push(rec(0xA60F, 0xA60F, BA));
    v.push(rec(0xA610, 0xA61F, AL));
    v.push(rec(0xA620, 0xA629, NU));
    v.push(rec(0xA62A, 0xA62B, AL));
    v.push(rec(0xA640, 0xA66E, AL));
    v.push(rec(0xA66F, 0xA672, CM));
    v.push(rec(0xA673, 0xA673, AL));
    v.push(rec(0xA674, 0xA67D, CM));
    v.push(rec(0xA67E, 0xA69D, AL));
    v.push(rec(0xA69E, 0xA69F, CM));
    v.push(rec(0xA6A0, 0xA6EF, AL));
    v.push(rec(0xA6F0, 0xA6F1, CM));
    v.push(rec(0xA6F2, 0xA6F2, AL));
    v.push(rec(0xA6F3, 0xA6F7, BA));
    v.push(rec(0xA700, 0xA7CA, AL));
    v.push(rec(0xA7D0, 0xA7D1, AL));
    v.push(rec(0xA7D3, 0xA7D3, AL));
    v.push(rec(0xA7D5, 0xA7D9, AL));
    v.push(rec(0xA7F2, 0xA801, AL));
    v.push(rec(0xA802, 0xA802, CM));
    v.push(rec(0xA803, 0xA805, AL));
    v.push(rec(0xA806, 0xA806, CM));
    v.push(rec(0xA807, 0xA80A, AL));
    v.push(rec(0xA80B, 0xA80B, CM));
    v.push(rec(0xA80C, 0xA822, AL));
    v.push(rec(0xA823, 0xA827, CM));
    v.push(rec(0xA828, 0xA82B, AL));
    v.push(rec(0xA82C, 0xA82C, CM));
    v.push(rec(0xA830, 0xA837, AL));
    v.push(rec(0xA838, 0xA838, PO));
    v.push(rec(0xA839, 0xA839, AL));
    v.push(rec(0xA840, 0xA873, AL));
    v.push(rec(0xA874, 0xA875, BB));
    v.push(rec(0xA876, 0xA877, EX));
    v.push(rec(0xA880, 0xA881, CM));
    v.push(rec(0xA882, 0xA8B3, AL));
    proof {
        assert(v@ =~= old(v)@ + records_part23());
    }
}

/// Append the records of [`records_part24`].
#[verifier::rlimit(100)]
#[verifier::spinoff_prover]
fn push_part24(v: &mut Vec<Record>)
    ensures
        final(v)@ == old(v)@ + records_part24(),
{
    v.push(rec(0xA8B4, 0xA8C5, CM));
    v.push(rec(0xA8CE, 0xA8CF, BA));
    v.push(rec(0xA8D0, 0xA8D9, NU));
    v.push(rec(0xA8E0, 0xA8F1, CM));
    v.push(rec(0xA8F2, 0xA8FB, AL));
    v.push(rec(0xA8FC, 0xA8FC, BB));
    v.push(rec(0xA8FD, 0xA8FE, AL));
    v.push(rec(0xA8FF, 0xA8FF, CM));
    v.push(rec(0xA900, 0xA909, NU));
    v.push(rec(0xA90A, 0xA925, AL));
    v.push(rec(0xA926, 0xA92D, CM));
    v.push(rec(0xA92E, 0xA92F, BA));
    v.push(rec(0xA930, 0xA946, AL));
    v.push(rec(0xA947, 0xA953, CM));
    v.push(rec(0xA95F, 0xA95F, AL));
    v.push(rec(0xA960, 0xA97C, JL));
    v.push(rec(0xA980, 0xA983, CM));
    v.push(rec(0xA984, 0xA9B2, AL));
    v.push(rec(0xA9B3, 0xA9C0, CM));
    v.push(rec(0xA9C1, 0xA9C6, AL));
    v.push(rec(0xA9C7, 0xA9C9, BA));
    v.push(rec(0xA9CA, 0xA9CD, AL));
    v.push(rec(0xA9CF, 0xA9CF, AL));
    v.push(rec(0xA9D0, 0xA9D9, NU));
    v.push(rec(0xA9DE, 0xA9DF, AL));
    v.push(rec(0xA9E0, 0xA9EF, SA));
    v.push(rec(0xA9F0, 0xA9F9, NU));
    v.push(rec(0xA9FA, 0xA9FE, SA));
    v.push(rec(0xAA00, 0xAA28, AL));
    v.push(rec(0xAA29, 0xAA36, CM));
    v.push(rec(0xAA40, 0xAA42, AL));
    v.push(rec(0xAA43, 0xAA43, CM));
    v.push(rec(0xAA44, 0xAA4B, AL));
    v.push(rec(0xAA4C, 0xAA4D, CM));
    v.push(rec(0xAA50, 0xAA59, NU));
    v.push(rec(0xAA5C, 0xAA5C, AL));
    v.push(rec(0xAA5D, 0xAA5F, BA));
    v.push(rec(0xAA60, 0xAAC2, SA));
    v.push(rec(0xAADB, 0xAADF, SA));
    v.push(rec(0xAAE0, 0xAAEA, AL));
    v.push(rec(0xAAEB, 0xAAEF, CM));
    v.push(rec(0xAAF0, 0xAAF1, BA));
    v.push(rec(0xAAF2, 0xAAF4, AL));
    v.push(rec(0xAAF5, 0xAAF6, CM));
    v.push(rec(0xAB01, 0xAB06, AL));
    v.push(rec(0xAB09, 0xAB0E, AL));
    v.push(rec(0xAB11, 0xAB16, AL));
    v.push(rec(0xAB20, 0xAB26, AL));
    v.push(rec(0xAB28, 0xAB2E, AL));
    v.push(rec(0xAB30, 0xAB6B, AL));
    proof {
        assert(v@ =~= old(v)@ + records_part24());
    }
}

/// Append the records of [`records_part25`].
#[verifier::rlimit(100)]
#[verifier::spinoff_prover]
fn push_part25(v: &mut Vec<Record>)
    ensures
        final(v)@ == old(v)@ + records_part25(),
{
    v.push(rec(0xAB70, 0xABE2, AL));
    v.push(rec(0xABE3, 0xABEA, CM));
    v.push(rec(0xABEB, 0xABEB, BA));
    v.push(rec(0xABEC, 0xABED, CM));
    v.push(rec(0xABF0, 0xABF9, NU));
    v.push(rec(0xAC00, 0xAC00, H2));
    v.push(rec(0xAC01, 0xAC1B, H3));
    v.push(rec(0xAC1C, 0xAC1C, H2));
    v.push(rec(0xAC1D, 0xAC37, H3));
    v.push(rec(0xAC38, 0xAC38, H2));
    v.push(rec(0xAC39, 0xAC53, H3));
    v.push(rec(0xAC54, 0xAC54, H2));
    v.push(rec(0xAC55, 0xAC6F, H3));
    v.push(rec(0xAC70, 0xAC70, H2));
    v.push(rec(0xAC71, 0xAC8B, H3));
    v.push(rec(0xAC8C, 0xAC8C, H2));
    v.push(rec(0xAC8D, 0xACA7, H3));
    v.push(rec(0xACA8, 0xACA8, H2));
    v.push(rec(0xACA9, 0xACC3, H3));
    v.push(rec(0xACC4, 0xACC4, H2));
    v.push(rec(0xACC5, 0xACDF, H3));
    v.push(rec(0xACE0, 0xACE0, H2));
    v.push(rec(0xACE1, 0xACFB, H3));
    v.push(rec(0xACFC, 0xACFC, H2));
    v.push(rec(0xACFD, 0xAD17, H3));
    v.push(rec(0xAD18, 0xAD18, H2));
    v.push(rec(0xAD19, 0xAD33, H3));
    v.push(rec(0xAD34, 0xAD34, H2));
    v.push(rec(0xAD35, 0xAD4F, H3));
    v.push(rec(0xAD50, 0xAD50, H2));
    v.push(rec(0xAD51, 0xAD6B, H3));
    v.push(rec(0xAD6C, 0xAD6C, H2));
    v.push(rec(0xAD6D, 0xAD87, H3));
    v.push(rec(0xAD88, 0xAD88, H2));
    v.push(rec(0xAD89, 0xADA3, H3));
    v.push(rec(0xADA4, 0xADA4, H2));
    v.push(rec(0xADA5, 0xADBF, H3));
    v.push(rec(0xADC0, 0xADC0, H2));
    v.push(rec(0xADC1, 0xADDB, H3));
    v.push(rec(0xADDC, 0xADDC, H2));
    v.push(rec(0xADDD, 0xADF7, H3));
    v.push(rec(0xADF8, 0xADF8, H2));
    v.push(rec(0xADF9, 0xAE13, H3));
    v.push(rec(0xAE14, 0xAE14, H2));
    v.push(rec(0xAE15, 0xAE2F, H3));
    v.push(rec(0xAE30, 0xAE30, H2));
    v.push(rec(0xAE31, 0xAE4B, H3));
    v.push(rec(0xAE4C, 0xAE4C, H2));
    v.push(rec(0xAE4D, 0xAE67, H3));
    v.push(rec(0xAE68, 0xAE68, H2));
    proof {
        assert(v@ =~= old(v)@ + records_part25());
    }
}

/// Append the records of [`records_part26`].
#[verifier::rlimit(100)]
#[verifier::spinoff_prover]
fn push_part26(v: &mut Vec<Record>)
    ensures
        final(v)@ == old(v)@ + records_part26(),
{
    v.push(rec(0xAE69, 0xAE83, H3));
    v.push(rec(0xAE84, 0xAE84, H2));
    v.push(rec(0xAE85, 0xAE9F, H3));
    v.push(rec(0xAEA0, 0xAEA0, H2));
    v.push(rec(0xAEA1, 0xAEBB, H3));
    v.push(rec(0xAEBC, 0xAEBC, H2));
    v.push(rec(0xAEBD, 0xAED7, H3));
    v.push(rec(0xAED8, 0xAED8, H2));
    v.push(rec(0xAED9, 0xAEF3, H3));
    v.push(rec(0xAEF4, 0xAEF4, H2));
    v.push(rec(0xAEF5, 0xAF0F, H3));
    v.push(rec(0xAF10, 0xAF10, H2));
    v.push(rec(0xAF11, 0xAF2B, H3));
    v.push(rec(0xAF2C, 0xAF2C, H2));
    v.push(rec(0xAF2D, 0xAF47, H3));
    v.push(rec(0xAF48, 0xAF48, H2));
    v.push(rec(0xAF49, 0xAF63, H3));
    v.push(rec(0xAF64, 0xAF64, H2));
    v.push(rec(0xAF65, 0xAF7F, H3));
    v.push(rec(0xAF80, 0xAF80, H2));
    v.push(rec(0xAF81, 0xAF9B, H3));
    v.push(rec(0xAF9C, 0xAF9C, H2));
    v.push(rec(0xAF9D, 0xAFB7, H3));
    v.push(rec(0xAFB8, 0xAFB8, H2));
    v.push(rec(0xAFB9, 0xAFD3, H3));
    v.push(rec(0xAFD4, 0xAFD4, H2));
    v.push(rec(0xAFD5, 0xAFEF, H3));
    v.push(rec(0xAFF0, 0xAFF0, H2));
    v.push(rec(0xAFF1, 0xB00B, H3));
    v.push(rec(0xB00C, 0xB00C, H2));
    v.push(rec(0xB00D, 0xB027, H3));
    v.push(rec(0xB028, 0xB028, H2));
    v.push(rec(0xB029, 0xB043, H3));
    v.push(rec(0xB044, 0xB044, H2));
    v.push(rec(0xB045, 0xB05F, H3));
    v.push(rec(0xB060, 0xB060, H2));
    v.push(rec(0xB061, 0xB07B, H3));
    v.push(rec(0xB07C, 0xB07C, H2));
    v.push(rec(0xB07D, 0xB097, H3));
    v.push(rec(0xB098, 0xB098, H2));
    v.push(rec(0xB099, 0xB0B3, H3));
    v.push(rec(0xB0B4, 0xB0B4, H2));
    v.push(rec(0xB0B5, 0xB0CF, H3));
    v.push(rec(0xB0D0, 0xB0D0, H2));
    v.push(rec(0xB0D1, 0xB0EB, H3));
    v.push(rec(0xB0EC, 0xB0EC, H2));
    v.push(rec(0xB0ED, 0xB107, H3));
    v.push(rec(0xB108, 0xB108, H2));
    v.push(rec(0xB109, 0xB123, H3));
    v.push(rec(0xB124, 0xB124, H2));
    proof {
        assert(v@ =~= old(v)@ + records_part26());
    }
}

/// Append the records of [`records_part27`].
#[verifier::rlimit(100)]
#[verifier::spinoff_prover]
fn push_part27(v: &mut Vec<Record>)
    ensures
        final(v)@ == old(v)@ + records_part27(),
{
    v.push(rec(0xB125, 0xB13F, H3));
    v.push(rec(0xB140, 0xB140, H2));
    v.push(rec(0xB141, 0xB15B, H3));
    v.push(rec(0xB15C, 0xB15C, H2));
    v.push(rec(0xB15D, 0xB177, H3));
    v.push(rec(0xB178, 0xB178, H2));
    v.push(rec(0xB179, 0xB193, H3));
    v.push(rec(0xB194, 0xB194, H2));
    v.push(rec(0xB195, 0xB1AF, H3));
    v.push(rec(0xB1B0, 0xB1B0, H2));
    v.push(rec(0xB1B1, 0xB1CB, H3));
    v.push(rec(0xB1CC, 0xB1CC, H2));
    v.push(rec(0xB1CD, 0xB1E7, H3));
    v.push(rec(0xB1E8, 0xB1E8, H2));
    v.push(rec(0xB1E9, 0xB203, H3));
    v.push(rec(0xB204, 0xB204, H2));
    v.push(rec(0xB205, 0xB21F, H3));
    v.push(rec(0xB220, 0xB220, H2));
    v.push(rec(0xB221, 0xB23B, H3));
    v.push(rec(0xB23C, 0xB23C, H2));
    v.push(rec(0xB23D, 0xB257, H3));
    v.push(rec(0xB258, 0xB258, H2));
    v.push(rec(0xB259, 0xB273, H3));
    v.push(rec(0xB274, 0xB274, H2));
    v.push(rec(0xB275, 0xB28F, H3));
    v.push(rec(0xB290, 0xB290, H2));
    v.push(rec(0xB291, 0xB2AB, H3));
    v.push(rec(0xB2AC, 0xB2AC, H2));
    v.push(rec(0xB2AD, 0xB2C7, H3));
    v.push(rec(0xB2C8, 0xB2C8, H2));
    v.push(rec(0xB2C9, 0xB2E3, H3));
    v.push(rec(0xB2E4, 0xB2E4, H2));
    v.push(rec(0xB2E5, 0xB2FF, H3));
    v.push(rec(0xB300, 0xB300, H2));
    v.push(rec(0xB301, 0xB31B, H3));
    v.push(rec(0xB31C, 0xB31C, H2));
    v.push(rec(0xB31D, 0xB337, H3));
    v.push(rec(0xB338, 0xB338, H2));
    v.push(rec(0xB339, 0xB353, H3));
    v.push(rec(0xB354, 0xB354, H2));
    v.push(rec(0xB355, 0xB36F, H3));
    v.push(rec(0xB370, 0xB370, H2));
    v.push(rec(0xB371, 0xB38B, H3));
    v.push(rec(0xB38C, 0xB38C, H2));
    v.push(rec(0xB38D, 0xB3A7, H3));
    v.push(rec(0xB3A8, 0xB3A8, H2));
    v.push(rec(0xB3A9, 0xB3C3, H3));
    v.push(rec(0xB3C4, 0xB3C4, H2));
    v.push(rec(0xB3C5, 0xB3DF, H3));
    v.push(rec(0xB3E0, 0xB3E0, H2));
    proof {
        assert(v@ =~= old(v)@ + records_part27());
    }
}

/// Append the records of [`records_part28`].
#[verifier::rlimit(100)]
#[verifier::spinoff_prover]
fn push_part28(v: &mut Vec<Record>)
    ensures
        final(v)@ == old(v)@ + records_part28(),
{
    v.push(rec(0xB3E1, 0xB3FB, H3));
    v.push(rec(0xB3FC, 0xB3FC, H2));
    v.push(rec(0xB3FD, 0xB417, H3));
    v.push(rec(0xB418, 0xB418, H2));
    v.push(rec(0xB419, 0xB433, H3));
    v.push(rec(0xB434, 0xB434, H2));
    v.push(rec(0xB435, 0xB44F, H3));
    v.push(rec(0xB450, 0xB450, H2));
    v.push(rec(0xB451, 0xB46B, H3));
    v.push(rec(0xB46C, 0xB46C, H2));
    v.push(rec(0xB46D, 0xB487, H3));
    v.push(rec(0xB488, 0xB488, H2));
    v.push(rec(0xB489, 0xB4A3, H3));
    v.push(rec(0xB4A4, 0xB4A4, H2));
    v.push(rec(0xB4A5, 0xB4BF, H3));
    v.push(rec(0xB4C0, 0xB4C0, H2));
    v.push(rec(0xB4C1, 0xB4DB, H3));
    v.push(rec(0xB4DC, 0xB4DC, H2));
    v.push(rec(0xB4DD, 0xB4F7, H3));
    v.push(rec(0xB4F8, 0xB4F8, H2));
    v.push(rec(0xB4F9, 0xB513, H3));
    v.push(rec(0xB514, 0xB514, H2));
    v.push(rec(0xB515, 0xB52F, H3));
    v.push(rec(0xB530, 0xB530, H2));
    v.push(rec(0xB531, 0xB54B, H3));
    v.push(rec(0xB54C, 0xB54C, H2));
    v.push(rec(0xB54D, 0xB567, H3));
    v.push(rec(0xB568, 0xB568, H2));
    v.push(rec(0xB569, 0xB583, H3));
    v.push(rec(0xB584, 0xB584, H2));
    v.push(rec(0xB585, 0xB59F, H3));
    v.push(rec(0xB5A0, 0xB5A0, H2));
    v.push(rec(0xB5A1, 0xB5BB, H3));
    v.push(rec(0xB5BC, 0xB5BC, H2));
    v.push(rec(0xB5BD, 0xB5D7, H3));
    v.push(rec(0xB5D8, 0xB5D8, H2));
    v.push(rec(0xB5D9, 0xB5F3, H3));
    v.push(rec(0xB5F4, 0xB5F4, H2));
    v.push(rec(0xB5F5, 0xB60F, H3));
    v.push(rec(0xB610, 0xB610, H2));
    v.push(rec(0xB611, 0xB62B, H3));
    v.push(rec(0xB62C, 0xB62C, H2));
    v.push(rec(0xB62D, 0xB647, H3));
    v.push(rec(0xB648, 0xB648, H2));
    v.push(rec(0xB649, 0xB663, H3));
    v.push(rec(0xB664, 0xB664, H2));
    v.push(rec(0xB665, 0xB67F, H3));
    v.push(rec(0xB680, 0xB680, H2));
    v.push(rec(0xB681, 0xB69B, H3));
    v.push(rec(0xB69C, 0xB69C, H2));
    proof {
        assert(v@ =~= old(v)@ + records_part28());
    }
}

/// Append the records of [`records_part29`].
#[verifier::rlimit(100)]
#[verifier::spinoff_prover]
fn push_part29(v: &mut Vec<Record>)
    ensures
        final(v)@ == old(v)@ + records_part29(),
{
    v.push(rec(0xB69D, 0xB6B7, H3));
    v.push(rec(0xB6B8, 0xB6B8, H2));
    v.push(rec(0xB6B9, 0xB6D3, H3));
    v.push(rec(0xB6D4, 0xB6D4, H2));
    v.push(rec(0xB6D5, 0xB6EF, H3));
    v.push(rec(0xB6F0, 0xB6F0, H2));
    v.push(rec(0xB6F1, 0xB70B, H3));
    v.push(rec(0xB70C, 0xB70C, H2));
    v.push(rec(0xB70D, 0xB727, H3));
    v.push(rec(0xB728, 0xB728, H2));
    v.push(rec(0xB729, 0xB743, H3));
    v.push(rec(0xB744, 0xB744, H2));
    v.push(rec(0xB745, 0xB75F, H3));
    v.push(rec(0xB760, 0xB760, H2));
    v.push(rec(0xB761, 0xB77B, H3));
    v.push(rec(0xB77C, 0xB77C, H2));
    v.push(rec(0xB77D, 0xB797, H3));
    v.push(rec(0xB798, 0xB798, H2));
    v.push(rec(0xB799, 0xB7B3, H3));
    v.push(rec(0xB7B4, 0xB7B4, H2));
    v.push(rec(0xB7B5, 0xB7CF, H3));
    v.push(rec(0xB7D0, 0xB7D0, H2));
    v.push(rec(0xB7D1, 0xB7EB, H3));
    v.push(rec(0xB7EC, 0xB7EC, H2));
    v.push(rec(0xB7ED, 0xB807, H3));
    v.push(rec(0xB808, 0xB808, H2));
    v.push(rec(0xB809, 0xB823, H3));
    v.push(rec(0xB824, 0xB824, H2));
    v.push(rec(0xB825, 0xB83F, H3));
    v.push(rec(0xB840, 0xB840, H2));
    v.push(rec(0xB841, 0xB85B, H3));
    v.push(rec(0xB85C, 0xB85C, H2));
    v.push(rec(0xB85D, 0xB877, H3));
    v.push(rec(0xB878, 0xB878, H2));
    v.push(rec(0xB879, 0xB893, H3));
    v.push(rec(0xB894, 0xB894, H2));
    v.push(rec(0xB895, 0xB8AF, H3));
    v.push(rec(0xB8B0, 0xB8B0, H2));
    v.push(rec(0xB8B1, 0xB8CB, H3));
    v.push(rec(0xB8CC, 0xB8CC, H2));
    v.push(rec(0xB8CD, 0xB8E7, H3));
    v.push(rec(0xB8E8, 0xB8E8, H2));
    v.push(rec(0xB8E9, 0xB903, H3));
    v.push(rec(0xB904, 0xB904, H2));
    v.push(rec(0xB905, 0xB91F, H3));
    v.push(rec(0xB920, 0xB920, H2));
    v.push(rec(0xB921, 0xB93B, H3));
    v.push(rec(0xB93C, 0xB93C, H2));
    v.push(rec(0xB93D, 0xB957, H3));
    v.push(rec(0xB958, 0xB958, H2));
    proof {
        assert(v@ =~= old(v)@ + records_part29());
    }
}

/// Append the records of [`records_part30`].
#[verifier::rlimit(100)]
#[verifier::spinoff_prover]
fn push_part30(v: &mut Vec<Record>)
    ensures
        final(v)@ == old(v)@ + records_part30(),
{
    v.push(rec(0xB959, 0xB973, H3));
    v.push(rec(0xB974, 0xB974, H2));
    v.push(rec(0xB975, 0xB98F, H3));
    v.push(rec(0xB990, 0xB990, H2));
    v.push(rec(0xB991, 0xB9AB, H3));
    v.push(rec(0xB9AC, 0xB9AC, H2));
    v.push(rec(0xB9AD, 0xB9C7, H3));
    v.push(rec(0xB9C8, 0xB9C8, H2));
    v.push(rec(0xB9C9, 0xB9E3, H3));
    v.push(rec(0xB9E4, 0xB9E4, H2));
    v.push(rec(0xB9E5, 0xB9FF, H3));
    v.push(rec(0xBA00, 0xBA00, H2));
    v.push(rec(0xBA01, 0xBA1B, H3));
    v.push(rec(0xBA1C, 0xBA1C, H2));
    v.push(rec(0xBA1D, 0xBA37, H3));
    v.push(rec(0xBA38, 0xBA38, H2));
    v.push(rec(0xBA39, 0xBA53, H3));
    v.push(rec(0xBA54, 0xBA54, H2));
    v.push(rec(0xBA55, 0xBA6F, H3));
    v.push(rec(0xBA70, 0xBA70, H2));
    v.push(rec(0xBA71, 0xBA8B, H3));
    v.push(rec(0xBA8C, 0xBA8C, H2));
    v.push(rec(0xBA8D, 0xBAA7, H3));
    v.push(rec(0xBAA8, 0xBAA8, H2));
    v.push(rec(0xBAA9, 0xBAC3, H3));
    v.push(rec(0xBAC4, 0xBAC4, H2));
    v.push(rec(0xBAC5, 0xBADF, H3));
    v.push(rec(0xBAE0, 0xBAE0, H2));
    v.push(rec(0xBAE1, 0xBAFB, H3));
    v.push(rec(0xBAFC, 0xBAFC, H2));
    v.push(rec(0xBAFD, 0xBB17, H3));
    v.push(rec(0xBB18, 0xBB18, H2));
    v.push(rec(0xBB19, 0xBB33, H3));
    v.push(rec(0xBB34, 0xBB34, H2));
    v.push(rec(0xBB35, 0xBB4F, H3));
    v.push(rec(0xBB50, 0xBB50, H2));
    v.push(rec(0xBB51, 0xBB6B, H3));
    v.push(rec(0xBB6C, 0xBB6C, H2));
    v.push(rec(0xBB6D, 0xBB87, H3));
    v.push(rec(0xBB88, 0xBB88, H2));
    v.push(rec(0xBB89, 0xBBA3, H3));
    v.push(rec(0xBBA4, 0xBBA4, H2));
    v.push(rec(0xBBA5, 0xBBBF, H3));
    v.push(rec(0xBBC0, 0xBBC0, H2));
    v.push(rec(0xBBC1, 0xBBDB, H3));
    v.push(rec(0xBBDC, 0xBBDC, H2));
    v.push(rec(0xBBDD, 0xBBF7, H3));
    v.push(rec(0xBBF8, 0xBBF8, H2));
    v.push(rec(0xBBF9, 0xBC13, H3));
    v.push(rec(0xBC14, 0xBC14, H2));
    proof {
        assert(v@ =~= old(v)@ + records_part30());
    }
}

/// Append the records of [`records_part31`].
#[verifier::rlimit(100)]
#[verifier::spinoff_prover]
fn push_part31(v: &mut Vec<Record>)
    ensures
        final(v)@ == old(v)@ + records_part31(),
{
    v.push(rec(0xBC15, 0xBC2F, H3));
    v.push(rec(0xBC30, 0xBC30, H2));
    v.push(rec(0xBC31, 0xBC4B, H3));
    v.push(rec(0xBC4C, 0xBC4C, H2));
    v.push(rec(0xBC4D, 0xBC67, H3));
    v.push(rec(0xBC68, 0xBC68, H2));
    v.push(rec(0xBC69, 0xBC83, H3));
    v.push(rec(0xBC84, 0xBC84, H2));
    v.push(rec(0xBC85, 0xBC9F, H3));
    v.push(rec(0xBCA0, 0xBCA0, H2));
    v.push(rec(0xBCA1, 0xBCBB, H3));
    v.push(rec(0xBCBC, 0xBCBC, H2));
    v.push(rec(0xBCBD, 0xBCD7, H3));
    v.push(rec(0xBCD8, 0xBCD8, H2));
    v.push(rec(0xBCD9, 0xBCF3, H3));
    v.push(rec(0xBCF4, 0xBCF4, H2));
    v.push(rec(0xBCF5, 0xBD0F, H3));
    v.push(rec(0xBD10, 0xBD10, H2));
    v.push(rec(0xBD11, 0xBD2B, H3));
    v.push(rec(0xBD2C, 0xBD2C, H2));
    v.push(rec(0xBD2D, 0xBD47, H3));
    v.push(rec(0xBD48, 0xBD48, H2));
    v.push(rec(0xBD49, 0xBD63, H3));
    v.push(rec(0xBD64, 0xBD64, H2));
    v.push(rec(0xBD65, 0xBD7F, H3));
    v.push(rec(0xBD80, 0xBD80, H2));
    v.push(rec(0xBD81, 0xBD9B, H3));
    v.push(rec(0xBD9C, 0xBD9C, H2));
    v.push(rec(0xBD9D, 0xBDB7, H3));
    v.push(rec(0xBDB8, 0xBDB8, H2));
    v.push(rec(0xBDB9, 0xBDD3, H3));
    v.push(rec(0xBDD4, 0xBDD4, H2));
    v.push(rec(0xBDD5, 0xBDEF, H3));
    v.push(rec(0xBDF0, 0xBDF0, H2));
    v.push(rec(0xBDF1, 0xBE0B, H3));
    v.push(rec(0xBE0C, 0xBE0C, H2));
    v.push(rec(0xBE0D, 0xBE27, H3));
    v.push(rec(0xBE28, 0xBE28, H2));
    v.push(rec(0xBE29, 0xBE43, H3));
    v.push(rec(0xBE44, 0xBE44, H2));
    v.push(rec(0xBE45, 0xBE5F, H3));
    v.push(rec(0xBE60, 0xBE60, H2));
    v.push(rec(0xBE61, 0xBE7B, H3));
    v.push(rec(0xBE7C, 0xBE7C, H2));
    v.push(rec(0xBE7D, 0xBE97, H3));
    v.push(rec(0xBE98, 0xBE98, H2));
    v.push(rec(0xBE99, 0xBEB3, H3));
    v.push(rec(0xBEB4, 0xBEB4, H2));
    v.push(rec(0xBEB5, 0xBECF, H3));
    v.push(rec(0xBED0, 0xBED0, H2));
    proof {
        assert(v@ =~= old(v)@ + records_part31());
    }
}

/// Append the records of [`records_part32`].
#[verifier::rlimit(100)]
#[verifier::spinoff_prover]
fn push_part32(v: &mut Vec<Record>)
    ensures
        final(v)@ == old(v)@ + records_part32(),
{
    v.push(rec(0xBED1, 0xBEEB, H3));
    v.push(rec(0xBEEC, 0xBEEC, H2));
    v.push(rec(0xBEED, 0xBF07, H3));
    v.push(rec(0xBF08, 0xBF08, H2));
    v.push(rec(0xBF09, 0xBF23, H3));
    v.push(rec(0xBF24, 0xBF24, H2));
    v.push(rec(0xBF25, 0xBF3F, H3));
    v.push(rec(0xBF40, 0xBF40, H2));
    v.push(rec(0xBF41, 0xBF5B, H3));
    v.push(rec(0xBF5C, 0xBF5C, H2));
    v.push(rec(0xBF5D, 0xBF77, H3));
    v.push(rec(0xBF78, 0xBF78, H2));
    v.push(rec(0xBF79, 0xBF93, H3));
    v.push(rec(0xBF94, 0xBF94, H2));
    v.push(rec(0xBF95, 0xBFAF, H3));
    v.push(rec(0xBFB0, 0xBFB0, H2));
    v.push(rec(0xBFB1, 0xBFCB, H3));
    v.push(rec(0xBFCC, 0xBFCC, H2));
    v.push(rec(0xBFCD, 0xBFE7, H3));
    v.push(rec(0xBFE8, 0xBFE8, H2));
    v.push(rec(0xBFE9, 0xC003, H3));
    v.push(rec(0xC004, 0xC004, H2));
    v.push(rec(0xC005, 0xC01F, H3));
    v.push(rec(0xC020, 0xC020, H2));
    v.push(rec(0xC021, 0xC03B, H3));
    v.push(rec(0xC03C, 0xC03C, H2));
    v.push(rec(0xC03D, 0xC057, H3));
    v.push(rec(0xC058, 0xC058, H2));
    v.push(rec(0xC059, 0xC073, H3));
    v.push(rec(0xC074, 0xC074, H2));
    v.push(rec(0xC075, 0xC08F, H3));
    v.push(rec(0xC090, 0xC090, H2));
    v.push(rec(0xC091, 0xC0AB, H3));
    v.push(rec(0xC0AC, 0xC0AC, H2));
    v.push(rec(0xC0AD, 0xC0C7, H3));
    v.push(rec(0xC0C8, 0xC0C8, H2));
    v.push(rec(0xC0C9, 0xC0E3, H3));
    v.push(rec(0xC0E4, 0xC0E4, H2));
    v.push(rec(0xC0E5, 0xC0FF, H3));
    v.push(rec(0xC100, 0xC100, H2));
    v.push(rec(0xC101, 0xC11B, H3));
    v.push(rec(0xC11C, 0xC11C, H2));
    v.push(rec(0xC11D, 0xC137, H3));
    v.push(rec(0xC138, 0xC138, H2));
    v.push(rec(0xC139, 0xC153, H3));
    v.push(rec(0xC154, 0xC154, H2));
    v.push(rec(0xC155, 0xC16F, H3));
    v.push(rec(0xC170, 0xC170, H2));
    v.push(rec(0xC171, 0xC18B, H3));
    v.push(rec(0xC18C, 0xC18C, H2));
    proof {
        assert(v@ =~= old(v)@ + records_part32());
    }
}

/// Append the records of [`records_part33`].
#[verifier::rlimit(100)]
#[verifier::spinoff_prover]
fn push_part33(v: &mut Vec<Record>)
    ensures
        final(v)@ == old(v)@ + records_part33(),
{
    v.push(rec(0xC18D, 0xC1A7, H3));
    v.push(rec(0xC1A8, 0xC1A8, H2));
    v.push(rec(0xC1A9, 0xC1C3, H3));
    v.push(rec(0xC1C4, 0xC1C4, H2));
    v.push(rec(0xC1C5, 0xC1DF, H3));
    v.push(rec(0xC1E0, 0xC1E0, H2));
    v.push(rec(0xC1E1, 0xC1FB, H3));
    v.push(rec(0xC1FC, 0xC1FC, H2));
    v.push(rec(0xC1FD, 0xC217, H3));
    v.push(rec(0xC218, 0xC218, H2));
    v.push(rec(0xC219, 0xC233, H3));
    v.push(rec(0xC234, 0xC234, H2));
    v.push(rec(0xC235, 0xC24F, H3));
    v.push(rec(0xC250, 0xC250, H2));
    v.push(rec(0xC251, 0xC26B, H3));
    v.push(rec(0xC26C, 0xC26C, H2));
    v.push(rec(0xC26D, 0xC287, H3));
    v.push(rec(0xC288, 0xC288, H2));
    v.push(rec(0xC289, 0xC2A3, H3));
    v.push(rec(0xC2A4, 0xC2A4, H2));
    v.push(rec(0xC2A5, 0xC2BF, H3));
    v.push(rec(0xC2C0, 0xC2C0, H2));
    v.push(rec(0xC2C1, 0xC2DB, H3));
    v.push(rec(0xC2DC, 0xC2DC, H2));
    v.push(rec(0xC2DD, 0xC2F7, H3));
    v.push(rec(0xC2F8, 0xC2F8, H2));
    v.push(rec(0xC2F9, 0xC313, H3));
    v.push(rec(0xC314, 0xC314, H2));
    v.push(rec(0xC315, 0xC32F, H3));
    v.push(rec(0xC330, 0xC330, H2));
    v.push(rec(0xC331, 0xC34B, H3));
    v.push(rec(0xC34C, 0xC34C, H2));
    v.push(rec(0xC34D, 0xC367, H3));
    v.push(rec(0xC368, 0xC368, H2));
    v.push(rec(0xC369, 0xC383, H3));
    v.push(rec(0xC384, 0xC384, H2));
    v.push(rec(0xC385, 0xC39F, H3));
    v.push(rec(0xC3A0, 0xC3A0, H2));
    v.push(rec(0xC3A1, 0xC3BB, H3));
    v.push(rec(0xC3BC, 0xC3BC, H2));
    v.push(rec(0xC3BD, 0xC3D7, H3));
    v.push(rec(0xC3D8, 0xC3D8, H2));
    v.push(rec(0xC3D9, 0xC3F3, H3));
    v.push(rec(0xC3F4, 0xC3F4, H2));
    v.push(rec(0xC3F5, 0xC40F, H3));
    v.push(rec(0xC410, 0xC410, H2));
    v.push(rec(0xC411, 0xC42B, H3));
    v.push(rec(0xC42C, 0xC42C, H2));
    v.push(rec(0xC42D, 0xC447, H3));
    v.push(rec(0xC448, 0xC448, H2));
    proof {
        assert(v@ =~= old(v)@ + records_part33());
    }
}

/// Append the records of [`records_part34`].
#[verifier::rlimit(100)]
#[verifier::spinoff_prover]
fn push_part34(v: &mut Vec<Record>)
    ensures
        final(v)@ == old(v)@ + records_part34(),
{
    v.push(rec(0xC449, 0xC463, H3));
    v.push(rec(0xC464, 0xC464, H2));
    v.push(rec(0xC465, 0xC47F, H3));
    v.push(rec(0xC480, 0xC480, H2));
    v.push(rec(0xC481, 0xC49B, H3));
    v.push(rec(0xC49C, 0xC49C, H2));
    v.push(rec(0xC49D, 0xC4B7, H3));
    v.push(rec(0xC4B8, 0xC4B8, H2));
    v.push(rec(0xC4B9, 0xC4D3, H3));
    v.push(rec(0xC4D4, 0xC4D4, H2));
    v.push(rec(0xC4D5, 0xC4EF, H3));
    v.push(rec(0xC4F0, 0xC4F0, H2));
    v.push(rec(0xC4F1, 0xC50B, H3));
    v.push(rec(0xC50C, 0xC50C, H2));
    v.push(rec(0xC50D, 0xC527, H3));
    v.push(rec(0xC528, 0xC528, H2));
    v.push(rec(0xC529, 0xC543, H3));
    v.push(rec(0xC544, 0xC544, H2));
    v.push(rec(0xC545, 0xC55F, H3));
    v.push(rec(0xC560, 0xC560, H2));
    v.push(rec(0xC561, 0xC57B, H3));
    v.push(rec(0xC57C, 0xC57C, H2));
    v.push(rec(0xC57D, 0xC597, H3));
    v.push(rec(0xC598, 0xC598, H2));
    v.push(rec(0xC599, 0xC5B3, H3));
    v.push(rec(0xC5B4, 0xC5B4, H2));
    v.push(rec(0xC5B5, 0xC5CF, H3));
    v.push(rec(0xC5D0, 0xC5D0, H2));
    v.push(rec(0xC5D1, 0xC5EB, H3));
    v.push(rec(0xC5EC, 0xC5EC, H2));
    v.push(rec(0xC5ED, 0xC607, H3));
    v.push(rec(0xC608, 0xC608, H2));
    v.push(rec(0xC609, 0xC623, H3));
    v.push(rec(0xC624, 0xC624, H2));
    v.push(rec(0xC625, 0xC63F, H3));
    v.push(rec(0xC640, 0xC640, H2));
    v.push(rec(0xC641, 0xC65B, H3));
    v.push(rec(0xC65C, 0xC65C, H2));
    v.push(rec(0xC65D, 0xC677, H3));
    v.push(rec(0xC678, 0xC678, H2));
    v.push(rec(0xC679, 0xC693, H3));
    v.push(rec(0xC694, 0xC694, H2));
    v.push(rec(0xC695, 0xC6AF, H3));
    v.push(rec(0xC6B0, 0xC6B0, H2));
    v.push(rec(0xC6B1, 0xC6CB, H3));
    v.push(rec(0xC6CC, 0xC6CC, H2));
    v.push(rec(0xC6CD, 0xC6E7, H3));
    v.push(rec(0xC6E8, 0xC6E8, H2));
    v.push(rec(0xC6E9, 0xC703, H3));
    v.push(rec(0xC704, 0xC704, H2));
    proof {
        assert(v@ =~= old(v)@ + records_part34());
    }
}

/// Append the records of [`records_part35`].
#[verifier::rlimit(100)]
#[verifier::spinoff_prover]
fn push_part35(v: &mut Vec<Record>)
    ensures
        final(v)@ == old(v)@ + records_part35(),
{
    v.push(rec(0xC705, 0xC71F, H3));
    v.push(rec(0xC720, 0xC720, H2));
    v.push(rec(0xC721, 0xC73B, H3));
    v.push(rec(0xC73C, 0xC73C, H2));
    v.push(rec(0xC73D, 0xC757, H3));
    v.push(rec(0xC758, 0xC758, H2));
    v.push(rec(0xC759, 0xC773, H3));
    v.push(rec(0xC774, 0xC774, H2));
    v.push(rec(0xC775, 0xC78F, H3));
    v.push(rec(0xC790, 0xC790, H2));
    v.push(rec(0xC791, 0xC7AB, H3));
    v.push(rec(0xC7AC, 0xC7AC, H2));
    v.push(rec(0xC7AD, 0xC7C7, H3));
    v.push(rec(0xC7C8, 0xC7C8, H2));
    v.push(rec(0xC7C9, 0xC7E3, H3));
    v.push(rec(0xC7E4, 0xC7E4, H2));
    v.push(rec(0xC7E5, 0xC7FF, H3));
    v.push(rec(0xC800, 0xC800, H2));
    v.push(rec(0xC801, 0xC81B, H3));
    v.push(rec(0xC81C, 0xC81C, H2));
    v.push(rec(0xC81D, 0xC837, H3));
    v.push(rec(0xC838, 0xC838, H2));
    v.push(rec(0xC839, 0xC853, H3));
    v.push(rec(0xC854, 0xC854, H2));
    v.push(rec(0xC855, 0xC86F, H3));
    v.push(rec(0xC870, 0xC870, H2));
    v.push(rec(0xC871, 0xC88B, H3));
    v.push(rec(0xC88C, 0xC88C, H2));
    v.push(rec(0xC88D, 0xC8A7, H3));
    v.push(rec(0xC8A8, 0xC8A8, H2));
    v.push(rec(0xC8A9, 0xC8C3, H3));
    v.push(rec(0xC8C4, 0xC8C4, H2));
    v.push(rec(0xC8C5, 0xC8DF, H3));
    v.push(rec(0xC8E0, 0xC8E0, H2));
    v.push(rec(0xC8E1, 0xC8FB, H3));
    v.push(rec(0xC8FC, 0xC8FC, H2));
    v.push(rec(0xC8FD, 0xC917, H3));
    v.push(rec(0xC918, 0xC918, H2));
    v.push(rec(0xC919, 0xC933, H3));
    v.push(rec(0xC934, 0xC934, H2));
    v.push(rec(0xC935, 0xC94F, H3));
    v.push(rec(0xC950, 0xC950, H2));
    v.push(rec(0xC951, 0xC96B, H3));
    v.push(rec(0xC96C, 0xC96C, H2));
    v.push(rec(0xC96D, 0xC987, H3));
    v.push(rec(0xC988, 0xC988, H2));
    v.push(rec(0xC989, 0xC9A3, H3));
    v.push(rec(0xC9A4, 0xC9A4, H2));
    v.push(rec(0xC9A5, 0xC9BF, H3));
    v.push(rec(0xC9C0, 0xC9C0, H2));
    proof {
        assert(v@ =~= old(v)@ + records_part35());
    }
}

/// Append the records of [`records_part36`].
#[verifier::rlimit(100)]
#[verifier::spinoff_prover]
fn push_part36(v: &mut Vec<Record>)
    ensures
        final(v)@ == old(v)@ + records_part36(),
{
    v.push(rec(0xC9C1, 0xC9DB, H3));
    v.push(rec(0xC9DC, 0xC9DC, H2));
    v.push(rec(0xC9DD, 0xC9F7, H3));
    v.push(rec(0xC9F8, 0xC9F8, H2));
    v.push(rec(0xC9F9, 0xCA13, H3));
    v.push(rec(0xCA14, 0xCA14, H2));
    v.push(rec(0xCA15, 0xCA2F, H3));
    v.push(rec(0xCA30, 0xCA30, H2));
    v.push(rec(0xCA31, 0xCA4B, H3));
    v.push(rec(0xCA4C, 0xCA4C, H2));
    v.push(rec(0xCA4D, 0xCA67, H3));
    v.push(rec(0xCA68, 0xCA68, H2));
    v.push(rec(0xCA69, 0xCA83, H3));
    v.push(rec(0xCA84, 0xCA84, H2));
    v.push(rec(0xCA85, 0xCA9F, H3));
    v.push(rec(0xCAA0, 0xCAA0, H2));
    v.push(rec(0xCAA1, 0xCABB, H3));
    v.push(rec(0xCABC, 0xCABC, H2));
    v.push(rec(0xCABD, 0xCAD7, H3));
    v.push(rec(0xCAD8, 0xCAD8, H2));
    v.push(rec(0xCAD9, 0xCAF3, H3));
    v.push(rec(0xCAF4, 0xCAF4, H2));
    v.push(rec(0xCAF5, 0xCB0F, H3));
    v.push(rec(0xCB10, 0xCB10, H2));
    v.push(rec(0xCB11, 0xCB2B, H3));
    v.push(rec(0xCB2C, 0xCB2C, H2));
    v.push(rec(0xCB2D, 0xCB47, H3));
    v.push(rec(0xCB48, 0xCB48, H2));
    v.push(rec(0xCB49, 0xCB63, H3));
    v.push(rec(0xCB64, 0xCB64, H2));
    v.push(rec(0xCB65, 0xCB7F, H3));
    v.push(rec(0xCB80, 0xCB80, H2));
    v.push(rec(0xCB81, 0xCB9B, H3));
    v.push(rec(0xCB9C, 0xCB9C, H2));
    v.push(rec(0xCB9D, 0xCBB7, H3));
    v.push(rec(0xCBB8, 0xCBB8, H2));
    v.push(rec(0xCBB9, 0xCBD3, H3));
    v.push(rec(0xCBD4, 0xCBD4, H2));
    v.push(rec(0xCBD5, 0xCBEF, H3));
    v.push(rec(0xCBF0, 0xCBF0, H2));
    v.push(rec(0xCBF1, 0xCC0B, H3));
    v.push(rec(0xCC0C, 0xCC0C, H2));
    v.push(rec(0xCC0D, 0xCC27, H3));
    v.push(rec(0xCC28, 0xCC28, H2));
    v.push(rec(0xCC29, 0xCC43, H3));
    v.push(rec(0xCC44, 0xCC44, H2));
    v.push(rec(0xCC45, 0xCC5F, H3));
    v.push(rec(0xCC60, 0xCC60, H2));
    v.push(rec(0xCC61, 0xCC7B, H3));
    v.push(rec(0xCC7C, 0xCC7C, H2));
    proof {
        assert(v@ =~= old(v)@ + records_part36());
    }
}

/// Append the records of [`records_part37`].
#[verifier::rlimit(100)]
#[verifier::spinoff_prover]
fn push_part37(v: &mut Vec<Record>)
    ensures
        final(v)@ == old(v)@ + records_part37(),
{
    v.push(rec(0xCC7D, 0xCC97, H3));
    v.push(rec(0xCC98, 0xCC98, H2));
    v.push(rec(0xCC99, 0xCCB3, H3));
    v.push(rec(0xCCB4, 0xCCB4, H2));
    v.push(rec(0xCCB5, 0xCCCF, H3));
    v.push(rec(0xCCD0, 0xCCD0, H2));
    v.push(rec(0xCCD1, 0xCCEB, H3));
    v.push(rec(0xCCEC, 0xCCEC, H2));
    v.push(rec(0xCCED, 0xCD07, H3));
    v.push(rec(0xCD08, 0xCD08, H2));
    v.push(rec(0xCD09, 0xCD23, H3));
    v.push(rec(0xCD24, 0xCD24, H2));
    v.push(rec(0xCD25, 0xCD3F, H3));
    v.push(rec(0xCD40, 0xCD40, H2));
    v.push(rec(0xCD41, 0xCD5B, H3));
    v.push(rec(0xCD5C, 0xCD5C, H2));
    v.push(rec(0xCD5D, 0xCD77, H3));
    v.push(rec(0xCD78, 0xCD78, H2));
    v.push(rec(0xCD79, 0xCD93, H3));
    v.push(rec(0xCD94, 0xCD94, H2));
    v.push(rec(0xCD95, 0xCDAF, H3));
    v.push(rec(0xCDB0, 0xCDB0, H2));
    v.push(rec(0xCDB1, 0xCDCB, H3));
    v.push(rec(0xCDCC, 0xCDCC, H2));
    v.push(rec(0xCDCD, 0xCDE7, H3));
    v.push(rec(0xCDE8, 0xCDE8, H2));
    v.push(rec(0xCDE9, 0xCE03, H3));
    v.push(rec(0xCE04, 0xCE04, H2));
    v.push(rec(0xCE05, 0xCE1F, H3));
    v.push(rec(0xCE20, 0xCE20, H2));
    v.push(rec(0xCE21, 0xCE3B, H3));
    v.push(rec(0xCE3C, 0xCE3C, H2));
    v.push(rec(0xCE3D, 0xCE57, H3));
    v.push(rec(0xCE58, 0xCE58, H2));
    v.push(rec(0xCE59, 0xCE73, H3));
    v.push(rec(0xCE74, 0xCE74, H2));
    v.push(rec(0xCE75, 0xCE8F, H3));
    v.push(rec(0xCE90, 0xCE90, H2));
    v.push(rec(0xCE91, 0xCEAB, H3));
    v.push(rec(0xCEAC, 0xCEAC, H2));
    v.push(rec(0xCEAD, 0xCEC7, H3));
    v.push(rec(0xCEC8, 0xCEC8, H2));
    v.push(rec(0xCEC9, 0xCEE3, H3));
    v.push(rec(0xCEE4, 0xCEE4, H2));
    v.push(rec(0xCEE5, 0xCEFF, H3));
    v.push(rec(0xCF00, 0xCF00, H2));
    v.push(rec(0xCF01, 0xCF1B, H3));
    v.push(rec(0xCF1C, 0xCF1C, H2));
    v.push(rec(0xCF1D, 0xCF37, H3));
    v.push(rec(0xCF38, 0xCF38, H2));
    proof {
        assert(v@ =~= old(v)@ + records_part37());
    }
}

/// Append the records of [`records_part38`].
#[verifier::rlimit(100)]
#[verifier::spinoff_prover]
fn push_part38(v: &mut Vec<Record>)
    ensures
        final(v)@ == old(v)@ + records_part38(),
{
    v.push(rec(0xCF39, 0xCF53, H3));
    v.push(rec(0xCF54, 0xCF54, H2));
    v.push(rec(0xCF55, 0xCF6F, H3));
    v.push(rec(0xCF70, 0xCF70, H2));
    v.push(rec(0xCF71, 0xCF8B, H3));
    v.push(rec(0xCF8C, 0xCF8C, H2));
    v.push(rec(0xCF8D, 0xCFA7, H3));
    v.push(rec(0xCFA8, 0xCFA8, H2));
    v.push(rec(0xCFA9, 0xCFC3, H3));
    v.push(rec(0xCFC4, 0xCFC4, H2));
    v.push(rec(0xCFC5, 0xCFDF, H3));
    v.push(rec(0xCFE0, 0xCFE0, H2));
    v.push(rec(0xCFE1, 0xCFFB, H3));
    v.push(rec(0xCFFC, 0xCFFC, H2));
    v.push(rec(0xCFFD, 0xD017, H3));
    v.push(rec(0xD018, 0xD018, H2));
    v.push(rec(0xD019, 0xD033, H3));
    v.push(rec(0xD034, 0xD034, H2));
    v.push(rec(0xD035, 0xD04F, H3));
    v.push(rec(0xD050, 0xD050, H2));
    v.push(rec(0xD051, 0xD06B, H3));
    v.push(rec(0xD06C, 0xD06C, H2));
    v.push(rec(0xD06D, 0xD087, H3));
    v.push(rec(0xD088, 0xD088, H2));
    v.push(rec(0xD089, 0xD0A3, H3));
    v.push(rec(0xD0A4, 0xD0A4, H2));
    v.push(rec(0xD0A5, 0xD0BF, H3));
    v.push(rec(0xD0C0, 0xD0C0, H2));
    v.push(rec(0xD0C1, 0xD0DB, H3));
    v.push(rec(0xD0DC, 0xD0DC, H2));
    v.push(rec(0xD0DD, 0xD0F7, H3));
    v.push(rec(0xD0F8, 0xD0F8, H2));
    v.push(rec(0xD0F9, 0xD113, H3));
    v.push(rec(0xD114, 0xD114, H2));
    v.push(rec(0xD115, 0xD12F, H3));
    v.push(rec(0xD130, 0xD130, H2));
    v.push(rec(0xD131, 0xD14B, H3));
    v.push(rec(0xD14C, 0xD14C, H2));
    v.push(rec(0xD14D, 0xD167, H3));
    v.push(rec(0xD168, 0xD168, H2));
    v.push(rec(0xD169, 0xD183, H3));
    v.push(rec(0xD184, 0xD184, H2));
    v.push(rec(0xD185, 0xD19F, H3));
    v.push(rec(0xD1A0, 0xD1A0, H2));
    v.push(rec(0xD1A1, 0xD1BB, H3));
    v.push(rec(0xD1BC, 0xD1BC, H2));
    v.push(rec(0xD1BD, 0xD1D7, H3));
    v.push(rec(0xD1D8, 0xD1D8, H2));
    v.push(rec(0xD1D9, 0xD1F3, H3));
    v.push(rec(0xD1F4, 0xD1F4, H2));
    proof {
        assert(v@ =~= old(v)@ + records_part38());
    }
}

/// Append the records of [`records_part39`].
#[verifier::rlimit(100)]
#[verifier::spinoff_prover]
fn push_part39(v: &mut Vec<Record>)
    ensures
        final(v)@ == old(v)@ + records_part39(),
{
    v.push(rec(0xD1F5, 0xD20F, H3));
    v.push(rec(0xD210, 0xD210, H2));
    v.push(rec(0xD211, 0xD22B, H3));
    v.push(rec(0xD22C, 0xD22C, H2));
    v.push(rec(0xD22D, 0xD247, H3));
    v.push(rec(0xD248, 0xD248, H2));
    v.push(rec(0xD249, 0xD263, H3));
    v.push(rec(0xD264, 0xD264, H2));
    v.push(rec(0xD265, 0xD27F, H3));
    v.push(rec(0xD280, 0xD280, H2));
    v.push(rec(0xD281, 0xD29B, H3));
    v.push(rec(0xD29C, 0xD29C, H2));
    v.push(rec(0xD29D, 0xD2B7, H3));
    v.push(rec(0xD2B8, 0xD2B8, H2));
    v.push(rec(0xD2B9, 0xD2D3, H3));
    v.push(rec(0xD2D4, 0xD2D4, H2));
    v.push(rec(0xD2D5, 0xD2EF, H3));
    v.push(rec(0xD2F0, 0xD2F0, H2));
    v.push(rec(0xD2F1, 0xD30B, H3));
    v.push(rec(0xD30C, 0xD30C, H2));
    v.push(rec(0xD30D, 0xD327, H3));
    v.push(rec(0xD328, 0xD328, H2));
    v.push(rec(0xD329, 0xD343, H3));
    v.push(rec(0xD344, 0xD344, H2));
    v.push(rec(0xD345, 0xD35F, H3));
    v.push(rec(0xD360, 0xD360, H2));
    v.push(rec(0xD361, 0xD37B, H3));
    v.push(rec(0xD37C, 0xD37C, H2));
    v.push(rec(0xD37D, 0xD397, H3));
    v.push(rec(0xD398, 0xD398, H2));
    v.push(rec(0xD399, 0xD3B3, H3));
    v.push(rec(0xD3B4, 0xD3B4, H2));
    v.push(rec(0xD3B5, 0xD3CF, H3));
    v.push(rec(0xD3D0, 0xD3D0, H2));
    v.push(rec(0xD3D1, 0xD3EB, H3));
    v.push(rec(0xD3EC, 0xD3EC, H2));
    v.push(rec(0xD3ED, 0xD407, H3));
    v.push(rec(0xD408, 0xD408, H2));
    v.push(rec(0xD409, 0xD423, H3));
    v.push(rec(0xD424, 0xD424, H2));
    v.push(rec(0xD425, 0xD43F, H3));
    v.push(rec(0xD440, 0xD440, H2));
    v.push(rec(0xD441, 0xD45B, H3));
    v.push(rec(0xD45C, 0xD45C, H2));
    v.push(rec(0xD45D, 0xD477, H3));
    v.push(rec(0xD478, 0xD478, H2));
    v.push(rec(0xD479, 0xD493, H3));
    v.push(rec(0xD494, 0xD494, H2));
    v.push(rec(0xD495, 0xD4AF, H3));
    v.push(rec(0xD4B0, 0xD4B0, H2));
    proof {
        assert(v@ =~= old(v)@ + records_part39());
    }
}

/// Append the records of [`records_part40`].
#[verifier::rlimit(100)]
#[verifier::spinoff_prover]
fn push_part40(v: &mut Vec<Record>)
    ensures
        final(v)@ == old(v)@ + records_part40(),
{
    v.push(rec(0xD4B1, 0xD4CB, H3));
    v.push(rec(0xD4CC, 0xD4CC, H2));
    v.push(rec(0xD4CD, 0xD4E7, H3));
    v.push(rec(0xD4E8, 0xD4E8, H2));
    v.push(rec(0xD4E9, 0xD503, H3));
    v.push(rec(0xD504, 0xD504, H2));
    v.push(rec(0xD505, 0xD51F, H3));
    v.push(rec(0xD520, 0xD520, H2));
    v.push(rec(0xD521, 0xD53B, H3));
    v.push(rec(0xD53C, 0xD53C, H2));
    v.push(rec(0xD53D, 0xD557, H3));
    v.push(rec(0xD558, 0xD558, H2));
    v.push(rec(0xD559, 0xD573, H3));
    v.push(rec(0xD574, 0xD574, H2));
    v.push(rec(0xD575, 0xD58F, H3));
    v.push(rec(0xD590, 0xD590, H2));
    v.push(rec(0xD591, 0xD5AB, H3));
    v.push(rec(0xD5AC, 0xD5AC, H2));
    v.push(rec(0xD5AD, 0xD5C7, H3));
    v.push(rec(0xD5C8, 0xD5C8, H2));
    v.push(rec(0xD5C9, 0xD5E3, H3));
    v.push(rec(0xD5E4, 0xD5E4, H2));
    v.push(rec(0xD5E5, 0xD5FF, H3));
    v.push(rec(0xD600, 0xD600, H2));
    v.push(rec(0xD601, 0xD61B, H3));
    v.push(rec(0xD61C, 0xD61C, H2));
    v.push(rec(0xD61D, 0xD637, H3));
    v.push(rec(0xD638, 0xD638, H2));
    v.push(rec(0xD639, 0xD653, H3));
    v.push(rec(0xD654, 0xD654, H2));
    v.push(rec(0xD655, 0xD66F, H3));
    v.push(rec(0xD670, 0xD670, H2));
    v.push(rec(0xD671, 0xD68B, H3));
    v.push(rec(0xD68C, 0xD68C, H2));
    v.push(rec(0xD68D, 0xD6A7, H3));
    v.push(rec(0xD6A8, 0xD6A8, H2));
    v.push(rec(0xD6A9, 0xD6C3, H3));
    v.push(rec(0xD6C4, 0xD6C4, H2));
    v.push(rec(0xD6C5, 0xD6DF, H3));
    v.push(rec(0xD6E0, 0xD6E0, H2));
    v.push(rec(0xD6E1, 0xD6FB, H3));
    v.push(rec(0xD6FC, 0xD6FC, H2));
    v.push(rec(0xD6FD, 0xD717, H3));
    v.push(rec(0xD718, 0xD718, H2));
    v.push(rec(0xD719, 0xD733, H3));
    v.push(rec(0xD734, 0xD734, H2));
    v.push(rec(0xD735, 0xD74F, H3));
    v.push(rec(0xD750, 0xD750, H2));
    v.push(rec(0xD751, 0xD76B, H3));
    v.push(rec(0xD76C, 0xD76C, H2));
    proof {
        assert(v@ =~= old(v)@ + records_part40());
    }
}

/// Append the records of [`records_part41`].
#[verifier::rlimit(100)]
#[verifier::spinoff_prover]
fn push_part41(v: &mut Vec<Record>)
    ensures
        final(v)@ == old(v)@ + records_part41(),
{
    v.push(rec(0xD76D, 0xD787, H3));
    v.push(rec(0xD788, 0xD788, H2));
    v.push(rec(0xD789, 0xD7A3, H3));
    v.push(rec(0xD7B0, 0xD7C6, JV));
    v.push(rec(0xD7CB, 0xD7FB, JT));
    v.push(rec(0xD800, 0xDFFF, SG));
    v.push(rec(0xF900, 0xFAFF, ID));
    v.push(rec(0xFB00, 0xFB06, AL));
    v.push(rec(0xFB13, 0xFB17, AL));
    v.push(rec(0xFB1D, 0xFB1D, HL));
    v.push(rec(0xFB1E, 0xFB1E, CM));
    v.push(rec(0xFB1F, 0xFB28, HL));
    v.push(rec(0xFB29, 0xFB29, AL));
    v.push(rec(0xFB2A, 0xFB36, HL));
    v.push(rec(0xFB38, 0xFB3C, HL));
    v.push(rec(0xFB3E, 0xFB3E, HL));
    v.push(rec(0xFB40, 0xFB41, HL));
    v.push(rec(0xFB43, 0xFB44, HL));
    v.push(rec(0xFB46, 0xFB4F, HL));
    v.push(rec(0xFB50, 0xFBC2, AL));
    v.push(rec(0xFBD3, 0xFD3D, AL));
    v.push(rec(0xFD3E, 0xFD3E, CL));
    v.push(rec(0xFD3F, 0xFD3F, OP));
    v.push(rec(0xFD40, 0xFD8F, AL));
    v.push(rec(0xFD92, 0xFDC7, AL));
    v.push(rec(0xFDCF, 0xFDCF, AL));
    v.push(rec(0xFDF0, 0xFDFB, AL));
    v.push(rec(0xFDFC, 0xFDFC, PO));
    v.push(rec(0xFDFD, 0xFDFF, AL));
    v.push(rec(0xFE00, 0xFE0F, CM));
    v.push(rec(0xFE10, 0xFE10, IS));
    v.push(rec(0xFE11, 0xFE12, CL));
    v.push(rec(0xFE13, 0xFE14, IS));
    v.push(rec(0xFE15, 0xFE16, EX));
    v.push(rec(0xFE17, 0xFE17, OP));
    v.push(rec(0xFE18, 0xFE18, CL));
    v.push(rec(0xFE19, 0xFE19, IN));
    v.push(rec(0xFE20, 0xFE2F, CM));
    v.push(rec(0xFE30, 0xFE34, ID));
    v.push(rec(0xFE35, 0xFE35, OP));
    v.push(rec(0xFE36, 0xFE36, CL));
    v.push(rec(0xFE37, 0xFE37, OP));
    v.push(rec(0xFE38, 0xFE38, CL));
    v.push(rec(0xFE39, 0xFE39, OP));
    v.push(rec(0xFE3A, 0xFE3A, CL));
    v.push(rec(0xFE3B, 0xFE3B, OP));
    v.push(rec(0xFE3C, 0xFE3C, CL));
    v.push(rec(0xFE3D, 0xFE3D, OP));
    v.push(rec(0xFE3E, 0xFE3E, CL));
    v.push(rec(0xFE3F, 0xFE3F, OP));
    proof {
        assert(v@ =~= old(v)@ + records_part41());
    }
}

/// Append the records of [`records_part42`].
#[verifier::rlimit(100)]
#[verifier::spinoff_prover]
fn push_part42(v: &mut Vec<Record>)
    ensures
        final(v)@ == old(v)@ + records_part42(),
{
    v.push(rec(0xFE40, 0xFE40, CL));
    v.push(rec(0xFE41, 0xFE41, OP));
    v.push(rec(0xFE42, 0xFE42, CL));
    v.push(rec(0xFE43, 0xFE43, OP));
    v.push(rec(0xFE44, 0xFE44, CL));
    v.push(rec(0xFE45, 0xFE46, ID));
    v.push(rec(0xFE47, 0xFE47, OP));
    v.push(rec(0xFE48, 0xFE48, CL));
    v.push(rec(0xFE49, 0xFE4F, ID));
    v.push(rec(0xFE50, 0xFE50, CL));
    v.push(rec(0xFE51, 0xFE51, ID));
    v.push(rec(0xFE52, 0xFE52, CL));
    v.push(rec(0xFE54, 0xFE55, NS));
    v.push(rec(0xFE56, 0xFE57, EX));
    v.push(rec(0xFE58, 0xFE58, ID));
    v.push(rec(0xFE59, 0xFE59, OP));
    v.push(rec(0xFE5A, 0xFE5A, CL));
    v.push(rec(0xFE5B, 0xFE5B, OP));
    v.push(rec(0xFE5C, 0xFE5C, CL));
    v.push(rec(0xFE5D, 0xFE5D, OP));
    v.push(rec(0xFE5E, 0xFE5E, CL));
    v.push(rec(0xFE5F, 0xFE66, ID));
    v.push(rec(0xFE68, 0xFE68, ID));
    v.push(rec(0xFE69, 0xFE69, PR));
    v.push(rec(0xFE6A, 0xFE6A, PO));
    v.push(rec(0xFE6B, 0xFE6B, ID));
    v.push(rec(0xFE70, 0xFE74, AL));
    v.push(rec(0xFE76, 0xFEFC, AL));
    v.push(rec(0xFEFF, 0xFEFF, WJ));
    v.push(rec(0xFF01, 0xFF01, EX));
    v.push(rec(0xFF02, 0xFF03, ID));
    v.push(rec(0xFF04, 0xFF04, PR));
    v.push(rec(0xFF05, 0xFF05, PO));
    v.push(rec(0xFF06, 0xFF07, ID));
    v.push(rec(0xFF08, 0xFF08, OP));
    v.push(rec(0xFF09, 0xFF09, CL));
    v.push(rec(0xFF0A, 0xFF0B, ID));
    v.push(rec(0xFF0C, 0xFF0C, CL));
    v.push(rec(0xFF0D, 0xFF0D, ID));
    v.push(rec(0xFF0E, 0xFF0E, CL));
    v.push(rec(0xFF0F, 0xFF19, ID));
    v.push(rec(0xFF1A, 0xFF1B, NS));
    v.push(rec(0xFF1C, 0xFF1E, ID));
    v.push(rec(0xFF1F, 0xFF1F, EX));
    v.push(rec(0xFF20, 0xFF3A, ID));
    v.push(rec(0xFF3B, 0xFF3B, OP));
    v.push(rec(0xFF3C, 0xFF3C, ID));
    v.push(rec(0xFF3D, 0xFF3D, CL));
    v.push(rec(0xFF3E, 0xFF5A, ID));
    v.push(rec(0xFF5B, 0xFF5B, OP));
    proof {
        assert(v@ =~= old(v)@ + records_part42());
    }
}

/// Append the records of [`records_part43`].
#[verifier::rlimit(100)]
#[verifier::spinoff_prover]
fn push_part43(v: &mut Vec<Record>)
    ensures
        final(v)@ == old(v)@ + records_part43(),
{
    v.push(rec(0xFF5C, 0xFF5C, ID));
    v.push(rec(0xFF5D, 0xFF5D, CL));
    v.push(rec(0xFF5E, 0xFF5E, ID));
    v.push(rec(0xFF5F, 0xFF5F, OP));
    v.push(rec(0xFF60, 0xFF61, CL));
    v.push(rec(0xFF62, 0xFF62, OP));
    v.push(rec(0xFF63, 0xFF64, CL));
    v.push(rec(0xFF65, 0xFF65, NS));
    v.push(rec(0xFF66, 0xFF66, ID));
    v.push(rec(0xFF67, 0xFF70, CJ));
    v.push(rec(0xFF71, 0xFF9D, ID));
    v.push(rec(0xFF9E, 0xFF9F, NS));
    v.push(rec(0xFFA0, 0xFFBE, ID));
    v.push(rec(0xFFC2, 0xFFC7, ID));
    v.push(rec(0xFFCA, 0xFFCF, ID));
    v.push(rec(0xFFD2, 0xFFD7, ID));
    v.push(rec(0xFFDA, 0xFFDC, ID));
    v.push(rec(0xFFE0, 0xFFE0, PO));
    v.push(rec(0xFFE1, 0xFFE1, PR));
    v.push(rec(0xFFE2, 0xFFE4, ID));
    v.push(rec(0xFFE5, 0xFFE6, PR));
    v.push(rec(0xFFE8, 0xFFEE, AL));
    v.push(rec(0xFFF9, 0xFFFB, CM));
    v.push(rec(0xFFFC, 0xFFFC, CB));
    v.push(rec(0xFFFD, 0xFFFD, AI));
    v.push(rec(0x10000, 0x1000B, AL));
    v.push(rec(0x1000D, 0x10026, AL));
    v.push(rec(0x10028, 0x1003A, AL));
    v.push(rec(0x1003C, 0x1003D, AL));
    v.push(rec(0x1003F, 0x1004D, AL));
    v.push(rec(0x10050, 0x1005D, AL));
    v.push(rec(0x10080, 0x100FA, AL));
    v.push(rec(0x10100, 0x10102, BA));
    v.push(rec(0x10107, 0x10133, AL));
    v.push(rec(0x10137, 0x1018E, AL));
    v.push(rec(0x10190, 0x1019C, AL));
    v.push(rec(0x101A0, 0x101A0, AL));
    v.push(rec(0x101D0, 0x101FC, AL));
    v.push(rec(0x101FD, 0x101FD, CM));
    v.push(rec(0x10280, 0x1029C, AL));
    v.push(rec(0x102A0, 0x102D0, AL));
    v.push(rec(0x102E0, 0x102E0, CM));
    v.push(rec(0x102E1, 0x102FB, AL));
    v.push(rec(0x10300, 0x10323, AL));
    v.push(rec(0x1032D, 0x1034A, AL));
    v.push(rec(0x10350, 0x10375, AL));
    v.push(rec(0x10376, 0x1037A, CM));
    v.push(rec(0x10380, 0x1039D, AL));
    v.push(rec(0x1039F, 0x1039F, BA));
    v.push(rec(0x103A0, 0x103C3, AL));
    proof {
        assert(v@ =~= old(v)@ + records_part43());
    }
}

/// Append the records of [`records_part44`].
#[verifier::rlimit(100)]
#[verifier::spinoff_prover]
fn push_part44(v: &mut Vec<Record>)
    ensures
        final(v)@ == old(v)@ + records_part44(),
{
    v.push(rec(0x103C8, 0x103CF, AL));
    v.push(rec(0x103D0, 0x103D0, BA));
    v.push(rec(0x103D1, 0x103D5, AL));
    v.push(rec(0x10400, 0x1049D, AL));
    v.push(rec(0x104A0, 0x104A9, NU));
    v.push(rec(0x104B0, 0x104D3, AL));
    v.push(rec(0x104D8, 0x104FB, AL));
    v.push(rec(0x10500, 0x10527, AL));
    v.push(rec(0x10530, 0x10563, AL));
    v.push(rec(0x1056F, 0x1057A, AL));
    v.push(rec(0x1057C, 0x1058A, AL));
    v.push(rec(0x1058C, 0x10592, AL));
    v.push(rec(0x10594, 0x10595, AL));
    v.push(rec(0x10597, 0x105A1, AL));
    v.push(rec(0x105A3, 0x105B1, AL));
    v.push(rec(0x105B3, 0x105B9, AL));
    v.push(rec(0x105BB, 0x105BC, AL));
    v.push(rec(0x10600, 0x10736, AL));
    v.push(rec(0x10740, 0x10755, AL));
    v.push(rec(0x10760, 0x10767, AL));
    v.push(rec(0x10780, 0x10785, AL));
    v.push(rec(0x10787, 0x107B0, AL));
    v.push(rec(0x107B2, 0x107BA, AL));
    v.push(rec(0x10800, 0x10805, AL));
    v.push(rec(0x10808, 0x10808, AL));
    v.push(rec(0x1080A, 0x10835, AL));
    v.push(rec(0x10837, 0x10838, AL));
    v.push(rec(0x1083C, 0x1083C, AL));
    v.push(rec(0x1083F, 0x10855, AL));
    v.push(rec(0x10857, 0x10857, BA));
    v.push(rec(0x10858, 0x1089E, AL));
    v.push(rec(0x108A7, 0x108AF, AL));
    v.push(rec(0x108E0, 0x108F2, AL));
    v.push(rec(0x108F4, 0x108F5, AL));
    v.push(rec(0x108FB, 0x1091B, AL));
    v.push(rec(0x1091F, 0x1091F, BA));
    v.push(rec(0x10920, 0x10939, AL));
    v.push(rec(0x1093F, 0x1093F, AL));
    v.push(rec(0x10980, 0x109B7, AL));
    v.push(rec(0x109BC, 0x109CF, AL));
    v.push(rec(0x109D2, 0x10A00, AL));
    v.push(rec(0x10A01, 0x10A03, CM));
    v.push(rec(0x10A05, 0x10A06, CM));
    v.push(rec(0x10A0C, 0x10A0F, CM));
    v.push(rec(0x10A10, 0x10A13, AL));
    v.push(rec(0x10A15, 0x10A17, AL));
    v.push(rec(0x10A19, 0x10A35, AL));
    v.push(rec(0x10A38, 0x10A3A, CM));
    v.push(rec(0x10A3F, 0x10A3F, CM));
    v.push(rec(0x10A40, 0x10A48, AL));
    proof {
        assert(v@ =~= old(v)@ + records_part44());
    }
}

/// Append the records of [`records_part45`].
#[verifier::rlimit(100)]
#[verifier::spinoff_prover]
fn push_part45(v: &mut Vec<Record>)
    ensures
        final(v)@ == old(v)@ + records_part45(),
{
    v.push(rec(0x10A50, 0x10A57, BA));
    v.push(rec(0x10A58, 0x10A58, AL));
    v.push(rec(0x10A60, 0x10A9F, AL));
    v.push(rec(0x10AC0, 0x10AE4, AL));
    v.push(rec(0x10AE5, 0x10AE6, CM));
    v.push(rec(0x10AEB, 0x10AEF, AL));
    v.push(rec(0x10AF0, 0x10AF5, BA));
    v.push(rec(0x10AF6, 0x10AF6, IN));
    v.push(rec(0x10B00, 0x10B35, AL));
    v.push(rec(0x10B39, 0x10B3F, BA));
    v.push(rec(0x10B40, 0x10B55, AL));
    v.push(rec(0x10B58, 0x10B72, AL));
    v.push(rec(0x10B78, 0x10B91, AL));
    v.push(rec(0x10B99, 0x10B9C, AL));
    v.push(rec(0x10BA9, 0x10BAF, AL));
    v.push(rec(0x10C00, 0x10C48, AL));
    v.push(rec(0x10C80, 0x10CB2, AL));
    v.push(rec(0x10CC0, 0x10CF2, AL));
    v.push(rec(0x10CFA, 0x10D23, AL));
    v.push(rec(0x10D24, 0x10D27, CM));
    v.push(rec(0x10D30, 0x10D39, NU));
    v.push(rec(0x10E60, 0x10E7E, AL));
    v.push(rec(0x10E80, 0x10EA9, AL));
    v.push(rec(0x10EAB, 0x10EAC, CM));
    v.push(rec(0x10EAD, 0x10EAD, BA));
    v.push(rec(0x10EB0, 0x10EB1, AL));
    v.push(rec(0x10F00, 0x10F27, AL));
    v.push(rec(0x10F30, 0x10F45, AL));
    v.push(rec(0x10F46, 0x10F50, CM));
    v.push(rec(0x10F51, 0x10F59, AL));
    v.push(rec(0x10F70, 0x10F81, AL));
    v.push(rec(0x10F82, 0x10F85, CM));
    v.push(rec(0x10F86, 0x10F89, AL));
    v.push(rec(0x10FB0, 0x10FCB, AL));
    v.push(rec(0x10FE0, 0x10FF6, AL));
    v.push(rec(0x11000, 0x11002, CM));
    v.push(rec(0x11003, 0x11037, AL));
    v.push(rec(0x11038, 0x11046, CM));
    v.push(rec(0x11047, 0x11048, BA));
    v.push(rec(0x11049, 0x1104D, AL));
    v.push(rec(0x11052, 0x11065, AL));
    v.push(rec(0x11066, 0x1106F, NU));
    v.push(rec(0x11070, 0x11070, CM));
    v.push(rec(0x11071, 0x11072, AL));
    v.push(rec(0x11073, 0x11074, CM));
    v.push(rec(0x11075, 0x11075, AL));
    v.push(rec(0x1107F, 0x11082, CM));
    v.push(rec(0x11083, 0x110AF, AL));
    v.push(rec(0x110B0, 0x110BA, CM));
    v.push(rec(0x110BB, 0x110BD, AL));
    proof {
        assert(v@ =~= old(v)@ + records_part45());
    }
}

/// Append the records of [`records_part46`].
#[verifier::rlimit(100)]
#[verifier::spinoff_prover]
fn push_part46(v: &mut Vec<Record>)
    ensures
        final(v)@ == old(v)@ + records_part46(),
{
    v.push(rec(0x110BE, 0x110C1, BA));
    v.push(rec(0x110C2, 0x110C2, CM));
    v.push(rec(0x110CD, 0x110CD, AL));
    v.push(rec(0x110D0, 0x110E8, AL));
    v.push(rec(0x110F0, 0x110F9, NU));
    v.push(rec(0x11100, 0x11102, CM));
    v.push(rec(0x11103, 0x11126, AL));
    v.push(rec(0x11127, 0x11134, CM));
    v.push(rec(0x11136, 0x1113F, NU));
    v.push(rec(0x11140, 0x11143, BA));
    v.push(rec(0x11144, 0x11144, AL));
    v.push(rec(0x11145, 0x11146, CM));
    v.push(rec(0x11147, 0x11147, AL));
    v.push(rec(0x11150, 0x11172, AL));
    v.push(rec(0x11173, 0x11173, CM));
    v.push(rec(0x11174, 0x11174, AL));
    v.push(rec(0x11175, 0x11175, BB));
    v.push(rec(0x11176, 0x11176, AL));
    v.push(rec(0x11180, 0x11182, CM));
    v.push(rec(0x11183, 0x111B2, AL));
    v.push(rec(0x111B3, 0x111C0, CM));
    v.push(rec(0x111C1, 0x111C4, AL));
    v.push(rec(0x111C5, 0x111C6, BA));
    v.push(rec(0x111C7, 0x111C7, AL));
    v.push(rec(0x111C8, 0x111C8, BA));
    v.push(rec(0x111C9, 0x111CC, CM));
    v.push(rec(0x111CD, 0x111CD, AL));
    v.push(rec(0x111CE, 0x111CF, CM));
    v.push(rec(0x111D0, 0x111D9, NU));
    v.push(rec(0x111DA, 0x111DA, AL));
    v.push(rec(0x111DB, 0x111DB, BB));
    v.push(rec(0x111DC, 0x111DC, AL));
    v.push(rec(0x111DD, 0x111DF, BA));
    v.push(rec(0x111E1, 0x111F4, AL));
    v.push(rec(0x11200, 0x11211, AL));
    v.push(rec(0x11213, 0x1122B, AL));
    v.push(rec(0x1122C, 0x11237, CM));
    v.push(rec(0x11238, 0x11239, BA));
    v.push(rec(0x1123A, 0x1123A, AL));
    v.push(rec(0x1123B, 0x1123C, BA));
    v.push(rec(0x1123D, 0x1123D, AL));
    v.push(rec(0x1123E, 0x1123E, CM));
    v.push(rec(0x11280, 0x11286, AL));
    v.push(rec(0x11288, 0x11288, AL));
    v.push(rec(0x1128A, 0x1128D, AL));
    v.push(rec(0x1128F, 0x1129D, AL));
    v.push(rec(0x1129F, 0x112A8, AL));
    v.push(rec(0x112A9, 0x112A9, BA));
    v.push(rec(0x112B0, 0x112DE, AL));
    v.push(rec(0x112DF, 0x112EA, CM));
    proof {
        assert(v@ =~= old(v)@ + records_part46());
    }
}

/// Append the records of [`records_part47`].
#[verifier::rlimit(100)]
#[verifier::spinoff_prover]
fn push_part47(v: &mut Vec<Record>)
    ensures
        final(v)@ == old(v)@ + records_part47(),
{
    v.push(rec(0x112F0, 0x112F9, NU));
    v.push(rec(0x11300, 0x11303, CM));
    v.push(rec(0x11305, 0x1130C, AL));
    v.push(rec(0x1130F, 0x11310, AL));
    v.push(rec(0x11313, 0x11328, AL));
    v.push(rec(0x1132A, 0x11330, AL));
    v.push(rec(0x11332, 0x11333, AL));
    v.push(rec(0x11335, 0x11339, AL));
    v.push(rec(0x1133B, 0x1133C, CM));
    v.push(rec(0x1133D, 0x1133D, AL));
    v.push(rec(0x1133E, 0x11344, CM));
    v.push(rec(0x11347, 0x11348, CM));
    v.push(rec(0x1134B, 0x1134D, CM));
    v.push(rec(0x11350, 0x11350, AL));
    v.push(rec(0x11357, 0x11357, CM));
    v.push(rec(0x1135D, 0x11361, AL));
    v.push(rec(0x11362, 0x11363, CM));
    v.push(rec(0x11366, 0x1136C, CM));
    v.push(rec(0x11370, 0x11374, CM));
    v.push(rec(0x11400, 0x11434, AL));
    v.push(rec(0x11435, 0x11446, CM));
    v.push(rec(0x11447, 0x1144A, AL));
    v.push(rec(0x1144B, 0x1144E, BA));
    v.push(rec(0x1144F, 0x1144F, AL));
    v.push(rec(0x11450, 0x11459, NU));
    v.push(rec(0x1145A, 0x1145B, BA));
    v.push(rec(0x1145D, 0x1145D, AL));
    v.push(rec(0x1145E, 0x1145E, CM));
    v.push(rec(0x1145F, 0x11461, AL));
    v.push(rec(0x11480, 0x114AF, AL));
    v.push(rec(0x114B0, 0x114C3, CM));
    v.push(rec(0x114C4, 0x114C7, AL));
    v.push(rec(0x114D0, 0x114D9, NU));
    v.push(rec(0x11580, 0x115AE, AL));
    v.push(rec(0x115AF, 0x115B5, CM));
    v.push(rec(0x115B8, 0x115C0, CM));
    v.push(rec(0x115C1, 0x115C1, BB));
    v.push(rec(0x115C2, 0x115C3, BA));
    v.push(rec(0x115C4, 0x115C5, EX));
    v.push(rec(0x115C6, 0x115C8, AL));
    v.push(rec(0x115C9, 0x115D7, BA));
    v.push(rec(0x115D8, 0x115DB, AL));
    v.push(rec(0x115DC, 0x115DD, CM));
    v.push(rec(0x11600, 0x1162F, AL));
    v.push(rec(0x11630, 0x11640, CM));
    v.push(rec(0x11641, 0x11642, BA));
    v.push(rec(0x11643, 0x11644, AL));
    v.push(rec(0x11650, 0x11659, NU));
    v.push(rec(0x11660, 0x1166C, BB));
    v.push(rec(0x11680, 0x116AA, AL));
    proof {
        assert(v@ =~= old(v)@ + records_part47());
    }
}

/// Append the records of [`records_part48`].
#[verifier::rlimit(100)]
#[verifier::spinoff_prover]
fn push_part48(v: &mut Vec<Record>)
    ensures
        final(v)@ == old(v)@ + records_part48(),
{
    v.push(rec(0x116AB, 0x116B7, CM));
    v.push(rec(0x116B8, 0x116B9, AL));
    v.push(rec(0x116C0, 0x116C9, NU));
    v.push(rec(0x11700, 0x1171A, SA));
    v.push(rec(0x1171D, 0x1172B, SA));
    v.push(rec(0x11730, 0x11739, NU));
    v.push(rec(0x1173A, 0x1173B, SA));
    v.push(rec(0x1173C, 0x1173E, BA));
    v.push(rec(0x1173F, 0x11746, SA));
    v.push(rec(0x11800, 0x1182B, AL));
    v.push(rec(0x1182C, 0x1183A, CM));
    v.push(rec(0x1183B, 0x1183B, AL));
    v.push(rec(0x118A0, 0x118DF, AL));
    v.push(rec(0x118E0, 0x118E9, NU));
    v.push(rec(0x118EA, 0x118F2, AL));
    v.push(rec(0x118FF, 0x11906, AL));
    v.push(rec(0x11909, 0x11909, AL));
    v.push(rec(0x1190C, 0x11913, AL));
    v.push(rec(0x11915, 0x11916, AL));
    v.push(rec(0x11918, 0x1192F, AL));
    v.push(rec(0x11930, 0x11935, CM));
    v.push(rec(0x11937, 0x11938, CM));
    v.push(rec(0x1193B, 0x1193E, CM));
    v.push(rec(0x1193F, 0x1193F, AL));
    v.push(rec(0x11940, 0x11940, CM));
    v.push(rec(0x11941, 0x11941, AL));
    v.push(rec(0x11942, 0x11943, CM));
    v.push(rec(0x11944, 0x11946, BA));
    v.push(rec(0x11950, 0x11959, NU));
    v.push(rec(0x119A0, 0x119A7, AL));
    v.push(rec(0x119AA, 0x119D0, AL));
    v.push(rec(0x119D1, 0x119D7, CM));
    v.push(rec(0x119DA, 0x119E0, CM));
    v.push(rec(0x119E1, 0x119E1, AL));
    v.push(rec(0x119E2, 0x119E2, BB));
    v.push(rec(0x119E3, 0x119E3, AL));
    v.push(rec(0x119E4, 0x119E4, CM));
    v.push(rec(0x11A00, 0x11A00, AL));
    v.push(rec(0x11A01, 0x11A0A, CM));
    v.push(rec(0x11A0B, 0x11A32, AL));
    v.push(rec(0x11A33, 0x11A39, CM));
    v.push(rec(0x11A3A, 0x11A3A, AL));
    v.push(rec(0x11A3B, 0x11A3E, CM));
    v.push(rec(0x11A3F, 0x11A3F, BB));
    v.push(rec(0x11A40, 0x11A40, AL));
    v.push(rec(0x11A41, 0x11A44, BA));
    v.push(rec(0x11A45, 0x11A45, BB));
    v.push(rec(0x11A46, 0x11A46, AL));
    v.push(rec(0x11A47, 0x11A47, CM));
    v.push(rec(0x11A50, 0x11A50, AL));
    proof {
        assert(v@ =~= old(v)@ + records_part48());
    }
}

/// Append the records of [`records_part49`].
#[verifier::rlimit(100)]
#[verifier::spinoff_prover]
fn push_part49(v: &mut Vec<Record>)
    ensures
        final(v)@ == old(v)@ + records_part49(),
{
    v.push(rec(0x11A51, 0x11A5B, CM));
    v.push(rec(0x11A5C, 0x11A89, AL));
    v.push(rec(0x11A8A, 0x11A99, CM));
    v.push(rec(0x11A9A, 0x11A9C, BA));
    v.push(rec(0x11A9D, 0x11A9D, AL));
    v.push(rec(0x11A9E, 0x11AA0, BB));
    v.push(rec(0x11AA1, 0x11AA2, BA));
    v.push(rec(0x11AB0, 0x11AF8, AL));
    v.push(rec(0x11C00, 0x11C08, AL));
    v.push(rec(0x11C0A, 0x11C2E, AL));
    v.push(rec(0x11C2F, 0x11C36, CM));
    v.push(rec(0x11C38, 0x11C3F, CM));
    v.push(rec(0x11C40, 0x11C40, AL));
    v.push(rec(0x11C41, 0x11C45, BA));
    v.push(rec(0x11C50, 0x11C59, NU));
    v.push(rec(0x11C5A, 0x11C6C, AL));
    v.push(rec(0x11C70, 0x11C70, BB));
    v.push(rec(0x11C71, 0x11C71, EX));
    v.push(rec(0x11C72, 0x11C8F, AL));
    v.push(rec(0x11C92, 0x11CA7, CM));
    v.push(rec(0x11CA9, 0x11CB6, CM));
    v.push(rec(0x11D00, 0x11D06, AL));
    v.push(rec(0x11D08, 0x11D09, AL));
    v.push(rec(0x11D0B, 0x11D30, AL));
    v.push(rec(0x11D31, 0x11D36, CM));
    v.push(rec(0x11D3A, 0x11D3A, CM));
    v.push(rec(0x11D3C, 0x11D3D, CM));
    v.push(rec(0x11D3F, 0x11D45, CM));
    v.push(rec(0x11D46, 0x11D46, AL));
    v.push(rec(0x11D47, 0x11D47, CM));
    v.push(rec(0x11D50, 0x11D59, NU));
    v.push(rec(0x11D60, 0x11D65, AL));
    v.push(rec(0x11D67, 0x11D68, AL));
    v.push(rec(0x11D6A, 0x11D89, AL));
    v.push(rec(0x11D8A, 0x11D8E, CM));
    v.push(rec(0x11D90, 0x11D91, CM));
    v.push(rec(0x11D93, 0x11D97, CM));
    v.push(rec(0x11D98, 0x11D98, AL));
    v.push(rec(0x11DA0, 0x11DA9, NU));
    v.push(rec(0x11EE0, 0x11EF2, AL));
    v.push(rec(0x11EF3, 0x11EF6, CM));
    v.push(rec(0x11EF7, 0x11EF8, AL));
    v.push(rec(0x11FB0, 0x11FB0, AL));
    v.push(rec(0x11FC0, 0x11FDC, AL));
    v.push(rec(0x11FDD, 0x11FE0, PO));
    v.push(rec(0x11FE1, 0x11FF1, AL));
    v.push(rec(0x11FFF, 0x11FFF, BA));
    v.push(rec(0x12000, 0x12399, AL));
    v.push(rec(0x12400, 0x1246E, AL));
    v.push(rec(0x12470, 0x12474, BA));
    proof {
        assert(v@ =~= old(v)@ + records_part49());
    }
}

/// Append the records of [`records_part50`].
#[verifier::rlimit(100)]
#[verifier::spinoff_prover]
fn push_part50(v: &mut Vec<Record>)
    ensures
        final(v)@ == old(v)@ + records_part50(),
{
    v.push(rec(0x12480, 0x12543, AL));
    v.push(rec(0x12F90, 0x12FF2, AL));
    v.push(rec(0x13000, 0x13257, AL));
    v.push(rec(0x13258, 0x1325A, OP));
    v.push(rec(0x1325B, 0x1325D, CL));
    v.push(rec(0x1325E, 0x13281, AL));
    v.push(rec(0x13282, 0x13282, CL));
    v.push(rec(0x13283, 0x13285, AL));
    v.push(rec(0x13286, 0x13286, OP));
    v.push(rec(0x13287, 0x13287, CL));
    v.push(rec(0x13288, 0x13288, OP));
    v.push(rec(0x13289, 0x13289, CL));
    v.push(rec(0x1328A, 0x13378, AL));
    v.push(rec(0x13379, 0x13379, OP));
    v.push(rec(0x1337A, 0x1337B, CL));
    v.push(rec(0x1337C, 0x1342E, AL));
    v.push(rec(0x13430, 0x13436, GL));
    v.push(rec(0x13437, 0x13437, OP));
    v.push(rec(0x13438, 0x13438, CL));
    v.push(rec(0x14400, 0x145CD, AL));
    v.push(rec(0x145CE, 0x145CE, OP));
    v.push(rec(0x145CF, 0x145CF, CL));
    v.push(rec(0x145D0, 0x14646, AL));
    v.push(rec(0x16800, 0x16A38, AL));
    v.push(rec(0x16A40, 0x16A5E, AL));
    v.push(rec(0x16A60, 0x16A69, NU));
    v.push(rec(0x16A6E, 0x16A6F, BA));
    v.push(rec(0x16A70, 0x16ABE, AL));
    v.push(rec(0x16AC0, 0x16AC9, NU));
    v.push(rec(0x16AD0, 0x16AED, AL));
    v.push(rec(0x16AF0, 0x16AF4, CM));
    v.push(rec(0x16AF5, 0x16AF5, BA));
    v.push(rec(0x16B00, 0x16B2F, AL));
    v.push(rec(0x16B30, 0x16B36, CM));
    v.push(rec(0x16B37, 0x16B39, BA));
    v.push(rec(0x16B3A, 0x16B43, AL));
    v.push(rec(0x16B44, 0x16B44, BA));
    v.push(rec(0x16B45, 0x16B45, AL));
    v.push(rec(0x16B50, 0x16B59, NU));
    v.push(rec(0x16B5B, 0x16B61, AL));
    v.push(rec(0x16B63, 0x16B77, AL));
    v.push(rec(0x16B7D, 0x16B8F, AL));
    v.push(rec(0x16E40, 0x16E96, AL));
    v.push(rec(0x16E97, 0x16E98, BA));
    v.push(rec(0x16E99, 0x16E9A, AL));
    v.push(rec(0x16F00, 0x16F4A, AL));
    v.push(rec(0x16F4F, 0x16F4F, CM));
    v.push(rec(0x16F50, 0x16F50, AL));
    v.push(rec(0x16F51, 0x16F87, CM));
    v.push(rec(0x16F8F, 0x16F92, CM));
    proof {
        assert(v@ =~= old(v)@ + records_part50());
    }
}

/// Append the records of [`records_part51`].
#[verifier::rlimit(100)]
#[verifier::spinoff_prover]
fn push_part51(v: &mut Vec<Record>)
    ensures
        final(v)@ == old(v)@ + records_part51(),
{
    v.push(rec(0x16F93, 0x16F9F, AL));
    v.push(rec(0x16FE0, 0x16FE3, NS));
    v.push(rec(0x16FE4, 0x16FE4, GL));
    v.push(rec(0x16FF0, 0x16FF1, CM));
    v.push(rec(0x17000, 0x187F7, ID));
    v.push(rec(0x18800, 0x18AFF, ID));
    v.push(rec(0x18B00, 0x18CD5, AL));
    v.push(rec(0x18D00, 0x18D08, ID));
    v.push(rec(0x1AFF0, 0x1AFF3, AL));
    v.push(rec(0x1AFF5, 0x1AFFB, AL));
    v.push(rec(0x1AFFD, 0x1AFFE, AL));
    v.push(rec(0x1B000, 0x1B122, ID));
    v.push(rec(0x1B150, 0x1B152, CJ));
    v.push(rec(0x1B164, 0x1B167, CJ));
    v.push(rec(0x1B170, 0x1B2FB, ID));
    v.push(rec(0x1BC00, 0x1BC6A, AL));
    v.push(rec(0x1BC70, 0x1BC7C, AL));
    v.push(rec(0x1BC80, 0x1BC88, AL));
    v.push(rec(0x1BC90, 0x1BC99, AL));
    v.push(rec(0x1BC9C, 0x1BC9C, AL));
    v.push(rec(0x1BC9D, 0x1BC9E, CM));
    v.push(rec(0x1BC9F, 0x1BC9F, BA));
    v.push(rec(0x1BCA0, 0x1BCA3, CM));
    v.push(rec(0x1CF00, 0x1CF2D, CM));
    v.push(rec(0x1CF30, 0x1CF46, CM));
    v.push(rec(0x1CF50, 0x1CFC3, AL));
    v.push(rec(0x1D000, 0x1D0F5, AL));
    v.push(rec(0x1D100, 0x1D126, AL));
    v.push(rec(0x1D129, 0x1D164, AL));
    v.push(rec(0x1D165, 0x1D169, CM));
    v.push(rec(0x1D16A, 0x1D16C, AL));
    v.push(rec(0x1D16D, 0x1D182, CM));
    v.push(rec(0x1D183, 0x1D184, AL));
    v.push(rec(0x1D185, 0x1D18B, CM));
    v.push(rec(0x1D18C, 0x1D1A9, AL));
    v.push(rec(0x1D1AA, 0x1D1AD, CM));
    v.push(rec(0x1D1AE, 0x1D1EA, AL));
    v.push(rec(0x1D200, 0x1D241, AL));
    v.push(rec(0x1D242, 0x1D244, CM));
    v.push(rec(0x1D245, 0x1D245, AL));
    v.push(rec(0x1D2E0, 0x1D2F3, AL));
    v.push(rec(0x1D300, 0x1D356, AL));
    v.push(rec(0x1D360, 0x1D378, AL));
    v.push(rec(0x1D400, 0x1D454, AL));
    v.push(rec(0x1D456, 0x1D49C, AL));
    v.push(rec(0x1D49E, 0x1D49F, AL));
    v.push(rec(0x1D4A2, 0x1D4A2, AL));
    v.push(rec(0x1D4A5, 0x1D4A6, AL));
    v.push(rec(0x1D4A9, 0x1D4AC, AL));
    v.push(rec(0x1D4AE, 0x1D4B9, AL));
    proof {
        assert(v@ =~= old(v)@ + records_part51());
    }
}

/// Append the records of [`records_part52`].
#[verifier::rlimit(100)]
#[verifier::spinoff_prover]
fn push_part52(v: &mut Vec<Record>)
    ensures
        final(v)@ == old(v)@ + records_part52(),
{
    v.push(rec(0x1D4BB, 0x1D4BB, AL));
    v.push(rec(0x1D4BD, 0x1D4C3, AL));
    v.push(rec(0x1D4C5, 0x1D505, AL));
    v.push(rec(0x1D507, 0x1D50A, AL));
    v.push(rec(0x1D50D, 0x1D514, AL));
    v.push(rec(0x1D516, 0x1D51C, AL));
    v.push(rec(0x1D51E, 0x1D539, AL));
    v.push(rec(0x1D53B, 0x1D53E, AL));
    v.push(rec(0x1D540, 0x1D544, AL));
    v.push(rec(0x1D546, 0x1D546, AL));
    v.push(rec(0x1D54A, 0x1D550, AL));
    v.push(rec(0x1D552, 0x1D6A5, AL));
    v.push(rec(0x1D6A8, 0x1D7CB, AL));
    v.push(rec(0x1D7CE, 0x1D7FF, NU));
    v.push(rec(0x1D800, 0x1D9FF, AL));
    v.push(rec(0x1DA00, 0x1DA36, CM));
    v.push(rec(0x1DA37, 0x1DA3A, AL));
    v.push(rec(0x1DA3B, 0x1DA6C, CM));
    v.push(rec(0x1DA6D, 0x1DA74, AL));
    v.push(rec(0x1DA75, 0x1DA75, CM));
    v.push(rec(0x1DA76, 0x1DA83, AL));
    v.push(rec(0x1DA84, 0x1DA84, CM));
    v.push(rec(0x1DA85, 0x1DA86, AL));
    v.push(rec(0x1DA87, 0x1DA8A, BA));
    v.push(rec(0x1DA8B, 0x1DA8B, AL));
    v.push(rec(0x1DA9B, 0x1DA9F, CM));
    v.push(rec(0x1DAA1, 0x1DAAF, CM));
    v.push(rec(0x1DF00, 0x1DF1E, AL));
    v.push(rec(0x1E000, 0x1E006, CM));
    v.push(rec(0x1E008, 0x1E018, CM));
    v.push(rec(0x1E01B, 0x1E021, CM));
    v.push(rec(0x1E023, 0x1E024, CM));
    v.push(rec(0x1E026, 0x1E02A, CM));
    v.push(rec(0x1E100, 0x1E12C, AL));
    v.push(rec(0x1E130, 0x1E136, CM));
    v.push(rec(0x1E137, 0x1E13D, AL));
    v.push(rec(0x1E140, 0x1E149, NU));
    v.push(rec(0x1E14E, 0x1E14F, AL));
    v.push(rec(0x1E290, 0x1E2AD, AL));
    v.push(rec(0x1E2AE, 0x1E2AE, CM));
    v.push(rec(0x1E2C0, 0x1E2EB, AL));
    v.push(rec(0x1E2EC, 0x1E2EF, CM));
    v.push(rec(0x1E2F0, 0x1E2F9, NU));
    v.push(rec(0x1E2FF, 0x1E2FF, PR));
    v.push(rec(0x1E7E0, 0x1E7E6, AL));
    v.push(rec(0x1E7E8, 0x1E7EB, AL));
    v.push(rec(0x1E7ED, 0x1E7EE, AL));
    v.push(rec(0x1E7F0, 0x1E7FE, AL));
    v.push(rec(0x1E800, 0x1E8C4, AL));
    v.push(rec(0x1E8C7, 0x1E8CF, AL));
    proof {
        assert(v@ =~= old(v)@ + records_part52());
    }
}

/// Append the records of [`records_part53`].
#[verifier::rlimit(100)]
#[verifier::spinoff_prover]
fn push_part53(v: &mut Vec<Record>)
    ensures
        final(v)@ == old(v)@ + records_part53(),
{
    v.push(rec(0x1E8D0, 0x1E8D6, CM));
    v.push(rec(0x1E900, 0x1E943, AL));
    v.push(rec(0x1E944, 0x1E94A, CM));
    v.push(rec(0x1E94B, 0x1E94B, AL));
    v.push(rec(0x1E950, 0x1E959, NU));
    v.push(rec(0x1E95E, 0x1E95F, OP));
    v.push(rec(0x1EC71, 0x1ECAB, AL));
    v.push(rec(0x1ECAC, 0x1ECAC, PO));
    v.push(rec(0x1ECAD, 0x1ECAF, AL));
    v.push(rec(0x1ECB0, 0x1ECB0, PO));
    v.push(rec(0x1ECB1, 0x1ECB4, AL));
    v.push(rec(0x1ED01, 0x1ED3D, AL));
    v.push(rec(0x1EE00, 0x1EE03, AL));
    v.push(rec(0x1EE05, 0x1EE1F, AL));
    v.push(rec(0x1EE21, 0x1EE22, AL));
    v.push(rec(0x1EE24, 0x1EE24, AL));
    v.push(rec(0x1EE27, 0x1EE27, AL));
    v.push(rec(0x1EE29, 0x1EE32, AL));
    v.push(rec(0x1EE34, 0x1EE37, AL));
    v.push(rec(0x1EE39, 0x1EE39, AL));
    v.push(rec(0x1EE3B, 0x1EE3B, AL));
    v.push(rec(0x1EE42, 0x1EE42, AL));
    v.push(rec(0x1EE47, 0x1EE47, AL));
    v.push(rec(0x1EE49, 0x1EE49, AL));
    v.push(rec(0x1EE4B, 0x1EE4B, AL));
    v.push(rec(0x1EE4D, 0x1EE4F, AL));
    v.push(rec(0x1EE51, 0x1EE52, AL));
    v.push(rec(0x1EE54, 0x1EE54, AL));
    v.push(rec(0x1EE57, 0x1EE57, AL));
    v.push(rec(0x1EE59, 0x1EE59, AL));
    v.push(rec(0x1EE5B, 0x1EE5B, AL));
    v.push(rec(0x1EE5D, 0x1EE5D, AL));
    v.push(rec(0x1EE5F, 0x1EE5F, AL));
    v.push(rec(0x1EE61, 0x1EE62, AL));
    v.push(rec(0x1EE64, 0x1EE64, AL));
    v.push(rec(0x1EE67, 0x1EE6A, AL));
    v.push(rec(0x1EE6C, 0x1EE72, AL));
    v.push(rec(0x1EE74, 0x1EE77, AL));
    v.push(rec(0x1EE79, 0x1EE7C, AL));
    v.push(rec(0x1EE7E, 0x1EE7E, AL));
    v.push(rec(0x1EE80, 0x1EE89, AL));
    v.push(rec(0x1EE8B, 0x1EE9B, AL));
    v.push(rec(0x1EEA1, 0x1EEA3, AL));
    v.push(rec(0x1EEA5, 0x1EEA9, AL));
    v.push(rec(0x1EEAB, 0x1EEBB, AL));
    v.push(rec(0x1EEF0, 0x1EEF1, AL));
    v.push(rec(0x1F000, 0x1F0FF, ID));
    v.push(rec(0x1F100, 0x1F10C, AI));
    v.push(rec(0x1F10D, 0x1F10F, ID));
    v.push(rec(0x1F110, 0x1F12D, AI));
    proof {
        assert(v@ =~= old(v)@ + records_part53());
    }
}

/// Append the records of [`records_part54`].
#[verifier::rlimit(100)]
#[verifier::spinoff_prover]
fn push_part54(v: &mut Vec<Record>)
    ensures
        final(v)@ == old(v)@ + records_part54(),
{
    v.push(rec(0x1F12E, 0x1F12F, AL));
    v.push(rec(0x1F130, 0x1F169, AI));
    v.push(rec(0x1F16A, 0x1F16C, AL));
    v.push(rec(0x1F16D, 0x1F16F, ID));
    v.push(rec(0x1F170, 0x1F1AC, AI));
    v.push(rec(0x1F1AD, 0x1F1E5, ID));
    v.push(rec(0x1F1E6, 0x1F1FF, RI));
    v.push(rec(0x1F200, 0x1F384, ID));
    v.push(rec(0x1F385, 0x1F385, EB));
    v.push(rec(0x1F386, 0x1F39B, ID));
    v.push(rec(0x1F39C, 0x1F39D, AL));
    v.push(rec(0x1F39E, 0x1F3B4, ID));
    v.push(rec(0x1F3B5, 0x1F3B6, AL));
    v.push(rec(0x1F3B7, 0x1F3BB, ID));
    v.push(rec(0x1F3BC, 0x1F3BC, AL));
    v.push(rec(0x1F3BD, 0x1F3C1, ID));
    v.push(rec(0x1F3C2, 0x1F3C4, EB));
    v.push(rec(0x1F3C5, 0x1F3C6, ID));
    v.push(rec(0x1F3C7, 0x1F3C7, EB));
    v.push(rec(0x1F3C8, 0x1F3C9, ID));
    v.push(rec(0x1F3CA, 0x1F3CC, EB));
    v.push(rec(0x1F3CD, 0x1F3FA, ID));
    v.push(rec(0x1F3FB, 0x1F3FF, EM));
    v.push(rec(0x1F400, 0x1F441, ID));
    v.push(rec(0x1F442, 0x1F443, EB));
    v.push(rec(0x1F444, 0x1F445, ID));
    v.push(rec(0x1F446, 0x1F450, EB));
    v.push(rec(0x1F451, 0x1F465, ID));
    v.push(rec(0x1F466, 0x1F478, EB));
    v.push(rec(0x1F479, 0x1F47B, ID));
    v.push(rec(0x1F47C, 0x1F47C, EB));
    v.push(rec(0x1F47D, 0x1F480, ID));
    v.push(rec(0x1F481, 0x1F483, EB));
    v.push(rec(0x1F484, 0x1F484, ID));
    v.push(rec(0x1F485, 0x1F487, EB));
    v.push(rec(0x1F488, 0x1F48E, ID));
    v.push(rec(0x1F48F, 0x1F48F, EB));
    v.push(rec(0x1F490, 0x1F490, ID));
    v.push(rec(0x1F491, 0x1F491, EB));
    v.push(rec(0x1F492, 0x1F49F, ID));
    v.push(rec(0x1F4A0, 0x1F4A0, AL));
    v.push(rec(0x1F4A1, 0x1F4A1, ID));
    v.push(rec(0x1F4A2, 0x1F4A2, AL));
    v.push(rec(0x1F4A3, 0x1F4A3, ID));
    v.push(rec(0x1F4A4, 0x1F4A4, AL));
    v.push(rec(0x1F4A5, 0x1F4A9, ID));
    v.push(rec(0x1F4AA, 0x1F4AA, EB));
    v.push(rec(0x1F4AB, 0x1F4AE, ID));
    v.push(rec(0x1F4AF, 0x1F4AF, AL));
    v.push(rec(0x1F4B0, 0x1F4B0, ID));
    proof {
        assert(v@ =~= old(v)@ + records_part54());
    }
}

/// Append the records of [`records_part55`].
#[verifier::rlimit(100)]
#[verifier::spinoff_prover]
fn push_part55(v: &mut Vec<Record>)
    ensures
        final(v)@ == old(v)@ + records_part55(),
{
    v.push(rec(0x1F4B1, 0x1F4B2, AL));
    v.push(rec(0x1F4B3, 0x1F4FF, ID));
    v.push(rec(0x1F500, 0x1F506, AL));
    v.push(rec(0x1F507, 0x1F516, ID));
    v.push(rec(0x1F517, 0x1F524, AL));
    v.push(rec(0x1F525, 0x1F531, ID));
    v.push(rec(0x1F532, 0x1F549, AL));
    v.push(rec(0x1F54A, 0x1F573, ID));
    v.push(rec(0x1F574, 0x1F575, EB));
    v.push(rec(0x1F576, 0x1F579, ID));
    v.push(rec(0x1F57A, 0x1F57A, EB));
    v.push(rec(0x1F57B, 0x1F58F, ID));
    v.push(rec(0x1F590, 0x1F590, EB));
    v.push(rec(0x1F591, 0x1F594, ID));
    v.push(rec(0x1F595, 0x1F596, EB));
    v.push(rec(0x1F597, 0x1F5D3, ID));
    v.push(rec(0x1F5D4, 0x1F5DB, AL));
    v.push(rec(0x1F5DC, 0x1F5F3, ID));
    v.push(rec(0x1F5F4, 0x1F5F9, AL));
    v.push(rec(0x1F5FA, 0x1F644, ID));
    v.push(rec(0x1F645, 0x1F647, EB));
    v.push(rec(0x1F648, 0x1F64A, ID));
    v.push(rec(0x1F64B, 0x1F64F, EB));
    v.push(rec(0x1F650, 0x1F675, AL));
    v.push(rec(0x1F676, 0x1F678, QU));
    v.push(rec(0x1F679, 0x1F67B, NS));
    v.push(rec(0x1F67C, 0x1F67F, AL));
    v.push(rec(0x1F680, 0x1F6A2, ID));
    v.push(rec(0x1F6A3, 0x1F6A3, EB));
    v.push(rec(0x1F6A4, 0x1F6B3, ID));
    v.push(rec(0x1F6B4, 0x1F6B6, EB));
    v.push(rec(0x1F6B7, 0x1F6BF, ID));
    v.push(rec(0x1F6C0, 0x1F6C0, EB));
    v.push(rec(0x1F6C1, 0x1F6CB, ID));
    v.push(rec(0x1F6CC, 0x1F6CC, EB));
    v.push(rec(0x1F6CD, 0x1F6FF, ID));
    v.push(rec(0x1F700, 0x1F773, AL));
    v.push(rec(0x1F774, 0x1F77F, ID));
    v.push(rec(0x1F780, 0x1F7D4, AL));
    v.push(rec(0x1F7D5, 0x1F7FF, ID));
    v.push(rec(0x1F800, 0x1F80B, AL));
    v.push(rec(0x1F80C, 0x1F80F, ID));
    v.push(rec(0x1F810, 0x1F847, AL));
    v.push(rec(0x1F848, 0x1F84F, ID));
    v.push(rec(0x1F850, 0x1F859, AL));
    v.push(rec(0x1F85A, 0x1F85F, ID));
    v.push(rec(0x1F860, 0x1F887, AL));
    v.push(rec(0x1F888, 0x1F88F, ID));
    v.push(rec(0x1F890, 0x1F8AD, AL));
    v.push(rec(0x1F8AE, 0x1F8FF, ID));
    proof {
        assert(v@ =~= old(v)@ + records_part55());
    }
}

/// Append the records of [`records_part56`].
#[verifier::rlimit(100)]
#[verifier::spinoff_prover]
fn push_part56(v: &mut Vec<Record>)
    ensures
        final(v)@ == old(v)@ + records_part56(),
{
    v.push(rec(0x1F900, 0x1F90B, AL));
    v.push(rec(0x1F90C, 0x1F90C, EB));
    v.push(rec(0x1F90D, 0x1F90E, ID));
    v.push(rec(0x1F90F, 0x1F90F, EB));
    v.push(rec(0x1F910, 0x1F917, ID));
    v.push(rec(0x1F918, 0x1F91F, EB));
    v.push(rec(0x1F920, 0x1F925, ID));
    v.push(rec(0x1F926, 0x1F926, EB));
    v.push(rec(0x1F927, 0x1F92F, ID));
    v.push(rec(0x1F930, 0x1F939, EB));
    v.push(rec(0x1F93A, 0x1F93B, ID));
    v.push(rec(0x1F93C, 0x1F93E, EB));
    v.push(rec(0x1F93F, 0x1F976, ID));
    v.push(rec(0x1F977, 0x1F977, EB));
    v.push(rec(0x1F978, 0x1F9B4, ID));
    v.push(rec(0x1F9B5, 0x1F9B6, EB));
    v.push(rec(0x1F9B7, 0x1F9B7, ID));
    v.push(rec(0x1F9B8, 0x1F9B9, EB));
    v.push(rec(0x1F9BA, 0x1F9BA, ID));
    v.push(rec(0x1F9BB, 0x1F9BB, EB));
    v.push(rec(0x1F9BC, 0x1F9CC, ID));
    v.push(rec(0x1F9CD, 0x1F9CF, EB));
    v.push(rec(0x1F9D0, 0x1F9D0, ID));
    v.push(rec(0x1F9D1, 0x1F9DD, EB));
    v.push(rec(0x1F9DE, 0x1F9FF, ID));
    v.push(rec(0x1FA00, 0x1FA53, AL));
    v.push(rec(0x1FA54, 0x1FAC2, ID));
    v.push(rec(0x1FAC3, 0x1FAC5, EB));
    v.push(rec(0x1FAC6, 0x1FAEF, ID));
    v.push(rec(0x1FAF0, 0x1FAF6, EB));
    v.push(rec(0x1FAF7, 0x1FAFF, ID));
    v.push(rec(0x1FB00, 0x1FB92, AL));
    v.push(rec(0x1FB94, 0x1FBCA, AL));
    v.push(rec(0x1FBF0, 0x1FBF9, NU));
    v.push(rec(0x1FC00, 0x1FFFD, ID));
    v.push(rec(0x20000, 0x2FFFD, ID));
    v.push(rec(0x30000, 0x3FFFD, ID));
    v.push(rec(0xE0001, 0xE0001, CM));
    v.push(rec(0xE0020, 0xE007F, CM));
    v.push(rec(0xE0100, 0xE01EF, CM));
    proof {
        assert(v@ =~= old(v)@ + records_part56());
    }
}

/// Concatenating two sorted record lists whose ranges do not meet
/// yields a sorted list with the outer endpoints.
proof fn lemma_sorted_concat(a: Seq<Record>, b: Seq<Record>)
    requires
        records_sorted(a),
        records_sorted(b),
        a.len() > 0,
        b.len() > 0,
        a.last().end < b[0].start,
    ensures
        records_sorted(a + b),
        (a + b).len() == a.len() + b.len(),
        (a + b)[0] == a[0],
        (a + b).last() == b.last(),
{
    let c = a + b;
    assert forall|i: int|
        0 <= i < c.len() implies (#[trigger] c[i]).start <= c[i].end && c[i].end <= 0x10FFFF by {
        if i < a.len() {
            assert(c[i] == a[i]);
        } else {
            assert(c[i] == b[i - a.len()]);
        }
    }
    assert forall|i: int|
        #![trigger c[i], c[i + 1]]
        0 <= i && i + 1 < c.len() implies c[i].end < c[i + 1].start by {
        if i + 1 < a.len() {
            assert(c[i] == a[i]);
            assert(c[i + 1] == a[i + 1]);
            let x = a[i];
            let y = a[i + 1];
            assert(a[i].end < a[i + 1].start);
        } else if i + 1 == a.len() {
            assert(c[i] == a[i]);
            assert(c[i + 1] == b[0]);
            assert(a[i] == a.last());
        } else {
            let k = i - a.len();
            assert(c[i] == b[k]);
            assert(c[i + 1] == b[k + 1]);
            let x = b[k];
            let y = b[k + 1];
            assert(b[k].end < b[k + 1].start);
        }
    }
}

/// An earlier record of a sorted list ends before a later one starts.
proof fn lemma_sorted_separation(rs: Seq<Record>, i: int, j: int)
    requires
        records_sorted(rs),
        0 <= i < j < rs.len(),
    ensures
        rs[i].end < rs[j].start,
    decreases j - i,
{
    let k = j - 1;
    let a = rs[k];
    let b = rs[k + 1];
    assert(rs[k].end < rs[k + 1].start);
    if i < j - 1 {
        lemma_sorted_separation(rs, i, j - 1);
    }
}

/// The bundled record set is well-formed build input: every range is
/// ordered and within the code space, and the ranges ascend without
/// overlapping.
#[verifier::rlimit(100)]
#[verifier::spinoff_prover]
pub proof fn lemma_bundled_records_valid()
    ensures
        records_valid(bundled_records()),
        records_sorted(bundled_records()),
        bundled_records().len() == 2790,
{
    lemma_part1_sorted();
    lemma_part2_sorted();
    lemma_part3_sorted();
    lemma_part4_sorted();
    lemma_part5_sorted();
    lemma_part6_sorted();
    lemma_part7_sorted();
    lemma_part8_sorted();
    lemma_part9_sorted();
    lemma_part10_sorted();
    lemma_part11_sorted();
    lemma_part12_sorted();
    lemma_part13_sorted();
    lemma_part14_sorted();
    lemma_part15_sorted();
    lemma_part16_sorted();
    lemma_part17_sorted();
    lemma_part18_sorted();
    lemma_part19_sorted();
    lemma_part20_sorted();
    lemma_part21_sorted();
    lemma_part22_sorted();
    lemma_part23_sorted();
    lemma_part24_sorted();
    lemma_part25_sorted();
    lemma_part26_sorted();
    lemma_part27_sorted();
    lemma_part28_sorted();
    lemma_part29_sorted();
    lemma_part30_sorted();
    lemma_part31_sorted();
    lemma_part32_sorted();
    lemma_part33_sorted();
    lemma_part34_sorted();
    lemma_part35_sorted();
    lemma_part36_sorted();
    lemma_part37_sorted();
    lemma_part38_sorted();
    lemma_part39_sorted();
    lemma_part40_sorted();
    lemma_part41_sorted();
    lemma_part42_sorted();
    lemma_part43_sorted();
    lemma_part44_sorted();
    lemma_part45_sorted();
    lemma_part46_sorted();
    lemma_part47_sorted();
    lemma_part48_sorted();
    lemma_part49_sorted();
    lemma_part50_sorted();
    lemma_part51_sorted();
    lemma_part52_sorted();
    lemma_part53_sorted();
    lemma_part54_sorted();
    lemma_part55_sorted();
    lemma_part56_sorted();
    let g1 = records_part1();
    let g2 = g1 + records_part2();
    lemma_sorted_concat(g1, records_part2());
    let g3 = g2 + records_part3();
    lemma_sorted_concat(g2, records_part3());
    let g4 = g3 + records_part4();
    lemma_sorted_concat(g3, records_part4());
    let g5 = g4 + records_part5();
    lemma_sorted_concat(g4, records_part5());
    let g6 = g5 + records_part6();
    lemma_sorted_concat(g5, records_part6());
    let g7 = g6 + records_part7();
    lemma_sorted_concat(g6, records_part7());
    let g8 = g7 + records_part8();
    lemma_sorted_concat(g7, records_part8());
    let g9 = g8 + records_part9();
    lemma_sorted_concat(g8, records_part9());
    let g10 = g9 + records_part10();
    lemma_sorted_concat(g9, records_part10());
    let g11 = g10 + records_part11();
    lemma_sorted_concat(g10, records_part11());
    let g12 = g11 + records_part12();
    lemma_sorted_concat(g11, records_part12());
    let g13 = g12 + records_part13();
    lemma_sorted_concat(g12, records_part13());
    let g14 = g13 + records_part14();
    lemma_sorted_concat(g13, records_part14());
    let g15 = g14 + records_part15();
    lemma_sorted_concat(g14, records_part15());
    let g16 = g15 + records_part16();
    lemma_sorted_concat(g15, records_part16());
    let g17 = g16 + records_part17();
    lemma_sorted_concat(g16, records_part17());
    let g18 = g17 + records_part18();
    lemma_sorted_concat(g17, records_part18());
    let g19 = g18 + records_part19();
    lemma_sorted_concat(g18, records_part19());
    let g20 = g19 + records_part20();
    lemma_sorted_concat(g19, records_part20());
    let g21 = g20 + records_part21();
    lemma_sorted_concat(g20, records_part21());
    let g22 = g21 + records_part22();
    lemma_sorted_concat(g21, records_part22());
    let g23 = g22 + records_part23();
    lemma_sorted_concat(g22, records_part23());
    let g24 = g23 + records_part24();
    lemma_sorted_concat(g23, records_part24());
    let g25 = g24 + records_part25();
    lemma_sorted_concat(g24, records_part25());
    let g26 = g25 + records_part26();
    lemma_sorted_concat(g25, records_part26());
    let g27 = g26 + records_part27();
    lemma_sorted_concat(g26, records_part27());
    let g28 = g27 + records_part28();
    lemma_sorted_concat(g27, records_part28());
    let g29 = g28 + records_part29();
    lemma_sorted_concat(g28, records_part29());
    let g30 = g29 + records_part30();
    lemma_sorted_concat(g29, records_part30());
    let g31 = g30 + records_part31();
    lemma_sorted_concat(g30, records_part31());
    let g32 = g31 + records_part32();
    lemma_sorted_concat(g31, records_part32());
    let g33 = g32 + records_part33();
    lemma_sorted_concat(g32, records_part33());
    let g34 = g33 + records_part34();
    lemma_sorted_concat(g33, records_part34());
    let g35 = g34 + records_part35();
    lemma_sorted_concat(g34, records_part35());
    let g36 = g35 + records_part36();
    lemma_sorted_concat(g35, records_part36());
    let g37 = g36 + records_part37();
    lemma_sorted_concat(g36, records_part37());
    let g38 = g37 + records_part38();
    lemma_sorted_concat(g37, records_part38());
    let g39 = g38 + records_part39();
    lemma_sorted_concat(g38, records_part39());
    let g40 = g39 + records_part40();
    lemma_sorted_concat(g39, records_part40());
    let g41 = g40 + records_part41();
    lemma_sorted_concat(g40, records_part41());
    let g42 = g41 + records_part42();
    lemma_sorted_concat(g41, records_part42());
    let g43 = g42 + records_part43();
    lemma_sorted_concat(g42, records_part43());
    let g44 = g43 + records_part44();
    lemma_sorted_concat(g43, records_part44());
    let g45 = g44 + records_part45();
    lemma_sorted_concat(g44, records_part45());
    let g46 = g45 + records_part46();
    lemma_sorted_concat(g45, records_part46());
    let g47 = g46 + records_part47();
    lemma_sorted_concat(g46, records_part47());
    let g48 = g47 + records_part48();
    lemma_sorted_concat(g47, records_part48());
    let g49 = g48 + records_part49();
    lemma_sorted_concat(g48, records_part49());
    let g50 = g49 + records_part50();
    lemma_sorted_concat(g49, records_part50());
    let g51 = g50 + records_part51();
    lemma_sorted_concat(g50, records_part51());
    let g52 = g51 + records_part52();
    lemma_sorted_concat(g51, records_part52());
    let g53 = g52 + records_part53();
    lemma_sorted_concat(g52, records_part53());
    let g54 = g53 + records_part54();
    lemma_sorted_concat(g53, records_part54());
    let g55 = g54 + records_part55();
    lemma_sorted_concat(g54, records_part55());
    let g56 = g55 + records_part56();
    lemma_sorted_concat(g55, records_part56());
    let rs = bundled_records();
    assert(rs == g56);
    assert forall|i: int, j: int|
        0 <= i < j < rs.len() implies (#[trigger] rs[i]).end < (#[trigger] rs[j]).start by {
        lemma_sorted_separation(rs, i, j);
    }
}

/// The bundled records classify the line feed as LineFeed: its record is
/// the third one.
pub proof fn lemma_newline_class()
    ensures
        rec_class(bundled_records(), 0x0A) == BreakClass::LineFeed,
{
    lemma_bundled_records_valid();
    lemma_part1_sorted();
    let rs = bundled_records();
    assert(rs[2] == records_part1()[2]);
    assert(records_part1()[2] == rec(0x000A, 0x000A, LF));
    lemma_rec_class_hit(rs, 2, 0x0A);
}

/// Build the bundled record list of [`bundled_records`].
pub fn default_records() -> (r: Vec<Record>)
    ensures
        r@ == bundled_records(),
{
    let mut v: Vec<Record> = Vec::new();
    push_part1(&mut v);
    proof {
        assert(v@ =~= records_part1());
    }
    push_part2(&mut v);
    push_part3(&mut v);
    push_part4(&mut v);
    push_part5(&mut v);
    push_part6(&mut v);
    push_part7(&mut v);
    push_part8(&mut v);
    push_part9(&mut v);
    push_part10(&mut v);
    push_part11(&mut v);
    push_part12(&mut v);
    push_part13(&mut v);
    push_part14(&mut v);
    push_part15(&mut v);
    push_part16(&mut v);
    push_part17(&mut v);
    push_part18(&mut v);
    push_part19(&mut v);
    push_part20(&mut v);
    push_part21(&mut v);
    push_part22(&mut v);
    push_part23(&mut v);
    push_part24(&mut v);
    push_part25(&mut v);
    push_part26(&mut v);
    push_part27(&mut v);
    push_part28(&mut v);
    push_part29(&mut v);
    push_part30(&mut v);
    push_part31(&mut v);
    push_part32(&mut v);
    push_part33(&mut v);
    push_part34(&mut v);
    push_part35(&mut v);
    push_part36(&mut v);
    push_part37(&mut v);
    push_part38(&mut v);
    push_part39(&mut v);
    push_part40(&mut v);
    push_part41(&mut v);
    push_part42(&mut v);
    push_part43(&mut v);
    push_part44(&mut v);
    push_part45(&mut v);
    push_part46(&mut v);
    push_part47(&mut v);
    push_part48(&mut v);
    push_part49(&mut v);
    push_part50(&mut v);
    push_part51(&mut v);
    push_part52(&mut v);
    push_part53(&mut v);
    push_part54(&mut v);
    push_part55(&mut v);
    push_part56(&mut v);
    proof {
        assert(v@ =~= bundled_records());
    }
    v
}

} // verus!
