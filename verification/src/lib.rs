//! The Unicode line-breaking algorithm (UAX #14): given text, report the
//! positions where a line may or must wrap.
//!
//! The library has three parts.  A property classifier maps a code point
//! to one of 43 break classes through a compact paged table, built from
//! ranged records with fixed defaults for the gaps.  A rule compiler turns
//! an ordered rule list into a pair-transition table over the classes plus
//! a few synthetic memory states; later rules overwrite earlier decisions
//! on overlapping cells.  A scanner classifies each code point of the
//! input and drives the pair table from the start-of-text state, emitting
//! a break opportunity wherever the current cell allows one.
//!
//! The tailoring is fixed: Complex-Context Dependent characters resolve to
//! Ordinary Alphabetic and Symbol Characters regardless of General_Category.

use vstd::prelude::*;

pub mod classes;
pub mod pair;
pub mod parse;
pub mod property;
pub mod records;
pub mod rules;
pub mod scanner;

use crate::classes::EOT;
use crate::classes::ZWJ;
use crate::classes::class_index;
use crate::pair::PairTable;
use crate::pair::allowed_of;
use crate::pair::cell_ok;
use crate::pair::mandatory_of;
use crate::pair::next_of;
use crate::pair::table_after;
use crate::property::PropertyTable;
use crate::property::build_property_table;
use crate::property::rec_class;
use crate::records::bundled_records;
use crate::records::default_records;
use crate::records::lemma_bundled_records_valid;
use crate::rules::default_rules;
use crate::rules::lemma_default_rules_valid;
use crate::rules::uax_rules;
use crate::scanner::byte_offset;
use crate::scanner::lemma_byte_offset_le;
use crate::scanner::lemma_byte_offset_step;
use crate::scanner::lemma_scan_at_index;
use crate::scanner::lemma_scan_monotonic;
use crate::scanner::lemma_scan_trailing;
use crate::scanner::lemma_state_from_bounds;
use crate::scanner::offsets_of;
use crate::scanner::prop_classes;
use crate::scanner::scan_from;
use crate::scanner::scan_text;
use crate::scanner::spec_scan_text;
use crate::scanner::state_from;
use vstd::utf8::encode_scalar;

verus! {

pub use crate::classes::BreakClass;
pub use crate::scanner::BreakOpportunity;

/// The [Unicode version](https://www.unicode.org/versions/) conformed to:
/// the version of the Line_Break data the bundled records carry.
pub const UNICODE_VERSION: (u64, u64, u64) = (14, 0, 0);

/// The class indices the bundled records give the text's characters.
pub open spec fn text_classes(s: Seq<char>) -> Seq<u8> {
    Seq::new(s.len(), |k: int| class_index(rec_class(bundled_records(), (s[k] as u32) as int)))
}

/// What [`linebreaks`] returns: the scan of the text classified by the
/// bundled records, against the table the default rule list compiles to.
pub open spec fn spec_linebreaks(s: Seq<char>) -> Seq<(usize, BreakOpportunity)> {
    spec_scan_text(table_after(uax_rules()), text_classes(s), offsets_of(s))
}

/// The two tables of the algorithm, built once and read by every scan.
pub struct LineBreaker {
    /// The paged character-class table, from the bundled records.
    pub property: PropertyTable,
    /// The compiled and checked pair table, from the default rule list.
    pub pairs: PairTable,
}

impl LineBreaker {
    /// The tables model the bundled records and the default rule list.
    pub open spec fn wf(self) -> bool {
        &&& self.property.wf()
        &&& self.pairs.wf()
        &&& forall|cp: int|
            #![trigger self.property.lookup(cp)]
            self.property.lookup(cp) == class_index(rec_class(bundled_records(), cp))
        &&& self.pairs@ == table_after(uax_rules())
    }

    /// Build both tables from the bundled data.  The bundled records and
    /// the default rule list are proven well formed and the compiled
    /// table proven to pass every cell check, so construction cannot
    /// fail.
    pub fn new() -> (r: LineBreaker)
        ensures
            r.wf(),
    {
        proof {
            lemma_bundled_records_valid();
            lemma_default_rules_valid();
            crate::rules::lemma_default_table_checks();
        }
        let recs = default_records();
        let rules = default_rules();
        let property = match build_property_table(&recs) {
            Some(p) => p,
            None => {
                proof {
                    assert(false);
                }
                unreached()
            },
        };
        let pairs = match PairTable::from_rules(&rules) {
            Some(t) => t,
            None => {
                proof {
                    assert(false);
                }
                unreached()
            },
        };
        LineBreaker { property, pairs }
    }

    /// Returns the line break property of the specified code point.
    pub fn break_property(&self, codepoint: u32) -> (r: BreakClass)
        requires
            self.wf(),
        ensures
            r == rec_class(bundled_records(), codepoint as int),
    {
        let r = self.property.class_of(codepoint);
        proof {
            crate::classes::lemma_class_index_bijective(r);
            crate::classes::lemma_class_index_bijective(
                rec_class(bundled_records(), codepoint as int),
            );
        }
        r
    }

    /// Returns the line break opportunities in the specified string, as
    /// pairs of the byte index of the character succeeding the break and
    /// the break's kind, in ascending order.
    pub fn linebreaks(&self, s: &str) -> (r: Vec<(usize, BreakOpportunity)>)
        requires
            self.wf(),
        ensures
            r@ == spec_linebreaks(s@),
    {
        let r = scan_text(&self.property, &self.pairs, s);
        proof {
            assert(prop_classes(self.property, s@) =~= text_classes(s@));
        }
        r
    }
}

/// Returns the line break property of the specified code point, total
/// over every `u32`: unmapped values resolve to their block default and
/// values beyond the code space to Unknown.
pub fn break_property(codepoint: u32) -> (r: BreakClass)
    ensures
        r == rec_class(bundled_records(), codepoint as int),
{
    proof {
        lemma_bundled_records_valid();
    }
    let recs = default_records();
    match build_property_table(&recs) {
        Some(p) => {
            let r = p.class_of(codepoint);
            proof {
                crate::classes::lemma_class_index_bijective(r);
                crate::classes::lemma_class_index_bijective(
                    rec_class(bundled_records(), codepoint as int),
                );
            }
            r
        },
        None => {
            proof {
                assert(false);
            }
            BreakClass::Unknown
        },
    }
}

/// Returns the line break opportunities in the specified string.
///
/// Break opportunities are given as tuples of the byte index of the
/// character succeeding the break and the type.
///
/// Builds the two tables from the bundled data on each call; to scan many
/// texts, build one [`LineBreaker`] and reuse it.
pub fn linebreaks(s: &str) -> (r: Vec<(usize, BreakOpportunity)>)
    ensures
        r@ == spec_linebreaks(s@),
{
    LineBreaker::new().linebreaks(s)
}

/// The classified elements of a text are classes, and the end-of-text
/// element stays in column range.
proof fn lemma_full_classes_valid(s: Seq<char>)
    ensures
        forall|q: int|
            0 <= q < text_classes(s).push(EOT).len() ==> (#[trigger] text_classes(s).push(EOT)[q])
                < 44,
{
    let full = text_classes(s).push(EOT);
    assert forall|q: int| 0 <= q < full.len() implies (#[trigger] full[q]) < 44 by {
        if q < s.len() {
            crate::classes::lemma_class_index_bijective(
                rec_class(bundled_records(), (s[q] as u32) as int),
            );
        }
    }
}

/// The element offsets of a text ascend strictly and stay within its
/// byte length.
proof fn lemma_offsets_strict(s: Seq<char>)
    requires
        byte_offset(s, s.len() as int) <= usize::MAX,
    ensures
        forall|i: int, j: int|
            0 <= i < j < offsets_of(s).len() ==> #[trigger] offsets_of(s)[i] < #[trigger] offsets_of(
                s,
            )[j],
        forall|k: int|
            0 <= k < offsets_of(s).len() ==> 0 <= (#[trigger] offsets_of(s)[k]) <= usize::MAX,
{
    assert forall|i: int, j: int|
        0 <= i < j < offsets_of(s).len() implies #[trigger] offsets_of(s)[i]
        < #[trigger] offsets_of(s)[j] by {
        lemma_byte_offset_strict(s, i, j);
    }
    assert forall|k: int|
        0 <= k < offsets_of(s).len() implies 0 <= (#[trigger] offsets_of(s)[k]) <= usize::MAX by {
        lemma_byte_offset_le(s, 0, k);
        lemma_byte_offset_le(s, k, s.len() as int);
    }
}

/// Later characters sit at strictly larger byte offsets.
proof fn lemma_byte_offset_strict(s: Seq<char>, i: int, j: int)
    requires
        0 <= i < j <= s.len(),
    ensures
        byte_offset(s, i) < byte_offset(s, j),
    decreases j - i,
{
    lemma_byte_offset_step(s, j - 1);
    if i < j - 1 {
        lemma_byte_offset_strict(s, i, j - 1);
    }
}

/// Trailing-mandatory: for any non-empty text the scan reports at least
/// one opportunity, and its last one is a mandatory break at the text's
/// byte length.
pub proof fn lemma_trailing_mandatory(s: Seq<char>)
    requires
        s.len() > 0,
        byte_offset(s, s.len() as int) <= usize::MAX,
    ensures
        spec_linebreaks(s).len() >= 1,
        spec_linebreaks(s).last() == (
            (byte_offset(s, s.len() as int) as usize),
            BreakOpportunity::Mandatory,
        ),
{
    crate::rules::lemma_default_table_checks();
    let t = table_after(uax_rules());
    let full = text_classes(s).push(EOT);
    let offs = offsets_of(s);
    lemma_full_classes_valid(s);
    lemma_offsets_strict(s);
    assert(full.last() == EOT);
    lemma_scan_trailing(t, full, offs, 44, false);
}

/// Monotonic offsets, and none at offset zero: the scan's opportunities
/// ascend strictly, and every one of them sits after the first character.
pub proof fn lemma_offsets_monotonic(s: Seq<char>)
    requires
        byte_offset(s, s.len() as int) <= usize::MAX,
    ensures
        forall|i: int, j: int|
            0 <= i < j < spec_linebreaks(s).len() ==> (#[trigger] spec_linebreaks(s)[i]).0 < (
            #[trigger] spec_linebreaks(s)[j]).0,
        forall|i: int| 0 <= i < spec_linebreaks(s).len() ==> (#[trigger] spec_linebreaks(s)[i]).0
            > 0,
{
    crate::rules::lemma_default_table_checks();
    let t = table_after(uax_rules());
    let full = text_classes(s).push(EOT);
    let offs = offsets_of(s);
    lemma_full_classes_valid(s);
    lemma_offsets_strict(s);
    lemma_scan_monotonic(t, full, offs, 44, false);
    let r = spec_linebreaks(s);
    let cell = t[44][full[0] as int];
    assert(cell_ok(t[44][full[0] as int], 44, full[0] as int));
    assert(!allowed_of(cell));
    let rest = scan_from(
        t,
        full.drop_first(),
        offs.drop_first(),
        next_of(cell) as int,
        full[0] == ZWJ,
    );
    assert(r == rest);
    let tail_cls = full.drop_first();
    let tail_offs = offs.drop_first();
    assert forall|q: int| 0 <= q < tail_cls.len() implies (#[trigger] tail_cls[q]) < 44 by {
        assert(tail_cls[q] == full[q + 1]);
    }
    assert forall|a: int, b: int|
        0 <= a < b < tail_cls.len() implies #[trigger] tail_offs[a] < #[trigger] tail_offs[b] by {
        assert(offs[a + 1] < offs[b + 1]);
    }
    assert forall|q: int|
        0 <= q < tail_cls.len() implies 0 <= (#[trigger] tail_offs[q]) <= usize::MAX by {
        assert(tail_offs[q] == offs[q + 1]);
    }
    lemma_scan_monotonic(t, tail_cls, tail_offs, next_of(cell) as int, full[0] == ZWJ);
    assert forall|i: int| 0 <= i < r.len() implies (#[trigger] r[i]).0 > 0 by {
        if tail_cls.len() > 0 {
            assert(tail_offs[0] == offs[1]);
            assert(offs[0] < offs[1]);
            assert(offs[0] == byte_offset(s, 0));
            assert(s.take(0) =~= Seq::<char>::empty());
            assert(r[i].0 >= tail_offs[0]);
        }
    }
}

/// The pair-table cell the default scan reads at element `k` of the text:
/// element `s.len()` is the virtual end-of-text element.
pub open spec fn default_cell_at(s: Seq<char>, k: int) -> u8 {
    let t = table_after(uax_rules());
    let full = text_classes(s).push(EOT);
    t[state_from(t, full, 44, k)][full[k] as int]
}

/// Joiner suppression: at an element standing immediately after a
/// zero-width joiner, an optional break is suppressed — nothing is
/// reported at its offset — while a mandatory one is still reported.
pub proof fn lemma_joiner_suppression(s: Seq<char>, k: int)
    requires
        byte_offset(s, s.len() as int) <= usize::MAX,
        1 <= k <= s.len(),
        text_classes(s)[k - 1] == ZWJ,
    ensures
        !mandatory_of(default_cell_at(s, k)) ==> forall|kd: BreakOpportunity|
            !(#[trigger] spec_linebreaks(s).contains(((byte_offset(s, k) as usize), kd))),
        mandatory_of(default_cell_at(s, k)) ==> spec_linebreaks(s).contains(
            ((byte_offset(s, k) as usize), BreakOpportunity::Mandatory),
        ),
{
    crate::rules::lemma_default_table_checks();
    let t = table_after(uax_rules());
    let full = text_classes(s).push(EOT);
    let offs = offsets_of(s);
    lemma_full_classes_valid(s);
    lemma_offsets_strict(s);
    lemma_scan_at_index(t, full, offs, 44, false, k);
    lemma_state_from_bounds(t, full, 44, k);
    let c = default_cell_at(s, k);
    assert(cell_ok(
        t[state_from(t, full, 44, k)][full[k] as int],
        state_from(t, full, 44, k),
        full[k] as int,
    ));
    assert(full[k - 1] == ZWJ);
    assert(offs[k] == byte_offset(s, k));
    if mandatory_of(c) {
        assert(allowed_of(c));
    }
}

/// Lines holding only line feeds: a text of line feeds reports one
/// mandatory break immediately after each of them, and one at its end.
pub proof fn lemma_newline_runs(s: Seq<char>)
    requires
        s.len() >= 1,
        s.len() < usize::MAX,
        forall|k: int| 0 <= k < s.len() ==> s[k] == '\n',
    ensures
        spec_linebreaks(s) =~= Seq::new(
            s.len(),
            |k: int| (((k + 1) as usize), BreakOpportunity::Mandatory),
        ),
{
    crate::rules::lemma_default_table_checks();
    let t = table_after(uax_rules());
    let full = text_classes(s).push(EOT);
    let offs = offsets_of(s);
    crate::records::lemma_newline_class();
    assert forall|k: int| 0 <= k < s.len() implies full[k] == crate::classes::LF by {
        assert((s[k] as u32) == 10);
    }
    assert forall|k: int| 0 <= k <= s.len() implies offs[k] == k by {
        lemma_newline_offsets(s, k);
    }
    let cell = t[44][full[0] as int];
    assert(cell_ok(t[44][full[0] as int], 44, full[0] as int));
    assert(!allowed_of(cell));
    assert(next_of(cell) == 2);
    let tail_cls = full.drop_first();
    let tail_offs = offs.drop_first();
    assert(tail_cls.last() == full.last());
    assert forall|k: int|
        0 <= k < tail_cls.len() - 1 implies (#[trigger] tail_cls[k]) == crate::classes::LF by {
        assert(tail_cls[k] == full[k + 1]);
    }
    assert forall|k: int|
        0 <= k < tail_cls.len() implies 0 <= (#[trigger] tail_offs[k]) <= usize::MAX by {
        assert(tail_offs[k] == offs[k + 1]);
    }
    crate::scanner::lemma_scan_newline_run(t, tail_cls, tail_offs, full[0] == ZWJ);
    let r = spec_linebreaks(s);
    assert(r == scan_from(t, tail_cls, tail_offs, 2, full[0] == ZWJ));
    assert forall|k: int|
        0 <= k < r.len() implies r[k] == (((k + 1) as usize), BreakOpportunity::Mandatory) by {
        assert(tail_offs[k] == offs[k + 1]);
    }
}

/// In a text of line feeds every character is one byte long.
proof fn lemma_newline_offsets(s: Seq<char>, k: int)
    requires
        0 <= k <= s.len(),
        forall|q: int| 0 <= q < s.len() ==> s[q] == '\n',
    ensures
        byte_offset(s, k) == k,
    decreases k,
{
    if k == 0 {
        assert(s.take(0) =~= Seq::<char>::empty());
    } else {
        lemma_newline_offsets(s, k - 1);
        lemma_byte_offset_step(s, k - 1);
        assert((s[k - 1] as u32) == 10);
        assert(encode_scalar(10u32).len() == 1);
    }
}

} // verus!
