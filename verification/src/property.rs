//! The property classifier: a paged lookup from code point to break class.
//!
//! The table is built from ascending, non-overlapping ranged records.  Every
//! code point a record covers gets that record's class; every gap gets a
//! fixed default (CJK-ideograph blocks and the supplementary ideographic
//! planes default to Ideographic, the currency block to Prefix, everything
//! else to Unknown).  The filled sequence is cut into 256-entry pages; a
//! page whose entries all agree collapses to a uniform sentinel, the others
//! are stored once and selected through an index array.

use vstd::prelude::*;

use crate::classes::BreakClass;
use crate::classes::class_index;
use crate::classes::index_of_class;
use crate::classes::lemma_class_index_bijective;

verus! {

/// One ranged record of the build input: the code points `start..=end` all
/// have class `class`.
#[derive(Copy, Clone, PartialEq, Eq, Debug, Structural)]
pub struct Record {
    /// First code point of the range.
    pub start: u32,
    /// Last code point of the range, inclusive.
    pub end: u32,
    /// The class of every code point in the range.
    pub class: BreakClass,
}

/// The largest code point a record may cover.
pub const MAX_CODEPOINT: u32 = 0x10FFFF;

/// How many code points the table covers.
pub const CODEPOINT_COUNT: usize = 0x110000;

/// How many 256-entry pages the table has.
pub const PAGE_COUNT: usize = 0x1100;

/// The class an unmapped code point defaults to.
///
/// The unassigned code points of the CJK-ideograph blocks, of Planes 2
/// and 3, and of the Plane-1 range 0x1F000..=0x1FFFD default to
/// Ideographic; the currency block 0x20A0..=0x20CF defaults to Prefix;
/// everything else defaults to Unknown.
pub open spec fn spec_default_class(cp: int) -> BreakClass {
    if 0x3400 <= cp <= 0x4DBF || 0x4E00 <= cp <= 0x9FFF || 0xF900 <= cp <= 0xFAFF {
        BreakClass::Ideographic
    } else if 0x20000 <= cp <= 0x2FFFD || 0x30000 <= cp <= 0x3FFFD {
        BreakClass::Ideographic
    } else if 0x1F000 <= cp <= 0x1FFFD {
        BreakClass::Ideographic
    } else if 0x20A0 <= cp <= 0x20CF {
        BreakClass::Prefix
    } else {
        BreakClass::Unknown
    }
}

/// Executable twin of [`spec_default_class`].
pub fn default_class(cp: u32) -> (r: BreakClass)
    ensures
        r == spec_default_class(cp as int),
{
    if (0x3400 <= cp && cp <= 0x4DBF) || (0x4E00 <= cp && cp <= 0x9FFF) || (0xF900 <= cp
        && cp <= 0xFAFF) {
        BreakClass::Ideographic
    } else if (0x20000 <= cp && cp <= 0x2FFFD) || (0x30000 <= cp && cp <= 0x3FFFD) {
        BreakClass::Ideographic
    } else if 0x1F000 <= cp && cp <= 0x1FFFD {
        BreakClass::Ideographic
    } else if 0x20A0 <= cp && cp <= 0x20CF {
        BreakClass::Prefix
    } else {
        BreakClass::Unknown
    }
}

/// Well-formed build input: each range is ordered and within the code
/// space, and the ranges ascend without overlapping.
pub open spec fn records_valid(rs: Seq<Record>) -> bool {
    &&& forall|i: int|
        0 <= i < rs.len() ==> (#[trigger] rs[i]).start <= rs[i].end && rs[i].end <= 0x10FFFF
    &&& forall|i: int, j: int|
        0 <= i < j < rs.len() ==> (#[trigger] rs[i]).end < (#[trigger] rs[j]).start
}

/// The class the records give a code point: the class of the record whose
/// range covers it, or the default where none does.
pub open spec fn rec_class(rs: Seq<Record>, cp: int) -> BreakClass
    decreases rs.len(),
{
    if rs.len() == 0 {
        spec_default_class(cp)
    } else if rs[0].start <= cp <= rs[0].end {
        rs[0].class
    } else {
        rec_class(rs.drop_first(), cp)
    }
}

/// A slot of the page index: either every code point of the page shares one
/// class, or the slot selects a stored page.
#[derive(Copy, Clone, PartialEq, Eq, Debug, Structural)]
pub enum PageEntry {
    /// The whole page has this class.
    Uniform(u8),
    /// The page is stored at this position of the page list.
    Indexed(usize),
}

/// The paged class table.  Build it once with [`build_property_table`];
/// lookups are then two array reads at most.
pub struct PropertyTable {
    /// One entry per 256-code-point page.
    pub index: Vec<PageEntry>,
    /// The non-uniform pages, each of 256 class indices.
    pub pages: Vec<Vec<u8>>,
}

impl PropertyTable {
    /// Structural soundness: the index covers the whole code space, every
    /// slot points into the page list, and every stored entry is a class
    /// index.
    pub open spec fn wf(self) -> bool {
        &&& self.index@.len() == PAGE_COUNT
        &&& forall|k: int|
            0 <= k < self.index@.len() ==> match #[trigger] self.index@[k] {
                PageEntry::Uniform(c) => c < 43,
                PageEntry::Indexed(p) => p < self.pages@.len(),
            }
        &&& forall|p: int|
            0 <= p < self.pages@.len() ==> (#[trigger] self.pages@[p])@.len() == 256
        &&& forall|p: int, j: int|
            0 <= p < self.pages@.len() && 0 <= j < 256 ==> (#[trigger] self.pages@[p]@[j]) < 43
    }

    /// The class index the table stores for a code point; code points
    /// beyond the table resolve to Unknown.
    pub open spec fn lookup(self, cp: int) -> u8 {
        if 0 <= cp < CODEPOINT_COUNT {
            match self.index@[cp / 256] {
                PageEntry::Uniform(c) => c,
                PageEntry::Indexed(p) => self.pages@[p as int]@[cp % 256],
            }
        } else {
            42
        }
    }

    /// Read the class index of a code point.
    pub fn class_index_of(&self, cp: u32) -> (r: u8)
        requires
            self.wf(),
        ensures
            r == self.lookup(cp as int),
            r < 43,
    {
        if cp <= 0x10FFFF {
            let page: usize = (cp / 256) as usize;
            let entry = self.index[page];
            match entry {
                PageEntry::Uniform(c) => c,
                PageEntry::Indexed(p) => self.pages[p][(cp % 256) as usize],
            }
        } else {
            42
        }
    }

    /// Read the break class of a code point.
    pub fn class_of(&self, cp: u32) -> (r: BreakClass)
        requires
            self.wf(),
        ensures
            class_index(r) == self.lookup(cp as int),
    {
        let i = self.class_index_of(cp);
        let r = crate::classes::class_of_index(i);
        match r {
            Some(c) => {
                proof {
                    lemma_index_roundtrip(i);
                }
                c
            },
            None => {
                proof {
                    assert(false);
                }
                BreakClass::Unknown
            },
        }
    }
}

/// Converting a valid index to a class and back yields the index again.
proof fn lemma_index_roundtrip(i: u8)
    requires
        i < 43,
    ensures
        crate::classes::spec_class_of_index(i) matches Some(c) && class_index(c) == i,
{
}

/// A suffix of a valid record list is valid.
proof fn lemma_valid_drop_first(rs: Seq<Record>)
    requires
        records_valid(rs),
        rs.len() > 0,
    ensures
        records_valid(rs.drop_first()),
{
    let tail = rs.drop_first();
    assert forall|i: int| 0 <= i < tail.len() implies (#[trigger] tail[i]).start <= tail[i].end
        && tail[i].end <= 0x10FFFF by {
        assert(tail[i] == rs[i + 1]);
    }
    assert forall|i: int, j: int|
        0 <= i < j < tail.len() implies (#[trigger] tail[i]).end < (#[trigger] tail[j]).start by {
        assert(tail[i] == rs[i + 1]);
        assert(tail[j] == rs[j + 1]);
    }
}

/// A code point inside a record's range gets that record's class.
pub proof fn lemma_rec_class_hit(rs: Seq<Record>, i: int, cp: int)
    requires
        records_valid(rs),
        0 <= i < rs.len(),
        rs[i].start <= cp <= rs[i].end,
    ensures
        rec_class(rs, cp) == rs[i].class,
    decreases i,
{
    if i == 0 {
    } else {
        lemma_valid_drop_first(rs);
        assert(rs.drop_first()[i - 1] == rs[i]);
        lemma_rec_class_hit(rs.drop_first(), i - 1, cp);
    }
}

/// A code point outside every range gets the default class.
proof fn lemma_rec_class_miss(rs: Seq<Record>, cp: int)
    requires
        records_valid(rs),
        forall|i: int| 0 <= i < rs.len() ==> !((#[trigger] rs[i]).start <= cp <= rs[i].end),
    ensures
        rec_class(rs, cp) == spec_default_class(cp),
    decreases rs.len(),
{
    if rs.len() == 0 {
    } else {
        lemma_valid_drop_first(rs);
        assert forall|i: int|
            0 <= i < rs.drop_first().len() implies !((#[trigger] rs.drop_first()[i]).start <= cp
            <= rs.drop_first()[i].end) by {
            assert(rs.drop_first()[i] == rs[i + 1]);
        }
        lemma_rec_class_miss(rs.drop_first(), cp);
    }
}

/// Check that a record list is well-formed build input.
pub fn check_records(records: &Vec<Record>) -> (r: bool)
    ensures
        r == records_valid(records@),
{
    let n = records.len();
    let mut i: usize = 0;
    while i < n
        invariant
            i <= n,
            n == records@.len(),
            forall|k: int|
                0 <= k < i ==> (#[trigger] records@[k]).start <= records@[k].end
                    && records@[k].end <= 0x10FFFF,
            forall|j: int, k: int|
                0 <= j < k < i ==> (#[trigger] records@[j]).end < (#[trigger] records@[k]).start,
        decreases n - i,
    {
        let rec = records[i];
        if !(rec.start <= rec.end && rec.end <= 0x10FFFF) {
            return false;
        }
        if i > 0 {
            if !(records[i - 1].end < rec.start) {
                return false;
            }
        }
        proof {
            assert forall|j: int, k: int|
                0 <= j < k < i + 1 implies (#[trigger] records@[j]).end < (
            #[trigger] records@[k]).start by {
                if k == i && j < i - 1 {
                    assert(records@[j].end < records@[i - 1].start);
                }
            }
        }
        i += 1;
    }
    true
}

/// Build the paged table from ranged records.
///
/// Succeeds exactly on well-formed input (see [`records_valid`]); the table
/// then resolves every code point to the class [`rec_class`] gives it.
pub fn build_property_table(records: &Vec<Record>) -> (r: Option<PropertyTable>)
    ensures
        r is Some <==> records_valid(records@),
        r matches Some(t) ==> t.wf() && forall|cp: int|
            #![trigger t.lookup(cp)]
            t.lookup(cp) == class_index(rec_class(records@, cp)),
{
    if !check_records(records) {
        return None;
    }
    let flat = fill_flat(records);
    proof {
        assert forall|k: int| 0 <= k < flat@.len() implies (#[trigger] flat@[k]) < 43 by {
            lemma_class_index_bijective(rec_class(records@, k));
        }
    }
    let t = paginate(&flat);
    proof {
        assert forall|cp: int| #![trigger t.lookup(cp)] t.lookup(cp) == class_index(
            rec_class(records@, cp),
        ) by {
            if 0 <= cp < CODEPOINT_COUNT {
            } else {
                assert forall|i: int|
                    0 <= i < records@.len() implies !((#[trigger] records@[i]).start <= cp
                    <= records@[i].end) by {}
                lemma_rec_class_miss(records@, cp);
                lemma_class_index_bijective(BreakClass::Unknown);
            }
        }
    }
    Some(t)
}

/// Fill one flat class value per code point: records where they cover,
/// defaults in the gaps.
fn fill_flat(records: &Vec<Record>) -> (flat: Vec<u8>)
    requires
        records_valid(records@),
    ensures
        flat@.len() == CODEPOINT_COUNT,
        forall|k: int|
            0 <= k < flat@.len() ==> (#[trigger] flat@[k]) == class_index(
                rec_class(records@, k),
            ),
{
    let rs = records;
    let n = rs.len();
    let mut flat: Vec<u8> = Vec::new();
    let mut ri: usize = 0;
    while ri < n
        invariant
            records_valid(rs@),
            n == rs@.len(),
            ri <= n,
            flat@.len() == if ri == 0 {
                0int
            } else {
                rs@[ri - 1].end + 1
            },
            forall|k: int|
                0 <= k < flat@.len() ==> (#[trigger] flat@[k]) == class_index(
                    rec_class(rs@, k),
                ),
        decreases n - ri,
    {
        let rec = rs[ri];
        proof {
            if ri > 0 {
                assert(rs@[ri - 1].end < rs@[ri as int].start);
            }
        }
        while flat.len() < rec.start as usize
            invariant
                records_valid(rs@),
                n == rs@.len(),
                ri < n,
                rec == rs@[ri as int],
                flat@.len() <= rec.start,
                ri > 0 ==> flat@.len() >= rs@[ri - 1].end + 1,
                forall|k: int|
                    0 <= k < flat@.len() ==> (#[trigger] flat@[k]) == class_index(
                        rec_class(rs@, k),
                    ),
            decreases rec.start - flat.len(),
        {
            let cp = flat.len();
            proof {
                assert forall|i: int|
                    0 <= i < rs@.len() implies !((#[trigger] rs@[i]).start <= cp
                    <= rs@[i].end) by {
                    if i < ri {
                        assert(rs@[i].end <= rs@[ri - 1].end);
                    } else if i > ri {
                        assert(rs@[ri as int].end < rs@[i].start);
                    }
                }
                lemma_rec_class_miss(rs@, cp as int);
            }
            let c = default_class(cp as u32);
            proof {
                lemma_class_index_bijective(c);
            }
            flat.push(index_of_class(c));
        }
        while flat.len() <= rec.end as usize
            invariant
                records_valid(rs@),
                n == rs@.len(),
                ri < n,
                rec == rs@[ri as int],
                rec.start <= flat@.len() <= rec.end + 1,
                forall|k: int|
                    0 <= k < flat@.len() ==> (#[trigger] flat@[k]) == class_index(
                        rec_class(rs@, k),
                    ),
            decreases rec.end + 1 - flat.len(),
        {
            let cp = flat.len();
            proof {
                lemma_rec_class_hit(rs@, ri as int, cp as int);
                lemma_class_index_bijective(rec.class);
            }
            flat.push(index_of_class(rec.class));
        }
        ri += 1;
    }
    while flat.len() < CODEPOINT_COUNT
        invariant
            records_valid(rs@),
            n == rs@.len(),
            flat@.len() <= CODEPOINT_COUNT,
            n > 0 ==> flat@.len() >= rs@[n - 1].end + 1,
            forall|k: int|
                0 <= k < flat@.len() ==> (#[trigger] flat@[k]) == class_index(
                    rec_class(rs@, k),
                ),
        decreases CODEPOINT_COUNT - flat.len(),
    {
        let cp = flat.len();
        proof {
            assert forall|i: int|
                0 <= i < rs@.len() implies !((#[trigger] rs@[i]).start <= cp <= rs@[i].end) by {
                if i < n - 1 {
                    assert(rs@[i].end < rs@[n - 1].start);
                }
            }
            lemma_rec_class_miss(rs@, cp as int);
        }
        let c = default_class(cp as u32);
        proof {
            lemma_class_index_bijective(c);
        }
        flat.push(index_of_class(c));
    }
    flat
}

/// Cut the flat class sequence into pages, collapsing uniform ones.
fn paginate(flat: &Vec<u8>) -> (t: PropertyTable)
    requires
        flat@.len() == CODEPOINT_COUNT,
        forall|k: int| 0 <= k < flat@.len() ==> (#[trigger] flat@[k]) < 43,
    ensures
        t.wf(),
        forall|cp: int|
            0 <= cp < CODEPOINT_COUNT ==> #[trigger] t.lookup(cp) == flat@[cp],
{
    let mut index: Vec<PageEntry> = Vec::new();
    let mut pages: Vec<Vec<u8>> = Vec::new();
    let mut pg: usize = 0;
    while pg < PAGE_COUNT
        invariant
            flat@.len() == CODEPOINT_COUNT,
            forall|k: int| 0 <= k < flat@.len() ==> (#[trigger] flat@[k]) < 43,
            pg <= PAGE_COUNT,
            index@.len() == pg,
            forall|k: int|
                0 <= k < pg ==> match #[trigger] index@[k] {
                    PageEntry::Uniform(c) => c < 43,
                    PageEntry::Indexed(p) => p < pages@.len(),
                },
            forall|p: int| 0 <= p < pages@.len() ==> (#[trigger] pages@[p])@.len() == 256,
            forall|p: int, j: int|
                0 <= p < pages@.len() && 0 <= j < 256 ==> (#[trigger] pages@[p]@[j]) < 43,
            forall|cp: int|
                #![trigger flat@[cp]]
                0 <= cp < pg * 256 ==> match index@[cp / 256] {
                    PageEntry::Uniform(c) => c == flat@[cp],
                    PageEntry::Indexed(p) => pages@[p as int]@[cp % 256] == flat@[cp],
                },
        decreases PAGE_COUNT - pg,
    {
        let base = pg * 256;
        let first = flat[base];
        let mut uniform = true;
        let mut page: Vec<u8> = Vec::new();
        let mut j: usize = 0;
        while j < 256
            invariant
                flat@.len() == CODEPOINT_COUNT,
                forall|k: int| 0 <= k < flat@.len() ==> (#[trigger] flat@[k]) < 43,
                pg < PAGE_COUNT,
                base == pg * 256,
                first == flat@[base as int],
                j <= 256,
                page@.len() == j,
                forall|k: int| 0 <= k < j ==> (#[trigger] page@[k]) == flat@[base + k],
                uniform ==> forall|k: int| 0 <= k < j ==> (#[trigger] page@[k]) == first,
            decreases 256 - j,
        {
            let v = flat[base + j];
            if v != first {
                uniform = false;
            }
            page.push(v);
            j += 1;
        }
        if uniform {
            index.push(PageEntry::Uniform(first));
        } else {
            index.push(PageEntry::Indexed(pages.len()));
            pages.push(page);
        }
        proof {
            assert forall|cp: int|
                #![trigger flat@[cp]]
                0 <= cp < (pg + 1) * 256 implies match index@[cp / 256] {
                PageEntry::Uniform(c) => c == flat@[cp],
                PageEntry::Indexed(p) => pages@[p as int]@[cp % 256] == flat@[cp],
            } by {
                vstd::arithmetic::div_mod::lemma_fundamental_div_mod(cp, 256);
                if cp < pg * 256 {
                    assert(0 <= cp / 256 < pg);
                } else {
                    assert(cp / 256 == pg && cp % 256 == cp - pg * 256);
                    let k = cp - pg * 256;
                    assert(page@[k] == flat@[base + k]);
                    assert(index@[pg as int] == if uniform {
                        PageEntry::Uniform(first)
                    } else {
                        PageEntry::Indexed((pages@.len() - 1) as usize)
                    });
                    if uniform {
                        assert(page@[k] == first);
                    } else {
                        assert(pages@[pages@.len() - 1] == page);
                    }
                }
            }
        }
        pg += 1;
    }
    let t = PropertyTable { index, pages };
    proof {
        assert forall|cp: int|
            0 <= cp < CODEPOINT_COUNT implies #[trigger] t.lookup(cp) == flat@[cp] by {
            assert(0 <= cp < PAGE_COUNT * 256);
        }
    }
    t
}

} // verus!
