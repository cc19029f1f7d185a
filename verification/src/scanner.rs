//! The break scanner.
//!
//! The scanner classifies each code point of the text, appends one virtual
//! end-of-text element at the text's byte length, and drives the pair
//! table from the start-of-text state.  At each element it reads the cell
//! for the current state and the element's class: a break is reported at
//! the element's byte offset exactly when the cell's allowed flag is set
//! and either the previous class was not a zero-width joiner or the break
//! is mandatory — the joiner rule is the one rule handled outside the
//! table, and it never suppresses a mandatory break.
//!
//! Offsets are byte offsets into the text's UTF-8 encoding: the offset
//! reported for an element is the offset immediately after the character
//! preceding it, so the virtual trailing element makes every non-empty
//! scan end with a mandatory break at the text's length.

use vstd::prelude::*;
use vstd::string::StringSliceAdditionalSpecFns;
use vstd::string::StrSliceExecFns;
use vstd::utf8::encode_scalar;
use vstd::utf8::encode_utf8;

use crate::classes::EOT;
use crate::classes::ZWJ;
use crate::pair::ALLOWED_BIT;
use crate::pair::MANDATORY_BIT;
use crate::pair::PairTable;
use crate::pair::STATE_MASK;
use crate::pair::allowed_of;
use crate::pair::cell_ok;
use crate::pair::mandatory_of;
use crate::pair::next_of;
use crate::property::PropertyTable;

verus! {

/// Break opportunity type.
#[derive(Copy, Clone, PartialEq, Eq, Debug, Structural)]
pub enum BreakOpportunity {
    /// A line must break at this spot.
    Mandatory,
    /// A line is allowed to end at this spot.
    Allowed,
}

/// The byte offset of the text's character `k`: the length in bytes of
/// the UTF-8 encoding of the first `k` characters.
pub open spec fn byte_offset(s: Seq<char>, k: int) -> int {
    encode_utf8(s.take(k)).len() as int
}

/// The offsets at which the scan's elements sit: one per character, and
/// one more at the text's byte length for the virtual end-of-text element.
pub open spec fn offsets_of(s: Seq<char>) -> Seq<int> {
    Seq::new(s.len() + 1, |k: int| byte_offset(s, k))
}

/// The class indices a property table gives the text's characters.
pub open spec fn prop_classes(p: PropertyTable, s: Seq<char>) -> Seq<u8> {
    Seq::new(s.len(), |k: int| p.lookup((s[k] as u32) as int))
}

/// The scan from a given state: consume the class elements in order,
/// report an opportunity at the element's offset where the cell allows it
/// and no zero-width joiner suppresses it, and step to the cell's next
/// state, remembering whether the element was a zero-width joiner.
pub open spec fn scan_from(
    t: Seq<Seq<u8>>,
    classes: Seq<u8>,
    offsets: Seq<int>,
    state: int,
    after_joiner: bool,
) -> Seq<(usize, BreakOpportunity)>
    decreases classes.len(),
{
    if classes.len() == 0 {
        Seq::empty()
    } else {
        let cell = t[state][classes[0] as int];
        let rest = scan_from(
            t,
            classes.drop_first(),
            offsets.drop_first(),
            next_of(cell) as int,
            classes[0] == ZWJ,
        );
        if allowed_of(cell) && (!after_joiner || mandatory_of(cell)) {
            seq![
                (
                    offsets[0] as usize,
                    if mandatory_of(cell) {
                        BreakOpportunity::Mandatory
                    } else {
                        BreakOpportunity::Allowed
                    },
                ),
            ] + rest
        } else {
            rest
        }
    }
}

/// The whole scan of a classified text: the class elements plus the
/// virtual end-of-text element, from the start-of-text state.
pub open spec fn spec_scan_text(
    t: Seq<Seq<u8>>,
    classes: Seq<u8>,
    offsets: Seq<int>,
) -> Seq<(usize, BreakOpportunity)> {
    scan_from(t, classes.push(EOT), offsets, 44, false)
}

/// Appending a character appends its encoding.
proof fn lemma_encode_utf8_push(a: Seq<char>, c: char)
    ensures
        encode_utf8(a.push(c)) == encode_utf8(a) + encode_scalar(c as u32),
    decreases a.len(),
{
    if a.len() == 0 {
        assert(a.push(c)[0] == c);
        assert(a.push(c).drop_first() =~= Seq::<char>::empty());
        assert(encode_utf8(Seq::<char>::empty()) =~= Seq::<u8>::empty());
        assert(encode_utf8(a.push(c)) == encode_scalar(c as u32) + encode_utf8(
            Seq::<char>::empty(),
        ));
        assert(encode_utf8(a) =~= Seq::<u8>::empty());
        assert(encode_utf8(a.push(c)) =~= encode_utf8(a) + encode_scalar(c as u32));
    } else {
        assert(a.push(c)[0] == a[0]);
        assert(a.push(c).drop_first() =~= a.drop_first().push(c));
        lemma_encode_utf8_push(a.drop_first(), c);
        assert(encode_utf8(a.push(c)) == encode_scalar(a[0] as u32) + encode_utf8(
            a.drop_first().push(c),
        ));
        assert(encode_utf8(a) == encode_scalar(a[0] as u32) + encode_utf8(a.drop_first()));
        assert(encode_utf8(a.push(c)) =~= encode_utf8(a) + encode_scalar(c as u32));
    }
}

/// One character advances the byte offset by its encoded width.
pub proof fn lemma_byte_offset_step(s: Seq<char>, k: int)
    requires
        0 <= k < s.len(),
    ensures
        byte_offset(s, k + 1) == byte_offset(s, k) + encode_scalar(s[k] as u32).len(),
{
    assert(s.take(k + 1) =~= s.take(k).push(s[k]));
    lemma_encode_utf8_push(s.take(k), s[k]);
}

/// Byte offsets grow with the character index.
pub proof fn lemma_byte_offset_le(s: Seq<char>, k: int, m: int)
    requires
        0 <= k <= m <= s.len(),
    ensures
        byte_offset(s, k) <= byte_offset(s, m),
    decreases m - k,
{
    if k < m {
        lemma_byte_offset_step(s, m - 1);
        lemma_byte_offset_le(s, k, m - 1);
    }
}

/// The offset after the last character is the text's byte length.
pub proof fn lemma_byte_offset_total(s: Seq<char>)
    ensures
        byte_offset(s, s.len() as int) == encode_utf8(s).len(),
{
    assert(s.take(s.len() as int) =~= s);
}

/// The width in bytes of one character's UTF-8 encoding.
fn utf8_width(c: char) -> (w: usize)
    ensures
        w == encode_scalar(c as u32).len(),
        1 <= w <= 4,
{
    proof {
        vstd::utf8::char_is_scalar(c);
    }
    let u = c as u32;
    if u < 0x80 {
        1
    } else if u < 0x800 {
        2
    } else if u < 0x10000 {
        3
    } else {
        4
    }
}

/// The state the scan is in before its element `k`, starting from `state`.
pub open spec fn state_from(t: Seq<Seq<u8>>, classes: Seq<u8>, state: int, k: int) -> int
    decreases k,
{
    if k <= 0 {
        state
    } else {
        next_of(t[state_from(t, classes, state, k - 1)][classes[k - 1] as int]) as int
    }
}

/// From a real state, the scan only ever reaches real states.
pub proof fn lemma_state_from_bounds(
    t: Seq<Seq<u8>>,
    classes: Seq<u8>,
    state: int,
    k: int,
)
    requires
        crate::pair::table_checks(t),
        0 <= state < 53,
        0 <= k <= classes.len(),
        forall|q: int| 0 <= q < classes.len() ==> (#[trigger] classes[q]) < 44,
    ensures
        0 <= state_from(t, classes, state, k) < 53,
    decreases k,
{
    if k > 0 {
        lemma_state_from_bounds(t, classes, state, k - 1);
        assert(cell_ok(
            t[state_from(t, classes, state, k - 1)][classes[k - 1] as int],
            state_from(t, classes, state, k - 1),
            classes[k - 1] as int,
        ));
    }
}

/// A scan's opportunities come in strictly ascending offset order, none
/// before the first element's offset, and there are at most as many as
/// there are elements.
pub proof fn lemma_scan_monotonic(
    t: Seq<Seq<u8>>,
    classes: Seq<u8>,
    offsets: Seq<int>,
    state: int,
    after_joiner: bool,
)
    requires
        crate::pair::table_checks(t),
        0 <= state < 53,
        classes.len() <= offsets.len(),
        forall|k: int| 0 <= k < classes.len() ==> (#[trigger] classes[k]) < 44,
        forall|i: int, j: int|
            0 <= i < j < classes.len() ==> #[trigger] offsets[i] < #[trigger] offsets[j],
        forall|k: int| 0 <= k < classes.len() ==> 0 <= (#[trigger] offsets[k]) <= usize::MAX,
    ensures
        ({
            let r = scan_from(t, classes, offsets, state, after_joiner);
            &&& r.len() <= classes.len()
            &&& forall|i: int, j: int| 0 <= i < j < r.len() ==> (#[trigger] r[i]).0 < (
            #[trigger] r[j]).0
            &&& forall|i: int|
                0 <= i < r.len() && classes.len() > 0 ==> offsets[0] <= (#[trigger] r[i]).0
        }),
    decreases classes.len(),
{
    if classes.len() == 0 {
    } else {
        let cell = t[state][classes[0] as int];
        assert(cell_ok(t[state][classes[0] as int], state, classes[0] as int));
        let tail_cls = classes.drop_first();
        let tail_offs = offsets.drop_first();
        assert forall|i: int, j: int|
            0 <= i < j < tail_cls.len() implies #[trigger] tail_offs[i] < #[trigger] tail_offs[j] by {
            assert(offsets[i + 1] < offsets[j + 1]);
        }
        assert forall|k: int|
            0 <= k < tail_cls.len() implies 0 <= (#[trigger] tail_offs[k]) <= usize::MAX by {
            assert(tail_cls[k] == classes[k + 1]);
            assert(tail_offs[k] == offsets[k + 1]);
        }
        assert forall|k: int| 0 <= k < tail_cls.len() implies (#[trigger] tail_cls[k]) < 44 by {
            assert(tail_cls[k] == classes[k + 1]);
        }
        lemma_scan_monotonic(t, tail_cls, tail_offs, next_of(cell) as int, classes[0] == ZWJ);
        let rest = scan_from(t, tail_cls, tail_offs, next_of(cell) as int, classes[0] == ZWJ);
        let r = scan_from(t, classes, offsets, state, after_joiner);
        if allowed_of(cell) && (!after_joiner || mandatory_of(cell)) {
            assert(r[0].0 == offsets[0] as usize);
            assert forall|i: int| 0 <= i < rest.len() implies offsets[0] < (
            #[trigger] rest[i]).0 by {
                if tail_cls.len() > 0 {
                    assert(tail_offs[0] == offsets[1]);
                    assert(offsets[0] < offsets[1]);
                }
            }
            assert forall|i: int, j: int|
                0 <= i < j < r.len() implies (#[trigger] r[i]).0 < (#[trigger] r[j]).0 by {
                if i == 0 {
                    assert(r[j] == rest[j - 1]);
                } else {
                    assert(r[i] == rest[i - 1]);
                    assert(r[j] == rest[j - 1]);
                }
            }
        } else {
            assert(r == rest);
            assert forall|i: int|
                0 <= i < r.len() && classes.len() > 0 implies offsets[0] <= (#[trigger] r[i]).0 by {
                if tail_cls.len() > 0 {
                    assert(tail_offs[0] == offsets[1]);
                }
            }
        }
    }
}

/// A scan whose elements end with the end-of-text column ends with a
/// mandatory opportunity at the last element's offset — unless the scan
/// both starts at start-of-text and has no other element, the empty-text
/// case, where nothing is reported.
pub proof fn lemma_scan_trailing(
    t: Seq<Seq<u8>>,
    classes: Seq<u8>,
    offsets: Seq<int>,
    state: int,
    after_joiner: bool,
)
    requires
        crate::pair::table_checks(t),
        0 <= state < 53,
        classes.len() >= 1,
        classes.len() <= offsets.len(),
        classes.last() == EOT,
        forall|k: int| 0 <= k < classes.len() ==> (#[trigger] classes[k]) < 44,
        forall|k: int| 0 <= k < classes.len() ==> 0 <= (#[trigger] offsets[k]) <= usize::MAX,
        classes.len() == 1 ==> state != 44,
    ensures
        ({
            let r = scan_from(t, classes, offsets, state, after_joiner);
            &&& r.len() >= 1
            &&& r.last() == (
                offsets[classes.len() - 1] as usize,
                BreakOpportunity::Mandatory,
            )
        }),
    decreases classes.len(),
{
    let cell = t[state][classes[0] as int];
    assert(cell_ok(t[state][classes[0] as int], state, classes[0] as int));
    let r = scan_from(t, classes, offsets, state, after_joiner);
    if classes.len() == 1 {
        assert(classes[0] == EOT);
        assert(allowed_of(cell) && mandatory_of(cell));
        assert(classes.drop_first() =~= Seq::<u8>::empty());
        assert(scan_from(
            t,
            classes.drop_first(),
            offsets.drop_first(),
            next_of(cell) as int,
            classes[0] == ZWJ,
        ) =~= Seq::<(usize, BreakOpportunity)>::empty());
        assert(r.last() == (offsets[0] as usize, BreakOpportunity::Mandatory));
    } else {
        let tail_cls = classes.drop_first();
        let tail_offs = offsets.drop_first();
        assert(tail_cls.last() == classes.last());
        assert forall|k: int| 0 <= k < tail_cls.len() implies (#[trigger] tail_cls[k]) < 44 by {
            assert(tail_cls[k] == classes[k + 1]);
        }
        assert forall|k: int|
            0 <= k < tail_cls.len() implies 0 <= (#[trigger] tail_offs[k]) <= usize::MAX by {
            assert(tail_offs[k] == offsets[k + 1]);
        }
        assert(next_of(cell) != 44);
        lemma_scan_trailing(t, tail_cls, tail_offs, next_of(cell) as int, classes[0] == ZWJ);
        let rest = scan_from(t, tail_cls, tail_offs, next_of(cell) as int, classes[0] == ZWJ);
        assert(tail_offs[tail_cls.len() - 1] == offsets[classes.len() - 1]);
        if allowed_of(cell) && (!after_joiner || mandatory_of(cell)) {
            assert(r == seq![(offsets[0] as usize, if mandatory_of(cell) {
                BreakOpportunity::Mandatory
            } else {
                BreakOpportunity::Allowed
            })] + rest);
            assert(r.last() == rest.last());
        } else {
            assert(r == rest);
        }
    }
}

/// What the scan reports at one element: an opportunity at the element's
/// offset exactly when its cell allows a break and no zero-width joiner
/// just before it suppresses an optional one.
pub proof fn lemma_scan_at_index(
    t: Seq<Seq<u8>>,
    classes: Seq<u8>,
    offsets: Seq<int>,
    state: int,
    after_joiner: bool,
    k: int,
)
    requires
        crate::pair::table_checks(t),
        0 <= state < 53,
        classes.len() <= offsets.len(),
        forall|q: int| 0 <= q < classes.len() ==> (#[trigger] classes[q]) < 44,
        forall|i: int, j: int|
            0 <= i < j < classes.len() ==> #[trigger] offsets[i] < #[trigger] offsets[j],
        forall|q: int| 0 <= q < classes.len() ==> 0 <= (#[trigger] offsets[q]) <= usize::MAX,
        0 <= k < classes.len(),
    ensures
        ({
            let r = scan_from(t, classes, offsets, state, after_joiner);
            let c = t[state_from(t, classes, state, k)][classes[k] as int];
            let joined = if k == 0 {
                after_joiner
            } else {
                classes[k - 1] == ZWJ
            };
            let kind = if mandatory_of(c) {
                BreakOpportunity::Mandatory
            } else {
                BreakOpportunity::Allowed
            };
            &&& (allowed_of(c) && (!joined || mandatory_of(c))) ==> r.contains(
                ((offsets[k] as usize), kind),
            )
            &&& !(allowed_of(c) && (!joined || mandatory_of(c))) ==> forall|kd: BreakOpportunity|
                !(#[trigger] r.contains(((offsets[k] as usize), kd)))
        }),
    decreases k,
{
    let r = scan_from(t, classes, offsets, state, after_joiner);
    let cell = t[state][classes[0] as int];
    assert(cell_ok(t[state][classes[0] as int], state, classes[0] as int));
    let tail_cls = classes.drop_first();
    let tail_offs = offsets.drop_first();
    assert forall|q: int| 0 <= q < tail_cls.len() implies (#[trigger] tail_cls[q]) < 44 by {
        assert(tail_cls[q] == classes[q + 1]);
    }
    assert forall|i: int, j: int|
        0 <= i < j < tail_cls.len() implies #[trigger] tail_offs[i] < #[trigger] tail_offs[j] by {
        assert(offsets[i + 1] < offsets[j + 1]);
    }
    assert forall|q: int|
        0 <= q < tail_cls.len() implies 0 <= (#[trigger] tail_offs[q]) <= usize::MAX by {
        assert(tail_offs[q] == offsets[q + 1]);
    }
    let rest = scan_from(t, tail_cls, tail_offs, next_of(cell) as int, classes[0] == ZWJ);
    let emitted_head = allowed_of(cell) && (!after_joiner || mandatory_of(cell));
    let head = (
        offsets[0] as usize,
        if mandatory_of(cell) {
            BreakOpportunity::Mandatory
        } else {
            BreakOpportunity::Allowed
        },
    );
    if k == 0 {
        lemma_scan_monotonic(t, tail_cls, tail_offs, next_of(cell) as int, classes[0] == ZWJ);
        assert forall|kd: BreakOpportunity|
            !(#[trigger] rest.contains(((offsets[0] as usize), kd))) by {
            if tail_cls.len() > 0 {
                assert(tail_offs[0] == offsets[1]);
                assert forall|i: int| 0 <= i < rest.len() implies (#[trigger] rest[i]) != ((
                offsets[0] as usize), kd) by {
                    assert(rest[i].0 >= tail_offs[0]);
                }
            }
        }
        if emitted_head {
            assert(r[0] == head);
            assert(r.contains(head));
        } else {
            assert(r == rest);
        }
    } else {
        lemma_scan_at_index(
            t,
            tail_cls,
            tail_offs,
            next_of(cell) as int,
            classes[0] == ZWJ,
            k - 1,
        );
        assert(state_from(t, tail_cls, next_of(cell) as int, k - 1) == state_from(
            t,
            classes,
            state,
            k,
        )) by {
            lemma_state_from_shift(t, classes, state, k);
        }
        assert(tail_cls[k - 1] == classes[k]);
        assert(tail_offs[k - 1] == offsets[k]);
        if k - 1 > 0 {
            assert(tail_cls[k - 2] == classes[k - 1]);
        }
        let c = t[state_from(t, classes, state, k)][classes[k] as int];
        let joined = classes[k - 1] == ZWJ;
        let kind = if mandatory_of(c) {
            BreakOpportunity::Mandatory
        } else {
            BreakOpportunity::Allowed
        };
        if emitted_head {
            assert(r == seq![head] + rest);
            assert(head.0 == offsets[0] as usize);
            assert(offsets[0] < offsets[k]);
            if allowed_of(c) && (!joined || mandatory_of(c)) {
                assert(rest.contains(((offsets[k] as usize), kind)));
                let i = choose|i: int|
                    0 <= i < rest.len() && rest[i] == ((offsets[k] as usize), kind);
                assert(r[i + 1] == rest[i]);
                assert(r.contains(((offsets[k] as usize), kind)));
            } else {
                assert forall|kd: BreakOpportunity|
                    !(#[trigger] r.contains(((offsets[k] as usize), kd))) by {
                    assert(!rest.contains(((offsets[k] as usize), kd)));
                    assert forall|i: int|
                        0 <= i < r.len() implies (#[trigger] r[i]) != ((offsets[k] as usize),
                    kd) by {
                        if i == 0 {
                            assert(r[0] == head);
                        } else {
                            assert(r[i] == rest[i - 1]);
                            if rest[i - 1] == ((offsets[k] as usize), kd) {
                                assert(rest.contains(((offsets[k] as usize), kd)));
                            }
                        }
                    }
                }
            }
        } else {
            assert(r == rest);
        }
    }
}

/// Shifting the fold of `state_from` by one consumed element.
proof fn lemma_state_from_shift(t: Seq<Seq<u8>>, classes: Seq<u8>, state: int, k: int)
    requires
        1 <= k <= classes.len(),
    ensures
        state_from(t, classes, state, k) == state_from(
            t,
            classes.drop_first(),
            next_of(t[state][classes[0] as int]) as int,
            k - 1,
        ),
    decreases k,
{
    let tail = classes.drop_first();
    let st1 = next_of(t[state][classes[0] as int]) as int;
    if k == 1 {
        assert(state_from(t, classes, state, 0) == state);
        assert(state_from(t, classes, state, 1) == st1);
        assert(state_from(t, tail, st1, 0) == st1);
    } else {
        lemma_state_from_shift(t, classes, state, k - 1);
        assert(tail[k - 2] == classes[k - 1]);
        assert(state_from(t, classes, state, k) == next_of(
            t[state_from(t, classes, state, k - 1)][classes[k - 1] as int],
        ) as int);
        assert(state_from(t, tail, st1, k - 1) == next_of(
            t[state_from(t, tail, st1, k - 2)][tail[k - 2] as int],
        ) as int);
    }
}

/// A run of line feeds breaks mandatorily after every element: from the
/// line-feed state, every element of such a run, and the end of text
/// after it, reports a mandatory opportunity.
pub proof fn lemma_scan_newline_run(
    t: Seq<Seq<u8>>,
    classes: Seq<u8>,
    offsets: Seq<int>,
    after_joiner: bool,
)
    requires
        crate::pair::table_checks(t),
        classes.len() >= 1,
        classes.len() <= offsets.len(),
        classes.last() == EOT,
        forall|k: int| 0 <= k < classes.len() - 1 ==> (#[trigger] classes[k]) == crate::classes::LF,
        forall|k: int| 0 <= k < classes.len() ==> 0 <= (#[trigger] offsets[k]) <= usize::MAX,
    ensures
        scan_from(t, classes, offsets, 2, after_joiner) =~= Seq::new(
            classes.len(),
            |k: int| ((offsets[k] as usize), BreakOpportunity::Mandatory),
        ),
    decreases classes.len(),
{
    let cell = t[2][classes[0] as int];
    assert(cell_ok(t[2][classes[0] as int], 2, classes[0] as int));
    assert(allowed_of(cell) && mandatory_of(cell));
    let r = scan_from(t, classes, offsets, 2, after_joiner);
    if classes.len() == 1 {
        assert(classes.drop_first() =~= Seq::<u8>::empty());
        assert(scan_from(
            t,
            classes.drop_first(),
            offsets.drop_first(),
            next_of(cell) as int,
            classes[0] == ZWJ,
        ) =~= Seq::<(usize, BreakOpportunity)>::empty());
    } else {
        assert(classes[0] == crate::classes::LF);
        assert(next_of(cell) == 2);
        let tail_cls = classes.drop_first();
        let tail_offs = offsets.drop_first();
        assert(tail_cls.last() == classes.last());
        assert forall|k: int|
            0 <= k < tail_cls.len() - 1 implies (#[trigger] tail_cls[k]) == crate::classes::LF by {
            assert(tail_cls[k] == classes[k + 1]);
        }
        assert forall|k: int|
            0 <= k < tail_cls.len() implies 0 <= (#[trigger] tail_offs[k]) <= usize::MAX by {
            assert(tail_offs[k] == offsets[k + 1]);
        }
        lemma_scan_newline_run(t, tail_cls, tail_offs, classes[0] == ZWJ);
    }
}

/// Scan a text against a property table and a pair table.
///
/// The result is exactly the specified scan of the text's classified
/// characters: opportunities in ascending byte order, each the offset
/// immediately after its breaking character, with its kind.
pub fn scan_text(p: &PropertyTable, t: &PairTable, s: &str) -> (r: Vec<(usize, BreakOpportunity)>)
    requires
        p.wf(),
        t.wf(),
    ensures
        r@ == spec_scan_text(t@, prop_classes(*p, s@), offsets_of(s@)),
{
    let ghost fc = prop_classes(*p, s@).push(EOT);
    let ghost offs = offsets_of(s@);
    let bytes = s.as_bytes();
    let total_bytes = bytes.len();
    let n = s.unicode_len();
    proof {
        lemma_byte_offset_total(s@);
        assert(s@.take(0) =~= Seq::<char>::empty());
        assert(byte_offset(s@, 0) == 0);
        assert(fc.skip(0) =~= fc);
        assert(offs.skip(0) =~= offs);
    }
    let mut out: Vec<(usize, BreakOpportunity)> = Vec::new();
    let mut state: u8 = 44;
    let mut after_joiner: bool = false;
    let mut off: usize = 0;
    let mut k: usize = 0;
    while k < n
        invariant
            p.wf(),
            t.wf(),
            n == s@.len(),
            total_bytes == s.spec_bytes().len(),
            byte_offset(s@, n as int) == total_bytes,
            fc == prop_classes(*p, s@).push(EOT),
            offs == offsets_of(s@),
            k <= n,
            state < 53,
            off == byte_offset(s@, k as int),
            scan_from(t@, fc, offs, 44, false) == out@ + scan_from(
                t@,
                fc.skip(k as int),
                offs.skip(k as int),
                state as int,
                after_joiner,
            ),
        decreases n - k,
    {
        let ghost ki = k as int;
        let c = s.get_char(k);
        let cls = p.class_index_of(c as u32);
        proof {
            assert(fc[ki] == cls);
            assert(offs[ki] == off);
            assert(fc.skip(ki)[0] == fc[ki]);
            assert(offs.skip(ki)[0] == offs[ki]);
            assert(fc.skip(ki).drop_first() =~= fc.skip(ki + 1));
            assert(offs.skip(ki).drop_first() =~= offs.skip(ki + 1));
        }
        let cell = t.cell(state, cls);
        let allowed = cell & ALLOWED_BIT == ALLOWED_BIT;
        let mand = cell & MANDATORY_BIT == MANDATORY_BIT;
        let ghost suffix_before = scan_from(
            t@,
            fc.skip(ki),
            offs.skip(ki),
            state as int,
            after_joiner,
        );
        let ghost suffix_after = scan_from(
            t@,
            fc.skip(ki + 1),
            offs.skip(ki + 1),
            next_of(cell) as int,
            cls == ZWJ,
        );
        if allowed && (!after_joiner || mand) {
            let kind = if mand {
                BreakOpportunity::Mandatory
            } else {
                BreakOpportunity::Allowed
            };
            let ghost out_before = out@;
            out.push((off, kind));
            proof {
                assert(suffix_before =~= seq![(off, kind)] + suffix_after);
                assert(out_before + suffix_before =~= out@ + suffix_after);
            }
        } else {
            proof {
                assert(suffix_before == suffix_after);
            }
        }
        proof {
            assert(cell_ok(t@[state as int][cls as int], state as int, cls as int));
            lemma_byte_offset_step(s@, ki);
            lemma_byte_offset_le(s@, ki + 1, n as int);
        }
        state = cell & STATE_MASK;
        after_joiner = cls == ZWJ;
        let w = utf8_width(c);
        off = off + w;
        k += 1;
    }
    // The virtual trailing element: end of text at the text's byte length.
    proof {
        assert(fc.skip(n as int) =~= seq![EOT]);
        assert(offs.skip(n as int) =~= seq![byte_offset(s@, n as int)]);
        assert(offs[n as int] == off);
    }
    let cell = t.cell(state, EOT);
    let allowed = cell & ALLOWED_BIT == ALLOWED_BIT;
    let mand = cell & MANDATORY_BIT == MANDATORY_BIT;
    let ghost suffix_before = scan_from(
        t@,
        fc.skip(n as int),
        offs.skip(n as int),
        state as int,
        after_joiner,
    );
    proof {
        assert(fc.skip(n as int)[0] == EOT);
        assert(offs.skip(n as int)[0] == offs[n as int]);
        assert(fc.skip(n as int).drop_first() =~= Seq::<u8>::empty());
        assert(scan_from(
            t@,
            fc.skip(n as int).drop_first(),
            offs.skip(n as int).drop_first(),
            next_of(cell) as int,
            fc.skip(n as int)[0] == ZWJ,
        ) =~= Seq::<(usize, BreakOpportunity)>::empty());
    }
    if allowed && (!after_joiner || mand) {
        let kind = if mand {
            BreakOpportunity::Mandatory
        } else {
            BreakOpportunity::Allowed
        };
        let ghost out_before = out@;
        out.push((off, kind));
        proof {
            assert(suffix_before =~= seq![(off, kind)]);
            assert(out_before + suffix_before =~= out@);
        }
    } else {
        proof {
            assert(suffix_before =~= Seq::<(usize, BreakOpportunity)>::empty());
            assert(out@ + suffix_before =~= out@);
        }
    }
    out
}

} // verus!
