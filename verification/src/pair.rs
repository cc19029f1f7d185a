//! The rule compiler and the pair-transition table.
//!
//! A rule list is compiled into a matrix over the 53 states (43 canonical
//! classes plus the synthetic states) and 44 columns (the classes plus
//! end-of-text).  Each cell holds the next state in its low six bits and
//! two break flags in the top bits.  Compilation starts from an identity
//! table and applies the rules strictly in order, each one mutating cells
//! in place, so a later rule overwrites what an earlier one decided on an
//! overlapping cell.

use vstd::prelude::*;

use crate::classes::COLUMN_COUNT;
use crate::classes::STATE_COUNT;

verus! {

/// Flag bit of a cell: a break is allowed before the column's class.
pub const ALLOWED_BIT: u8 = 0x80;

/// Flag bit of a cell: the break before the column's class is mandatory.
pub const MANDATORY_BIT: u8 = 0x40;

/// Mask of the next-state bits of a cell.
pub const STATE_MASK: u8 = 0x3F;

/// What a break assertion does to the cells it covers.
#[derive(Copy, Clone, PartialEq, Eq, Debug, Structural)]
pub enum RuleOp {
    /// Clear both break flags: no break between the pair.
    Forbid,
    /// Set the allowed flag: the line may break between the pair.
    Allow,
    /// Set both flags: the line must break between the pair.
    Mandatory,
}

/// One rule of the ordered rule list.  Row and column sets are bit masks
/// over the state and column indices; bits beyond the table are ignored.
#[derive(Copy, Clone, PartialEq, Eq, Debug, Structural)]
pub enum Rule {
    /// A break assertion `rows OP cols`: apply the operator to the flags of
    /// every covered cell, leaving the next state alone.
    Assert {
        /// The states the rule applies in.
        rows: u64,
        /// What happens to the covered cells' flags.
        op: RuleOp,
        /// The classes the rule applies before.
        cols: u64,
    },
    /// Combining-run aliasing, "treat `X (C)*` as X": in every covered row,
    /// a covered column loops back to the row itself, so a run of combining
    /// marks keeps the base class for all later decisions.
    LoopBack {
        /// The base states that absorb the run.
        rows: u64,
        /// The classes forming the run.
        cols: u64,
    },
    /// Pair aliasing, "treat `A B` as state K": the covered cells transfer
    /// to the synthetic state `state`, with no break, so later rules can
    /// match the two-class sequence as one state.
    RememberPair {
        /// The first classes of the remembered pair.
        rows: u64,
        /// The second classes of the remembered pair.
        cols: u64,
        /// The synthetic state that stands for the pair.
        state: u8,
    },
    /// State aliasing, "treat `T` as if it were `from`": every column of the
    /// set copies the `from` column (where both are columns), then every row
    /// of the set becomes a copy of the `from` row.
    CopyState {
        /// The states and columns to alias.
        targets: u64,
        /// The state they borrow their behaviour from.
        from: u8,
    },
}

/// Whether bit `i` of the mask is set.
pub open spec fn in_set(mask: u64, i: int) -> bool {
    0 <= i < 64 && (mask >> (i as u64)) & 1u64 == 1u64
}

/// Executable twin of [`in_set`].
pub fn bit_test(mask: u64, i: usize) -> (r: bool)
    requires
        i < 64,
    ensures
        r == in_set(mask, i as int),
{
    (mask >> (i as u64)) & 1u64 == 1u64
}

/// The next state a cell transfers to.
pub open spec fn next_of(v: u8) -> u8 {
    v & STATE_MASK
}

/// Whether a cell allows a break.
pub open spec fn allowed_of(v: u8) -> bool {
    v & ALLOWED_BIT == ALLOWED_BIT
}

/// Whether a cell makes the break mandatory.
pub open spec fn mandatory_of(v: u8) -> bool {
    v & MANDATORY_BIT == MANDATORY_BIT
}

/// The table a compilation starts from: one state per class, every cell
/// transferring to its column's class, no break flags set.
pub open spec fn identity_table() -> Seq<Seq<u8>> {
    Seq::new(STATE_COUNT as nat, |i: int| Seq::new(COLUMN_COUNT as nat, |j: int| j as u8))
}

/// What a break assertion's operator does to one cell.
pub open spec fn apply_op(op: RuleOp, v: u8) -> u8 {
    match op {
        RuleOp::Forbid => v & STATE_MASK,
        RuleOp::Allow => v | ALLOWED_BIT,
        RuleOp::Mandatory => v | (ALLOWED_BIT | MANDATORY_BIT),
    }
}

/// State aliasing on the whole table: the covered columns copy the `from`
/// column, then the covered rows copy the (column-copied) `from` row.
pub open spec fn copy_state(t: Seq<Seq<u8>>, targets: u64, from: u8) -> Seq<Seq<u8>> {
    let columns_copied = Seq::new(
        t.len(),
        |i: int|
            Seq::new(
                t[i].len(),
                |j: int|
                    if from < COLUMN_COUNT && j < COLUMN_COUNT && in_set(targets, j) {
                        t[i][from as int]
                    } else {
                        t[i][j]
                    },
            ),
    );
    Seq::new(
        t.len(),
        |i: int|
            if in_set(targets, i) && from < t.len() {
                columns_copied[from as int]
            } else {
                columns_copied[i]
            },
    )
}

/// One rule applied to the whole table.
pub open spec fn apply_rule(t: Seq<Seq<u8>>, r: Rule) -> Seq<Seq<u8>> {
    match r {
        Rule::Assert { rows, op, cols } => Seq::new(
            t.len(),
            |i: int|
                Seq::new(
                    t[i].len(),
                    |j: int|
                        if in_set(rows, i) && in_set(cols, j) {
                            apply_op(op, t[i][j])
                        } else {
                            t[i][j]
                        },
                ),
        ),
        Rule::LoopBack { rows, cols } => Seq::new(
            t.len(),
            |i: int|
                Seq::new(
                    t[i].len(),
                    |j: int|
                        if in_set(rows, i) && in_set(cols, j) {
                            i as u8
                        } else {
                            t[i][j]
                        },
                ),
        ),
        Rule::RememberPair { rows, cols, state } => Seq::new(
            t.len(),
            |i: int|
                Seq::new(
                    t[i].len(),
                    |j: int|
                        if in_set(rows, i) && in_set(cols, j) {
                            state
                        } else {
                            t[i][j]
                        },
                ),
        ),
        Rule::CopyState { targets, from } => copy_state(t, targets, from),
    }
}

/// The table the rules produce, applied strictly in order from `t`.
pub open spec fn table_from(t: Seq<Seq<u8>>, rules: Seq<Rule>) -> Seq<Seq<u8>>
    decreases rules.len(),
{
    if rules.len() == 0 {
        t
    } else {
        table_from(apply_rule(t, rules[0]), rules.drop_first())
    }
}

/// The table the rules produce from the identity table.
pub open spec fn table_after(rules: Seq<Rule>) -> Seq<Seq<u8>> {
    table_from(identity_table(), rules)
}

/// Appending a rule to a list applies it to the list's table.
proof fn lemma_table_from_push(t: Seq<Seq<u8>>, rules: Seq<Rule>, r: Rule)
    ensures
        table_from(t, rules.push(r)) == apply_rule(table_from(t, rules), r),
    decreases rules.len(),
{
    let ext = rules.push(r);
    if rules.len() == 0 {
        assert(ext.drop_first() =~= Seq::<Rule>::empty());
        assert(ext[0] == r);
        assert(table_from(t, ext) == table_from(apply_rule(t, r), ext.drop_first()));
        assert(table_from(apply_rule(t, r), Seq::<Rule>::empty()) == apply_rule(t, r));
        assert(table_from(t, rules) == t);
    } else {
        assert(ext.drop_first() =~= rules.drop_first().push(r));
        assert(ext[0] == rules[0]);
        assert(table_from(t, ext) == table_from(apply_rule(t, rules[0]), ext.drop_first()));
        lemma_table_from_push(apply_rule(t, rules[0]), rules.drop_first(), r);
        assert(table_from(t, rules) == table_from(apply_rule(t, rules[0]), rules.drop_first()));
    }
}

/// The compiled table keeps its shape: 53 rows of 44 columns.
pub open spec fn dims_ok(t: Seq<Seq<u8>>) -> bool {
    &&& t.len() == STATE_COUNT
    &&& forall|i: int| 0 <= i < t.len() ==> (#[trigger] t[i]).len() == COLUMN_COUNT
}

/// Build the identity table.
fn make_identity() -> (t: Vec<Vec<u8>>)
    ensures
        t.deep_view() =~~= identity_table(),
{
    let mut t: Vec<Vec<u8>> = Vec::new();
    let mut i: usize = 0;
    while i < STATE_COUNT
        invariant
            i <= STATE_COUNT,
            t.deep_view().len() == i,
            forall|r: int| 0 <= r < i ==> (#[trigger] t.deep_view()[r]) =~= identity_table()[r],
        decreases STATE_COUNT - i,
    {
        let mut row: Vec<u8> = Vec::new();
        let mut j: usize = 0;
        while j < COLUMN_COUNT
            invariant
                j <= COLUMN_COUNT,
                row@.len() == j,
                forall|k: int| 0 <= k < j ==> (#[trigger] row@[k]) == k as u8,
            decreases COLUMN_COUNT - j,
        {
            row.push(j as u8);
            j += 1;
        }
        let ghost before = t.deep_view();
        t.push(row);
        proof {
            assert forall|r: int|
                0 <= r <= i implies (#[trigger] t.deep_view()[r]) =~= identity_table()[r] by {
                if r < i {
                    assert(t.deep_view()[r] == before[r]);
                } else {
                    assert(t.deep_view()[r] =~= identity_table()[r]);
                }
            }
        }
        i += 1;
    }
    t
}

/// A rule's symbolic states resolve within the table: compilation is
/// refused otherwise, rather than producing a degraded table.
pub open spec fn rule_states_ok(r: Rule) -> bool {
    match r {
        Rule::RememberPair { state, .. } => state < 53,
        Rule::CopyState { from, .. } => from < 53,
        _ => true,
    }
}

/// Every rule of the list resolves within the table.
pub open spec fn rules_valid(rules: Seq<Rule>) -> bool {
    forall|k: int| 0 <= k < rules.len() ==> rule_states_ok(#[trigger] rules[k])
}

/// A nested byte table's deep view reads back the element views.
proof fn lemma_deep_view_rows(v: Vec<Vec<u8>>)
    ensures
        v.deep_view().len() == v@.len(),
        forall|a: int| 0 <= a < v@.len() ==> v.deep_view()[a] =~= (#[trigger] v@[a])@,
{
    assert forall|a: int| 0 <= a < v@.len() implies v.deep_view()[a] =~= (#[trigger] v@[a])@ by {
        assert(v.deep_view()[a] == v@[a].deep_view());
    }
}

/// Executable twin of [`apply_op`].
fn apply_op_exec(op: RuleOp, v: u8) -> (r: u8)
    ensures
        r == apply_op(op, v),
{
    match op {
        RuleOp::Forbid => v & STATE_MASK,
        RuleOp::Allow => v | ALLOWED_BIT,
        RuleOp::Mandatory => v | (ALLOWED_BIT | MANDATORY_BIT),
    }
}

/// Apply one rule to the table in place.
fn apply_rule_exec(t: &mut Vec<Vec<u8>>, r: Rule)
    requires
        dims_ok(old(t).deep_view()),
        rule_states_ok(r),
    ensures
        dims_ok(final(t).deep_view()),
        final(t).deep_view() == apply_rule(old(t).deep_view(), r),
{
    let ghost g0 = old(t).deep_view();
    match r {
        Rule::Assert { rows, op, cols } => {
            let mut i: usize = 0;
            while i < STATE_COUNT
                invariant
                    dims_ok(g0),
                    i <= STATE_COUNT,
                    t.deep_view().len() == STATE_COUNT,
                    forall|a: int|
                        0 <= a < STATE_COUNT ==> #[trigger] t.deep_view()[a] =~= (if a < i
                            && in_set(rows, a) {
                            Seq::new(
                                g0[a].len(),
                                |j: int|
                                    if in_set(cols, j) {
                                        apply_op(op, g0[a][j])
                                    } else {
                                        g0[a][j]
                                    },
                            )
                        } else {
                            g0[a]
                        }),
                decreases STATE_COUNT - i,
            {
                if bit_test(rows, i) {
                    let mut row: Vec<u8> = Vec::new();
                    let mut j: usize = 0;
                    while j < COLUMN_COUNT
                        invariant
                            dims_ok(g0),
                            i < STATE_COUNT,
                            t.deep_view().len() == STATE_COUNT,
                            t.deep_view()[i as int] =~= g0[i as int],
                            j <= COLUMN_COUNT,
                            row@.len() == j,
                            forall|k: int|
                                0 <= k < j ==> #[trigger] row@[k] == (if in_set(cols, k) {
                                    apply_op(op, g0[i as int][k])
                                } else {
                                    g0[i as int][k]
                                }),
                        decreases COLUMN_COUNT - j,
                    {
                        let cur = t[i][j];
                        let v = if bit_test(cols, j) {
                            apply_op_exec(op, cur)
                        } else {
                            cur
                        };
                        row.push(v);
                        j += 1;
                    }
                    let ghost before = t.deep_view();
                    t[i] = row;
                    proof {
                        assert forall|a: int|
                            0 <= a < STATE_COUNT && a != i implies #[trigger] t.deep_view()[a]
                            == before[a] by {}
                        assert(t.deep_view()[i as int] =~= row@);
                    }
                }
                i += 1;
            }
            proof {
                assert(t.deep_view() =~~= apply_rule(g0, r));
            }
        },
        Rule::LoopBack { rows, cols } => {
            let mut i: usize = 0;
            while i < STATE_COUNT
                invariant
                    dims_ok(g0),
                    i <= STATE_COUNT,
                    t.deep_view().len() == STATE_COUNT,
                    forall|a: int|
                        0 <= a < STATE_COUNT ==> #[trigger] t.deep_view()[a] =~= (if a < i
                            && in_set(rows, a) {
                            Seq::new(
                                g0[a].len(),
                                |j: int|
                                    if in_set(cols, j) {
                                        a as u8
                                    } else {
                                        g0[a][j]
                                    },
                            )
                        } else {
                            g0[a]
                        }),
                decreases STATE_COUNT - i,
            {
                if bit_test(rows, i) {
                    let mut row: Vec<u8> = Vec::new();
                    let mut j: usize = 0;
                    while j < COLUMN_COUNT
                        invariant
                            dims_ok(g0),
                            i < STATE_COUNT,
                            t.deep_view().len() == STATE_COUNT,
                            t.deep_view()[i as int] =~= g0[i as int],
                            j <= COLUMN_COUNT,
                            row@.len() == j,
                            forall|k: int|
                                0 <= k < j ==> #[trigger] row@[k] == (if in_set(cols, k) {
                                    i as u8
                                } else {
                                    g0[i as int][k]
                                }),
                        decreases COLUMN_COUNT - j,
                    {
                        let cur = t[i][j];
                        let v = if bit_test(cols, j) {
                            i as u8
                        } else {
                            cur
                        };
                        row.push(v);
                        j += 1;
                    }
                    let ghost before = t.deep_view();
                    t[i] = row;
                    proof {
                        assert forall|a: int|
                            0 <= a < STATE_COUNT && a != i implies #[trigger] t.deep_view()[a]
                            == before[a] by {}
                        assert(t.deep_view()[i as int] =~= row@);
                    }
                }
                i += 1;
            }
            proof {
                assert(t.deep_view() =~~= apply_rule(g0, r));
            }
        },
        Rule::RememberPair { rows, cols, state } => {
            let mut i: usize = 0;
            while i < STATE_COUNT
                invariant
                    dims_ok(g0),
                    i <= STATE_COUNT,
                    t.deep_view().len() == STATE_COUNT,
                    forall|a: int|
                        0 <= a < STATE_COUNT ==> #[trigger] t.deep_view()[a] =~= (if a < i
                            && in_set(rows, a) {
                            Seq::new(
                                g0[a].len(),
                                |j: int|
                                    if in_set(cols, j) {
                                        state
                                    } else {
                                        g0[a][j]
                                    },
                            )
                        } else {
                            g0[a]
                        }),
                decreases STATE_COUNT - i,
            {
                if bit_test(rows, i) {
                    let mut row: Vec<u8> = Vec::new();
                    let mut j: usize = 0;
                    while j < COLUMN_COUNT
                        invariant
                            dims_ok(g0),
                            i < STATE_COUNT,
                            t.deep_view().len() == STATE_COUNT,
                            t.deep_view()[i as int] =~= g0[i as int],
                            j <= COLUMN_COUNT,
                            row@.len() == j,
                            forall|k: int|
                                0 <= k < j ==> #[trigger] row@[k] == (if in_set(cols, k) {
                                    state
                                } else {
                                    g0[i as int][k]
                                }),
                        decreases COLUMN_COUNT - j,
                    {
                        let cur = t[i][j];
                        let v = if bit_test(cols, j) {
                            state
                        } else {
                            cur
                        };
                        row.push(v);
                        j += 1;
                    }
                    let ghost before = t.deep_view();
                    t[i] = row;
                    proof {
                        assert forall|a: int|
                            0 <= a < STATE_COUNT && a != i implies #[trigger] t.deep_view()[a]
                            == before[a] by {}
                        assert(t.deep_view()[i as int] =~= row@);
                    }
                }
                i += 1;
            }
            proof {
                assert(t.deep_view() =~~= apply_rule(g0, r));
            }
        },
        Rule::CopyState { targets, from } => {
            let ghost cc = Seq::new(
                g0.len(),
                |i: int|
                    Seq::new(
                        g0[i].len(),
                        |j: int|
                            if from < COLUMN_COUNT && j < COLUMN_COUNT && in_set(targets, j) {
                                g0[i][from as int]
                            } else {
                                g0[i][j]
                            },
                    ),
            );
            let mut i: usize = 0;
            while i < STATE_COUNT
                invariant
                    dims_ok(g0),
                    from < 53,
                    cc == Seq::new(
                        g0.len(),
                        |i: int|
                            Seq::new(
                                g0[i].len(),
                                |j: int|
                                    if from < COLUMN_COUNT && j < COLUMN_COUNT && in_set(
                                        targets,
                                        j,
                                    ) {
                                        g0[i][from as int]
                                    } else {
                                        g0[i][j]
                                    },
                            ),
                    ),
                    i <= STATE_COUNT,
                    t.deep_view().len() == STATE_COUNT,
                    forall|a: int|
                        0 <= a < STATE_COUNT ==> #[trigger] t.deep_view()[a] =~= (if a < i {
                            cc[a]
                        } else {
                            g0[a]
                        }),
                decreases STATE_COUNT - i,
            {
                let mut row: Vec<u8> = Vec::new();
                let mut j: usize = 0;
                while j < COLUMN_COUNT
                    invariant
                        dims_ok(g0),
                        from < 53,
                        i < STATE_COUNT,
                        t.deep_view().len() == STATE_COUNT,
                        t.deep_view()[i as int] =~= g0[i as int],
                        j <= COLUMN_COUNT,
                        row@.len() == j,
                        forall|k: int|
                            0 <= k < j ==> #[trigger] row@[k] == (if from < COLUMN_COUNT && k
                                < COLUMN_COUNT && in_set(targets, k) {
                                g0[i as int][from as int]
                            } else {
                                g0[i as int][k]
                            }),
                    decreases COLUMN_COUNT - j,
                {
                    let cur = t[i][j];
                    let v = if (from as usize) < COLUMN_COUNT && bit_test(targets, j) {
                        t[i][from as usize]
                    } else {
                        cur
                    };
                    row.push(v);
                    j += 1;
                }
                let ghost before = t.deep_view();
                t[i] = row;
                proof {
                    assert forall|a: int|
                        0 <= a < STATE_COUNT && a != i implies #[trigger] t.deep_view()[a]
                        == before[a] by {}
                    assert(t.deep_view()[i as int] =~= row@);
                    assert(t.deep_view()[i as int] =~= cc[i as int]);
                }
                i += 1;
            }
            // Second phase: the covered rows copy the column-copied `from` row.
            proof {
                assert forall|a: int|
                    0 <= a < STATE_COUNT implies (#[trigger] cc[a]).len() == COLUMN_COUNT by {
                    assert(g0[a].len() == COLUMN_COUNT);
                }
            }
            let mut base: Vec<u8> = Vec::new();
            let mut j: usize = 0;
            while j < COLUMN_COUNT
                invariant
                    from < 53,
                    t@.len() == STATE_COUNT,
                    t.deep_view().len() == STATE_COUNT,
                    cc.len() == STATE_COUNT,
                    forall|a: int| 0 <= a < STATE_COUNT ==> #[trigger] t.deep_view()[a] =~= cc[a],
                    forall|a: int| 0 <= a < STATE_COUNT ==> (#[trigger] cc[a]).len()
                        == COLUMN_COUNT,
                    j <= COLUMN_COUNT,
                    base@.len() == j,
                    forall|k: int| 0 <= k < j ==> #[trigger] base@[k] == cc[from as int][k],
                decreases COLUMN_COUNT - j,
            {
                proof {
                    lemma_deep_view_rows(*t);
                    assert(t@[from as int]@ =~= cc[from as int]);
                }
                base.push(t[from as usize][j]);
                j += 1;
            }
            let mut i: usize = 0;
            while i < STATE_COUNT
                invariant
                    from < 53,
                    i <= STATE_COUNT,
                    t.deep_view().len() == STATE_COUNT,
                    cc.len() == STATE_COUNT,
                    base@.len() == COLUMN_COUNT,
                    base@ =~= cc[from as int],
                    forall|a: int| 0 <= a < STATE_COUNT ==> (#[trigger] cc[a]).len()
                        == COLUMN_COUNT,
                    forall|a: int|
                        0 <= a < STATE_COUNT ==> #[trigger] t.deep_view()[a] =~= (if a < i
                            && in_set(targets, a) {
                            cc[from as int]
                        } else {
                            cc[a]
                        }),
                decreases STATE_COUNT - i,
            {
                if bit_test(targets, i) {
                    let mut row: Vec<u8> = Vec::new();
                    let mut j2: usize = 0;
                    while j2 < COLUMN_COUNT
                        invariant
                            j2 <= COLUMN_COUNT,
                            base@.len() == COLUMN_COUNT,
                            row@.len() == j2,
                            forall|k: int| 0 <= k < j2 ==> #[trigger] row@[k] == base@[k],
                        decreases COLUMN_COUNT - j2,
                    {
                        row.push(base[j2]);
                        j2 += 1;
                    }
                    let ghost before = t.deep_view();
                    t[i] = row;
                    proof {
                        assert forall|a: int|
                            0 <= a < STATE_COUNT && a != i implies #[trigger] t.deep_view()[a]
                            == before[a] by {}
                        assert(t.deep_view()[i as int] =~= cc[from as int]);
                    }
                }
                i += 1;
            }
            proof {
                assert(t.deep_view() =~~= apply_rule(g0, r));
            }
        },
    }
}

/// Compile the ordered rule list into a raw pair table, starting from the
/// identity table.  Succeeds exactly when every rule's symbolic states
/// resolve (see [`rules_valid`]).
pub fn compile_rules(rules: &Vec<Rule>) -> (r: Option<Vec<Vec<u8>>>)
    ensures
        r is Some <==> rules_valid(rules@),
        r matches Some(t) ==> t.deep_view() == table_after(rules@) && dims_ok(t.deep_view()),
{
    let n = rules.len();
    let mut k: usize = 0;
    while k < n
        invariant
            n == rules@.len(),
            k <= n,
            forall|m: int| 0 <= m < k ==> rule_states_ok(#[trigger] rules@[m]),
        decreases n - k,
    {
        let ok = match rules[k] {
            Rule::RememberPair { state, .. } => state < 53,
            Rule::CopyState { from, .. } => from < 53,
            _ => true,
        };
        if !ok {
            return None;
        }
        k += 1;
    }
    let mut t = make_identity();
    proof {
        assert(rules@.take(0) =~= Seq::<Rule>::empty());
        assert(t.deep_view() == table_after(rules@.take(0)));
    }
    let mut k: usize = 0;
    while k < n
        invariant
            n == rules@.len(),
            k <= n,
            rules_valid(rules@),
            dims_ok(t.deep_view()),
            t.deep_view() == table_after(rules@.take(k as int)),
        decreases n - k,
    {
        apply_rule_exec(&mut t, rules[k]);
        proof {
            assert(rules@.take(k + 1) =~= rules@.take(k as int).push(rules@[k as int]));
            lemma_table_from_push(identity_table(), rules@.take(k as int), rules@[k as int]);
        }
        k += 1;
    }
    proof {
        assert(rules@.take(n as int) =~= rules@);
    }
    Some(t)
}

/// The facts the scanner's guarantees rest on, checked cell by cell once
/// the table is compiled:
/// the next state is a real state and never start-of-text, a mandatory
/// break is also an allowed one, the start-of-text row breaks nowhere (so
/// no opportunity can sit at offset zero), every other row breaks
/// mandatorily before end-of-text, the line-feed column always transfers
/// to the line-feed state, and the line-feed row always breaks
/// mandatorily.
pub open spec fn cell_ok(v: u8, i: int, j: int) -> bool {
    &&& next_of(v) < 53
    &&& next_of(v) != 44
    &&& mandatory_of(v) ==> allowed_of(v)
    &&& i == 44 ==> !allowed_of(v)
    &&& i != 44 && j == 43 ==> allowed_of(v) && mandatory_of(v)
    &&& j == 2 ==> next_of(v) == 2
    &&& i == 2 ==> allowed_of(v) && mandatory_of(v)
}

/// A compiled table every cell of which passes [`cell_ok`].
pub open spec fn table_checks(t: Seq<Seq<u8>>) -> bool {
    &&& dims_ok(t)
    &&& forall|i: int, j: int|
        0 <= i < STATE_COUNT && 0 <= j < COLUMN_COUNT ==> cell_ok(#[trigger] t[i][j], i, j)
}

/// Executable twin of [`cell_ok`].
fn cell_ok_exec(v: u8, i: usize, j: usize) -> (r: bool)
    ensures
        r == cell_ok(v, i as int, j as int),
{
    let nx = v & STATE_MASK;
    let allowed = v & ALLOWED_BIT == ALLOWED_BIT;
    let mandatory = v & MANDATORY_BIT == MANDATORY_BIT;
    nx < 53 && nx != 44 && (!mandatory || allowed) && (i != 44 || !allowed) && (i == 44 || j != 43
        || (allowed && mandatory)) && (j != 2 || nx == 2) && (i != 2 || (allowed && mandatory))
}

/// Check every cell of a compiled table.
fn check_table(t: &Vec<Vec<u8>>) -> (r: bool)
    requires
        dims_ok(t.deep_view()),
    ensures
        r == table_checks(t.deep_view()),
{
    let ghost g = t.deep_view();
    let mut i: usize = 0;
    while i < STATE_COUNT
        invariant
            g == t.deep_view(),
            dims_ok(g),
            i <= STATE_COUNT,
            forall|a: int, b: int|
                0 <= a < i && 0 <= b < COLUMN_COUNT ==> cell_ok(#[trigger] g[a][b], a, b),
        decreases STATE_COUNT - i,
    {
        let mut j: usize = 0;
        while j < COLUMN_COUNT
            invariant
                g == t.deep_view(),
                dims_ok(g),
                i < STATE_COUNT,
                j <= COLUMN_COUNT,
                forall|a: int, b: int|
                    0 <= a < i && 0 <= b < COLUMN_COUNT ==> cell_ok(#[trigger] g[a][b], a, b),
                forall|b: int| 0 <= b < j ==> cell_ok(#[trigger] g[i as int][b], i as int, b),
            decreases COLUMN_COUNT - j,
        {
            proof {
                lemma_deep_view_rows(*t);
                assert(t@[i as int]@ =~= g[i as int]);
            }
            if !cell_ok_exec(t[i][j], i, j) {
                return false;
            }
            j += 1;
        }
        i += 1;
    }
    true
}

/// The compiled pair table, ready for the scanner.  Constructed only by
/// [`PairTable::from_rules`], which both compiles the rule list and checks
/// every cell, so a value of this type always satisfies [`PairTable::wf`].
pub struct PairTable {
    /// The cells: 53 rows of 44 columns.
    pub cells: Vec<Vec<u8>>,
}

impl View for PairTable {
    type V = Seq<Seq<u8>>;

    open spec fn view(&self) -> Seq<Seq<u8>> {
        self.cells.deep_view()
    }
}

impl PairTable {
    /// The table passed its cell checks.
    pub open spec fn wf(self) -> bool {
        table_checks(self@)
    }

    /// Compile the rule list and check the result.  Succeeds exactly when
    /// the rules' symbolic states resolve and every compiled cell passes
    /// [`cell_ok`]; the table is then the rules' table, cell for cell.
    pub fn from_rules(rules: &Vec<Rule>) -> (r: Option<PairTable>)
        ensures
            r is Some <==> rules_valid(rules@) && table_checks(table_after(rules@)),
            r matches Some(pt) ==> pt@ == table_after(rules@) && pt.wf(),
    {
        match compile_rules(rules) {
            None => None,
            Some(cells) => {
                if check_table(&cells) {
                    Some(PairTable { cells })
                } else {
                    None
                }
            },
        }
    }

    /// Read one cell.
    pub fn cell(&self, state: u8, col: u8) -> (v: u8)
        requires
            self.wf(),
            state < 53,
            col < 44,
        ensures
            v == self@[state as int][col as int],
    {
        proof {
            lemma_deep_view_rows(self.cells);
        }
        self.cells[state as usize][col as usize]
    }

    /// Whether the break decision between the two classes is independent
    /// of what preceded them: the transition taken on `b` is the same from
    /// every state the scanner can be in after reading `a`.  Consumers
    /// reprocessing text incrementally may restart at such a pair; the
    /// scanner itself never consults this.
    pub fn is_safe_pair(&self, a: crate::classes::BreakClass, b: crate::classes::BreakClass) -> (r:
        bool)
        requires
            self.wf(),
        ensures
            r == spec_safe_pair(self@, crate::classes::class_index(a) as int,
                crate::classes::class_index(b) as int),
    {
        let i = crate::classes::index_of_class(a);
        let j = crate::classes::index_of_class(b);
        let base = self.cell(self.cell(0, i) & STATE_MASK, j);
        let mut p: usize = 1;
        while p < STATE_COUNT
            invariant
                self.wf(),
                i < 43,
                j < 43,
                i == crate::classes::class_index(a),
                j == crate::classes::class_index(b),
                p <= STATE_COUNT,
                base == self@[next_of(self@[0][i as int]) as int][j as int],
                forall|q: int|
                    0 <= q < p ==> self@[next_of(#[trigger] self@[q][i as int]) as int][j as int]
                        == base,
            decreases STATE_COUNT - p,
        {
            let v = self.cell(self.cell(p as u8, i) & STATE_MASK, j);
            if v != base {
                proof {
                    assert(self@[next_of(self@[p as int][i as int]) as int][j as int] != self@[
                        next_of(self@[0][i as int]) as int][j as int]);
                    assert(!spec_safe_pair(self@, i as int, j as int));
                }
                return false;
            }
            p += 1;
        }
        true
    }
}

/// The pair `(a, b)` transfers identically on `b` from every state
/// reachable by reading `a`.
pub open spec fn spec_safe_pair(t: Seq<Seq<u8>>, i: int, j: int) -> bool {
    forall|p: int|
        0 <= p < 53 ==> t[next_of(#[trigger] t[p][i]) as int][j] == t[next_of(t[0][i]) as int][j]
}

/// Splitting a rule list folds the table through the first part.
pub proof fn lemma_table_from_concat(t: Seq<Seq<u8>>, a: Seq<Rule>, b: Seq<Rule>)
    ensures
        table_from(t, a + b) == table_from(table_from(t, a), b),
    decreases a.len(),
{
    if a.len() == 0 {
        assert(a + b =~= b);
    } else {
        assert((a + b)[0] == a[0]);
        assert((a + b).drop_first() =~= a.drop_first() + b);
        lemma_table_from_concat(apply_rule(t, a[0]), a.drop_first(), b);
    }
}

/// Applying a rule keeps the table's shape.
pub proof fn lemma_apply_dims(t: Seq<Seq<u8>>, r: Rule)
    requires
        dims_ok(t),
    ensures
        dims_ok(apply_rule(t, r)),
{
}

/// Applying a rule list keeps the table's shape.
pub proof fn lemma_table_from_dims(t: Seq<Seq<u8>>, rules: Seq<Rule>)
    requires
        dims_ok(t),
    ensures
        dims_ok(table_from(t, rules)),
    decreases rules.len(),
{
    if rules.len() > 0 {
        lemma_apply_dims(t, rules[0]);
        lemma_table_from_dims(apply_rule(t, rules[0]), rules.drop_first());
    }
}

/// A sane cell: its next state is a real state other than start-of-text,
/// and a mandatory break is also an allowed one.
pub open spec fn cell_sane(v: u8) -> bool {
    &&& next_of(v) < 53
    &&& next_of(v) != 44
    &&& mandatory_of(v) ==> allowed_of(v)
}

/// Every cell of the table is sane.
pub open spec fn table_sane(t: Seq<Seq<u8>>) -> bool {
    forall|i: int, j: int|
        0 <= i < STATE_COUNT && 0 <= j < COLUMN_COUNT ==> cell_sane(#[trigger] t[i][j])
}

/// A rule that keeps the table sane: what it writes afresh is itself a
/// sane cell.
pub open spec fn rule_sane(r: Rule) -> bool {
    match r {
        Rule::Assert { .. } => true,
        Rule::LoopBack { rows, .. } => !in_set(rows, 44),
        Rule::RememberPair { state, .. } => state < 53 && state != 44,
        Rule::CopyState { .. } => true,
    }
}

/// The break-assertion operators keep a cell's next state, set or clear
/// exactly their flags, and keep a sane cell sane.
pub proof fn lemma_apply_op_sane(op: RuleOp, v: u8)
    ensures
        next_of(apply_op(op, v)) == next_of(v),
        cell_sane(v) ==> cell_sane(apply_op(op, v)),
        op is Forbid ==> !allowed_of(apply_op(op, v)) && !mandatory_of(apply_op(op, v)),
        op is Allow ==> allowed_of(apply_op(op, v)) && mandatory_of(apply_op(op, v))
            == mandatory_of(v),
        op is Mandatory ==> allowed_of(apply_op(op, v)) && mandatory_of(apply_op(op, v)),
{
    assert((0x80u8 | 0x40u8) == 0xC0u8) by (bit_vector);
    assert(((v & 0x3F) & 0x3F) == (v & 0x3F) && ((v & 0x3F) & 0x40) != 0x40 && ((v & 0x3F)
        & 0x80) != 0x80) by (bit_vector);
    assert(((v | 0x80) & 0x3F) == (v & 0x3F) && ((v | 0x80) & 0x80) == 0x80 && ((v | 0x80)
        & 0x40) == (v & 0x40)) by (bit_vector);
    assert(((v | 0xC0) & 0x3F) == (v & 0x3F) && ((v | 0xC0) & 0x80) == 0x80 && ((v | 0xC0)
        & 0x40) == 0x40) by (bit_vector);
}

/// Membership in a union of sets is membership in either.
pub proof fn lemma_in_set_or()
    ensures
        forall|x: u64, y: u64, j: int|
            #![trigger in_set(x | y, j)]
            in_set(x | y, j) <==> (in_set(x, j) || in_set(y, j)),
{
    assert forall|x: u64, y: u64, j: int| #![trigger in_set(x | y, j)] in_set(x | y, j) <==> (
    in_set(x, j) || in_set(y, j)) by {
        if 0 <= j < 64 {
            let b = j as u64;
            assert(b < 64 ==> ((((x | y) >> b) & 1u64 == 1u64) <==> (((x >> b) & 1u64 == 1u64)
                || ((y >> b) & 1u64 == 1u64)))) by (bit_vector);
        }
    }
}

/// A raw state index below the table is a sane cell with itself as next
/// state and no flags.
proof fn lemma_state_cell_sane(s: u8)
    requires
        s < 53,
        s != 44,
    ensures
        cell_sane(s),
        next_of(s) == s,
        !allowed_of(s),
        !mandatory_of(s),
{
    assert(s < 53 ==> (s & 0x3F) == s && (s & 0x80) != 0x80 && (s & 0x40) != 0x40) by (bit_vector);
}

/// Applying a sane rule keeps every cell sane.
pub proof fn lemma_apply_sane(t: Seq<Seq<u8>>, r: Rule)
    requires
        dims_ok(t),
        table_sane(t),
        rule_sane(r),
    ensures
        table_sane(apply_rule(t, r)),
{
    let u = apply_rule(t, r);
    assert forall|i: int, j: int|
        0 <= i < STATE_COUNT && 0 <= j < COLUMN_COUNT implies cell_sane(#[trigger] u[i][j]) by {
        match r {
            Rule::Assert { rows, op, cols } => {
                if in_set(rows, i) && in_set(cols, j) {
                    lemma_apply_op_sane(op, t[i][j]);
                }
            },
            Rule::LoopBack { rows, cols } => {
                if in_set(rows, i) && in_set(cols, j) {
                    lemma_state_cell_sane(i as u8);
                }
            },
            Rule::RememberPair { rows, cols, state } => {
                if in_set(rows, i) && in_set(cols, j) {
                    lemma_state_cell_sane(state);
                }
            },
            Rule::CopyState { targets, from } => {
                assert(u[i][j] == t[i][j] || (from < COLUMN_COUNT && u[i][j] == t[i][
                    from as int]) || (from < t.len() && u[i][j] == t[from as int][j]) || (from
                    < t.len() && from < COLUMN_COUNT && u[i][j] == t[from as int][from as int]));
            },
        }
    }
}

/// Applying a list of sane rules keeps every cell sane.
pub proof fn lemma_table_from_sane(t: Seq<Seq<u8>>, rules: Seq<Rule>)
    requires
        dims_ok(t),
        table_sane(t),
        forall|k: int| 0 <= k < rules.len() ==> rule_sane(#[trigger] rules[k]),
    ensures
        table_sane(table_from(t, rules)),
    decreases rules.len(),
{
    if rules.len() > 0 {
        lemma_apply_dims(t, rules[0]);
        lemma_apply_sane(t, rules[0]);
        lemma_table_from_sane(apply_rule(t, rules[0]), rules.drop_first());
    }
}

/// The line-feed column always transfers to the line-feed state.
pub open spec fn lf_column_ok(t: Seq<Seq<u8>>) -> bool {
    forall|i: int| 0 <= i < STATE_COUNT ==> next_of(#[trigger] t[i][2]) == 2
}

/// A rule that leaves the line-feed column's transitions alone: it
/// neither writes a fresh state into that column nor aliases it.
pub open spec fn rule_keeps_lf_column(r: Rule) -> bool {
    match r {
        Rule::Assert { .. } => true,
        Rule::LoopBack { cols, .. } => !in_set(cols, 2),
        Rule::RememberPair { cols, .. } => !in_set(cols, 2),
        Rule::CopyState { targets, .. } => !in_set(targets, 2),
    }
}

/// Applying a rule that keeps the line-feed column keeps its transitions.
pub proof fn lemma_apply_lf_column(t: Seq<Seq<u8>>, r: Rule)
    requires
        dims_ok(t),
        lf_column_ok(t),
        rule_keeps_lf_column(r),
    ensures
        lf_column_ok(apply_rule(t, r)),
{
    let u = apply_rule(t, r);
    assert forall|i: int| 0 <= i < STATE_COUNT implies next_of(#[trigger] u[i][2]) == 2 by {
        match r {
            Rule::Assert { rows, op, cols } => {
                if in_set(rows, i) && in_set(cols, 2) {
                    lemma_apply_op_sane(op, t[i][2]);
                }
            },
            Rule::LoopBack { .. } => {},
            Rule::RememberPair { .. } => {},
            Rule::CopyState { targets, from } => {
                if in_set(targets, i) && from < t.len() {
                    assert(u[i][2] == t[from as int][2]);
                }
            },
        }
    }
}

/// Applying a list of such rules keeps the line-feed column.
pub proof fn lemma_table_from_lf_column(t: Seq<Seq<u8>>, rules: Seq<Rule>)
    requires
        dims_ok(t),
        lf_column_ok(t),
        forall|k: int| 0 <= k < rules.len() ==> rule_keeps_lf_column(#[trigger] rules[k]),
    ensures
        lf_column_ok(table_from(t, rules)),
    decreases rules.len(),
{
    if rules.len() > 0 {
        lemma_apply_dims(t, rules[0]);
        lemma_apply_lf_column(t, rules[0]);
        lemma_table_from_lf_column(apply_rule(t, rules[0]), rules.drop_first());
    }
}

/// The line-feed row breaks mandatorily before every column.
pub open spec fn lf_row_ok(t: Seq<Seq<u8>>) -> bool {
    forall|j: int|
        0 <= j < COLUMN_COUNT ==> allowed_of(#[trigger] t[2][j]) && mandatory_of(t[2][j])
}

/// Every row but start-of-text breaks mandatorily before end of text.
pub open spec fn eot_col_ok(t: Seq<Seq<u8>>) -> bool {
    forall|i: int|
        0 <= i < STATE_COUNT && i != 44 ==> allowed_of(#[trigger] t[i][43]) && mandatory_of(
            t[i][43],
        )
}

/// The start-of-text row breaks nowhere.
pub open spec fn sot_row_ok(t: Seq<Seq<u8>>) -> bool {
    forall|j: int|
        0 <= j < COLUMN_COUNT ==> !allowed_of(#[trigger] t[44][j]) && !mandatory_of(t[44][j])
}

/// The identity table is sane and keeps the line-feed column.
pub proof fn lemma_identity_sane()
    ensures
        dims_ok(identity_table()),
        table_sane(identity_table()),
        lf_column_ok(identity_table()),
{
    let t = identity_table();
    assert forall|i: int, j: int|
        0 <= i < STATE_COUNT && 0 <= j < COLUMN_COUNT implies cell_sane(#[trigger] t[i][j]) by {
        assert(t[i][j] == j as u8);
        let v = j as u8;
        assert(v < 44 ==> (v & 0x3F) == v && (v & 0x80) != 0x80 && (v & 0x40) != 0x40)
            by (bit_vector);
    }
    assert forall|i: int| 0 <= i < STATE_COUNT implies next_of(#[trigger] t[i][2]) == 2 by {
        assert(t[i][2] == 2u8);
        assert((2u8 & 0x3F) == 2) by (bit_vector);
    }
}

} // verus!
