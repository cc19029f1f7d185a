//! The ordered rule list of the line-breaking algorithm.
//!
//! The list is applied first to last, and a later rule overwrites what an
//! earlier one decided on an overlapping cell.  The most general rules
//! (break everywhere) therefore come first and the non-tailorable rules
//! (never break at start of text, always at end, hard line breaks) come
//! last; each entry names the rule of UAX #14 it encodes.
//!
//! Multi-character context is handled with the synthetic states: a rule
//! like "do not break within `B SP* A`" becomes "remember `B SP` as the
//! state BSP, treat BSP as SP, and forbid the break between (B | BSP) and
//! A", which a pair table can express.

use vstd::prelude::*;

use crate::classes::AI;
use crate::classes::AL;
use crate::classes::B2;
use crate::classes::BA;
use crate::classes::BB;
use crate::classes::BK;
use crate::classes::CB;
use crate::classes::CJ;
use crate::classes::CL;
use crate::classes::CM;
use crate::classes::CP;
use crate::classes::CR;
use crate::classes::EB;
use crate::classes::EM;
use crate::classes::EX;
use crate::classes::GL;
use crate::classes::H2;
use crate::classes::H3;
use crate::classes::HL;
use crate::classes::HY;
use crate::classes::ID;
use crate::classes::IN;
use crate::classes::IS;
use crate::classes::JL;
use crate::classes::JT;
use crate::classes::JV;
use crate::classes::LF;
use crate::classes::NL;
use crate::classes::NS;
use crate::classes::NU;
use crate::classes::OP;
use crate::classes::PO;
use crate::classes::PR;
use crate::classes::QU;
use crate::classes::RI;
use crate::classes::SA;
use crate::classes::SG;
use crate::classes::SP;
use crate::classes::SY;
use crate::classes::WJ;
use crate::classes::XX;
use crate::classes::ZW;
use crate::classes::ZWJ;
use crate::classes::B2SP;
use crate::classes::CLSP;
use crate::classes::CPSP;
use crate::classes::EOT;
use crate::classes::HLHYBA;
use crate::classes::OPSP;
use crate::classes::QUSP;
use crate::classes::RIRI;
use crate::classes::SOT;
use crate::classes::ZWSP;
use crate::pair::Rule;
use crate::pair::in_set;
use crate::pair::lemma_in_set_or;
use crate::pair::RuleOp;
use crate::pair::rule_keeps_lf_column;
use crate::pair::rule_sane;
use crate::pair::rule_states_ok;
use crate::pair::rules_valid;
use crate::pair::apply_rule;
use crate::pair::apply_op;
use crate::pair::table_after;
use crate::pair::table_from;
use crate::pair::identity_table;
use crate::pair::dims_ok;
use crate::pair::lf_row_ok;
use crate::pair::eot_col_ok;
use crate::pair::sot_row_ok;
use crate::pair::allowed_of;
use crate::pair::mandatory_of;
use crate::pair::lemma_apply_dims;
use crate::pair::lemma_apply_op_sane;
use crate::pair::lemma_identity_sane;
use crate::pair::lemma_table_from_concat;
use crate::pair::lemma_table_from_dims;
use crate::pair::lemma_table_from_lf_column;
use crate::pair::lemma_table_from_sane;

verus! {

/// Every row of the pair table: the canonical classes and the synthetic
/// states.
pub const ALL_ROWS: u64 = 0x001F_FFFF_FFFF_FFFF;

/// Every column of the pair table: the canonical classes and end-of-text.
pub const ALL_COLS: u64 = 0x0FFF_FFFF_FFFF;

/// The set holding the single state or column `i`.
#[verifier::allow_in_spec]
pub fn only(i: u8) -> u64
    requires
        i < 64,
    returns
        1u64 << i,
{
    1u64 << i
}

/// Every row but those of the given set.
#[verifier::allow_in_spec]
pub fn rows_except(m: u64) -> u64
    returns
        ALL_ROWS & !m,
{
    ALL_ROWS & !m
}

/// A break assertion that clears the break flags of the covered cells.
#[verifier::allow_in_spec]
pub fn forbid(rows: u64, cols: u64) -> Rule
    returns
        (Rule::Assert { rows, op: RuleOp::Forbid, cols }),
{
    Rule::Assert { rows, op: RuleOp::Forbid, cols }
}

/// A break assertion that sets the allowed flag of the covered cells.
#[verifier::allow_in_spec]
pub fn allow(rows: u64, cols: u64) -> Rule
    returns
        (Rule::Assert { rows, op: RuleOp::Allow, cols }),
{
    Rule::Assert { rows, op: RuleOp::Allow, cols }
}

/// A break assertion that sets both break flags of the covered cells.
#[verifier::allow_in_spec]
pub fn mandatory(rows: u64, cols: u64) -> Rule
    returns
        (Rule::Assert { rows, op: RuleOp::Mandatory, cols }),
{
    Rule::Assert { rows, op: RuleOp::Mandatory, cols }
}

/// A combining-run rule: the covered rows absorb the covered classes.
#[verifier::allow_in_spec]
pub fn absorb(rows: u64, cols: u64) -> Rule
    returns
        (Rule::LoopBack { rows, cols }),
{
    Rule::LoopBack { rows, cols }
}

/// A pair-aliasing rule: the covered pairs transfer to a synthetic state.
#[verifier::allow_in_spec]
pub fn remember(rows: u64, cols: u64, state: u8) -> Rule
    returns
        (Rule::RememberPair { rows, cols, state }),
{
    Rule::RememberPair { rows, cols, state }
}

/// A state-aliasing rule: the targets behave like the `from` state.
#[verifier::allow_in_spec]
pub fn alias(targets: u64, from: u8) -> Rule
    returns
        (Rule::CopyState { targets, from }),
{
    Rule::CopyState { targets, from }
}

/// Rules LB31 down to LB25: the general break-everywhere default,
/// then the pairings of emoji, regional indicators, parentheses,
/// letters, Korean syllables and numeric expressions.
pub open spec fn rules_lb31_lb25() -> Seq<Rule> {
    seq![

        // LB31: break everywhere else, after and before.
        allow(ALL_ROWS, ALL_COLS),
        allow(ALL_ROWS, ALL_COLS),
        // LB30b: do not break between an emoji base and an emoji modifier.
        forbid(only(EB), only(EM)),
        // LB30a: break between two regional indicators exactly where an even
        // number of them precedes; an odd run is remembered as RIRI.
        alias(only(RIRI), RI),
        remember(only(RI), only(RI), RIRI),
        forbid(only(RI), only(RI)),
        // LB30: do not break between letters, numbers, or ordinary symbols
        // and opening or closing parentheses.
        forbid(only(CP), only(AL) | only(HL) | only(NU)),
        forbid(only(AL) | only(HL) | only(NU), only(OP)),
        // LB29: do not break between numeric punctuation and alphabetics.
        forbid(only(IS), only(AL) | only(HL)),
        // LB28: do not break between alphabetics.
        forbid(only(AL) | only(HL), only(AL) | only(HL)),
        // LB27: treat a Korean syllable block the same as an ideograph.
        forbid(only(PR), only(JL) | only(JV) | only(JT) | only(H2) | only(H3)),
        forbid(only(JL) | only(JV) | only(JT) | only(H2) | only(H3), only(PO)),
        forbid(only(JL) | only(JV) | only(JT) | only(H2) | only(H3), only(IN)),
        // LB26: do not break a Korean syllable.
        forbid(only(JT) | only(H3), only(JT)),
        forbid(only(JV) | only(H2), only(JV) | only(JT)),
        forbid(only(JL), only(JL) | only(JV) | only(H2) | only(H3)),
        // LB25: do not break between the pairs of classes relevant to numbers.
        forbid(only(SY), only(NU)),
        forbid(only(NU), only(NU)),
        forbid(only(IS), only(NU)),
        forbid(only(HY), only(NU)),
        forbid(only(PR), only(NU)),
        forbid(only(PR), only(OP)),
        forbid(only(PO), only(NU)),
        forbid(only(PO), only(OP)),
        forbid(only(NU), only(PR)),
        forbid(only(NU), only(PO)),
        forbid(only(CP), only(PR)),
        forbid(only(CL), only(PR)),
        forbid(only(CP), only(PO)),
        forbid(only(CL), only(PO)),
    ]
}

/// Rules LB24 down to LB21: numeric prefixes and postfixes, ellipses,
/// Hebrew-letter hyphenation, and the break-after and break-before
/// classes.
pub open spec fn rules_lb24_lb21() -> Seq<Rule> {
    seq![
        // LB24: do not break between numeric prefix or postfix and letters.
        forbid(only(AL) | only(HL), only(PR) | only(PO)),
        forbid(only(PR) | only(PO), only(AL) | only(HL)),
        // LB23a: do not break between numeric prefixes and ideographs, or
        // between ideographs and numeric postfixes.
        forbid(only(ID) | only(EB) | only(EM), only(PO)),
        forbid(only(PR), only(ID) | only(EB) | only(EM)),
        // LB23: do not break between digits and letters.
        forbid(only(NU), only(AL) | only(HL)),
        forbid(only(AL) | only(HL), only(NU)),
        // LB22: do not break before ellipsis after letters, numbers,
        // exclamations, ideographs or another ellipsis.
        forbid(only(NU), only(IN)),
        forbid(only(IN), only(IN)),
        forbid(only(ID) | only(EB) | only(EM), only(IN)),
        forbid(only(EX), only(IN)),
        forbid(only(AL) | only(HL), only(IN)),
        // LB21b: do not break between a solidus and Hebrew letters.
        forbid(only(SY), only(HL)),
        // LB21a: do not break after a Hebrew letter followed by a hyphen;
        // the pair is remembered as one state.
        alias(only(HLHYBA), HY),
        remember(only(HL), only(HY) | only(BA), HLHYBA),
        forbid(only(HLHYBA), ALL_COLS),
        // LB21: do not break before hyphens, other break-after characters
        // and non-starters, nor after break-before characters.
        forbid(only(BB), ALL_COLS),
        forbid(ALL_ROWS, only(NS)),
        forbid(ALL_ROWS, only(HY)),
        forbid(ALL_ROWS, only(BA)),
    ]
}

/// Rules LB20 down to LB14: contingent breaks, quotation marks,
/// spaces, and the space-run memory states of the bracketing classes.
pub open spec fn rules_lb20_lb14() -> Seq<Rule> {
    seq![
        // LB20: break before and after unresolved contingent breaks.
        allow(only(CB), ALL_COLS),
        allow(ALL_ROWS, only(CB)),
        // LB19: do not break before or after quotation marks.
        forbid(only(QU), ALL_COLS),
        forbid(ALL_ROWS, only(QU)),
        // LB18: break after spaces.
        allow(only(SP), ALL_COLS),
        // LB17: do not break within a pair of break-both dashes, even with
        // intervening spaces.
        alias(only(B2SP), SP),
        remember(only(B2) | only(B2SP), only(SP), B2SP),
        forbid(only(B2) | only(B2SP), only(B2)),
        // LB16: do not break between closing punctuation and a non-starter,
        // even with intervening spaces.
        alias(only(CPSP), SP),
        remember(only(CP) | only(CPSP), only(SP), CPSP),
        alias(only(CLSP), SP),
        remember(only(CL) | only(CLSP), only(SP), CLSP),
        forbid(only(CL) | only(CLSP) | only(CP) | only(CPSP), only(NS)),
        // LB15: do not break within a quotation mark followed by opening
        // punctuation, even with intervening spaces.
        alias(only(QUSP), SP),
        remember(only(QU) | only(QUSP), only(SP), QUSP),
        forbid(only(QU) | only(QUSP), only(OP)),
        // LB14: do not break after opening punctuation, even after spaces.
        alias(only(ZWSP), SP),
        remember(only(OP) | only(OPSP), only(SP), OPSP),
        forbid(only(OP) | only(OPSP), ALL_COLS),
    ]
}

/// Rules LB13 down to LB1: closing punctuation, glue, word joiners,
/// combining runs, zero-width spaces, hard line breaks, the ends of
/// the text, and the resolution of the context-dependent classes.
pub open spec fn rules_lb13_lb1() -> Seq<Rule> {
    seq![
        // LB13: do not break before closing punctuation, exclamations,
        // separators or symbols, even after spaces.
        forbid(ALL_ROWS, only(SY)),
        forbid(ALL_ROWS, only(IS)),
        forbid(ALL_ROWS, only(EX)),
        forbid(ALL_ROWS, only(CP)),
        forbid(ALL_ROWS, only(CL)),
        // LB12a: do not break before glue, except after spaces and hyphens.
        forbid(
            rows_except(
                only(SP) | only(BA) | only(HY) | only(SOT) | only(EOT) | only(ZWSP) | only(OPSP)
                    | only(QUSP) | only(CLSP) | only(CPSP) | only(B2SP),
            ),
            only(GL),
        ),
        // LB12: do not break after glue.
        forbid(only(GL), ALL_COLS),
        // LB11: do not break before or after a word joiner.
        forbid(only(WJ), ALL_COLS),
        forbid(ALL_ROWS, only(WJ)),
        // LB10: treat any remaining combining mark or joiner as alphabetic.
        alias(only(CM) | only(ZWJ), AL),
        // LB9: a combining-character run keeps the base character's class;
        // the base states absorb following marks and joiners.
        absorb(
            rows_except(
                only(BK) | only(CR) | only(LF) | only(NL) | only(SP) | only(ZW) | only(SOT) | only(
                    EOT,
                ) | only(ZWSP) | only(OPSP) | only(QUSP) | only(CLSP) | only(CPSP) | only(B2SP),
            ),
            only(CM) | only(ZWJ),
        ),
        // LB8: break before any character following a zero-width space,
        // even with intervening spaces.
        alias(only(ZWSP), SP),
        remember(only(ZW) | only(ZWSP), only(SP), ZWSP),
        allow(only(ZW) | only(ZWSP), ALL_COLS),
        // LB7: do not break before spaces or a zero-width space.
        forbid(ALL_ROWS, only(ZW)),
        forbid(ALL_ROWS, only(SP)),
        // LB6: do not break before hard line breaks.
        forbid(ALL_ROWS, only(BK) | only(CR) | only(LF) | only(NL)),
        // LB5: treat carriage return, line feed and next line as hard line
        // breaks, except between a carriage return and a line feed.
        mandatory(only(NL), ALL_COLS),
        mandatory(only(LF), ALL_COLS),
        mandatory(only(CR), ALL_COLS),
        forbid(only(CR), only(LF)),
        // LB4: always break after hard line breaks.
        mandatory(only(BK), ALL_COLS),
        // LB3: always break at the end of text.
        mandatory(ALL_ROWS, only(EOT)),
        // LB2: never break at the start of text.
        forbid(only(SOT), ALL_COLS),
        // LB1: resolve the context-dependent classes; complex context
        // resolves to alphabetic, a conditional starter to a non-starter.
        alias(only(CJ), NS),
        alias(only(AI) | only(SG) | only(XX) | only(SA), AL),
    ]
}

/// The set of one state or column holds exactly that index.
pub proof fn lemma_in_set_only()
    ensures
        forall|i: u8, j: int|
            #![trigger in_set(only(i), j)]
            i < 64 ==> (in_set(only(i), j) <==> j == i),
{
    assert forall|i: u8, j: int| #![trigger in_set(only(i), j)] i < 64 implies (in_set(only(i), j)
        <==> j == i) by {
        if 0 <= j < 64 {
            let b = j as u64;
            assert(i < 64 && b < 64 ==> ((((1u64 << i) >> b) & 1u64 == 1u64) <==> b == i))
                by (bit_vector);
        }
    }
}

/// The set of every row holds exactly the row indices.
pub proof fn lemma_in_set_all_rows()
    ensures
        forall|j: int| #![trigger in_set(ALL_ROWS, j)] in_set(ALL_ROWS, j) <==> 0 <= j < 53,
{
    assert forall|j: int| #![trigger in_set(ALL_ROWS, j)] in_set(ALL_ROWS, j) <==> 0 <= j < 53 by {
        if 0 <= j < 64 {
            let b = j as u64;
            assert(b < 64 ==> (((0x001F_FFFF_FFFF_FFFFu64 >> b) & 1u64 == 1u64) <==> b < 53))
                by (bit_vector);
        }
    }
}

/// The set of every column holds exactly the column indices.
pub proof fn lemma_in_set_all_cols()
    ensures
        forall|j: int| #![trigger in_set(ALL_COLS, j)] in_set(ALL_COLS, j) <==> 0 <= j < 44,
{
    assert forall|j: int| #![trigger in_set(ALL_COLS, j)] in_set(ALL_COLS, j) <==> 0 <= j < 44 by {
        if 0 <= j < 64 {
            let b = j as u64;
            assert(b < 64 ==> (((0x0FFF_FFFF_FFFFu64 >> b) & 1u64 == 1u64) <==> b < 44))
                by (bit_vector);
        }
    }
}

/// The complement set holds exactly the rows outside the given set.
pub proof fn lemma_in_set_except()
    ensures
        forall|m: u64, j: int|
            #![trigger in_set(rows_except(m), j)]
            in_set(rows_except(m), j) <==> (0 <= j < 53 && !in_set(m, j)),
{
    assert forall|m: u64, j: int| #![trigger in_set(rows_except(m), j)] in_set(rows_except(m), j)
        <==> (0 <= j < 53 && !in_set(m, j)) by {
        if 0 <= j < 64 {
            let b = j as u64;
            assert(b < 64 ==> ((((0x001F_FFFF_FFFF_FFFFu64 & !m) >> b) & 1u64 == 1u64) <==> (b
                < 53 && !((m >> b) & 1u64 == 1u64)))) by (bit_vector);
        }
    }
}

/// The rule list of UAX #14, in application order: later entries override
/// earlier ones where they overlap.
pub open spec fn uax_rules() -> Seq<Rule> {
    rules_lb31_lb25() + rules_lb24_lb21() + rules_lb20_lb14() + rules_lb13_lb1()
}

/// Append the rules of [`rules_lb31_lb25`].
#[verifier::rlimit(100)]
#[verifier::spinoff_prover]
fn push_rules_lb31_lb25(v: &mut Vec<Rule>)
    ensures
        final(v)@ == old(v)@ + rules_lb31_lb25(),
{
    v.push(allow(ALL_ROWS, ALL_COLS));
    v.push(allow(ALL_ROWS, ALL_COLS));
    v.push(forbid(only(EB), only(EM)));
    v.push(alias(only(RIRI), RI));
    v.push(remember(only(RI), only(RI), RIRI));
    v.push(forbid(only(RI), only(RI)));
    v.push(forbid(only(CP), only(AL) | only(HL) | only(NU)));
    v.push(forbid(only(AL) | only(HL) | only(NU), only(OP)));
    v.push(forbid(only(IS), only(AL) | only(HL)));
    v.push(forbid(only(AL) | only(HL), only(AL) | only(HL)));
    v.push(forbid(only(PR), only(JL) | only(JV) | only(JT) | only(H2) | only(H3)));
    v.push(forbid(only(JL) | only(JV) | only(JT) | only(H2) | only(H3), only(PO)));
    v.push(forbid(only(JL) | only(JV) | only(JT) | only(H2) | only(H3), only(IN)));
    v.push(forbid(only(JT) | only(H3), only(JT)));
    v.push(forbid(only(JV) | only(H2), only(JV) | only(JT)));
    v.push(forbid(only(JL), only(JL) | only(JV) | only(H2) | only(H3)));
    v.push(forbid(only(SY), only(NU)));
    v.push(forbid(only(NU), only(NU)));
    v.push(forbid(only(IS), only(NU)));
    v.push(forbid(only(HY), only(NU)));
    v.push(forbid(only(PR), only(NU)));
    v.push(forbid(only(PR), only(OP)));
    v.push(forbid(only(PO), only(NU)));
    v.push(forbid(only(PO), only(OP)));
    v.push(forbid(only(NU), only(PR)));
    v.push(forbid(only(NU), only(PO)));
    v.push(forbid(only(CP), only(PR)));
    v.push(forbid(only(CL), only(PR)));
    v.push(forbid(only(CP), only(PO)));
    v.push(forbid(only(CL), only(PO)));
    proof {
        assert(v@ =~= old(v)@ + rules_lb31_lb25());
    }
}

/// Append the rules of [`rules_lb24_lb21`].
#[verifier::rlimit(100)]
#[verifier::spinoff_prover]
fn push_rules_lb24_lb21(v: &mut Vec<Rule>)
    ensures
        final(v)@ == old(v)@ + rules_lb24_lb21(),
{
    v.push(forbid(only(AL) | only(HL), only(PR) | only(PO)));
    v.push(forbid(only(PR) | only(PO), only(AL) | only(HL)));
    v.push(forbid(only(ID) | only(EB) | only(EM), only(PO)));
    v.push(forbid(only(PR), only(ID) | only(EB) | only(EM)));
    v.push(forbid(only(NU), only(AL) | only(HL)));
    v.push(forbid(only(AL) | only(HL), only(NU)));
    v.push(forbid(only(NU), only(IN)));
    v.push(forbid(only(IN), only(IN)));
    v.push(forbid(only(ID) | only(EB) | only(EM), only(IN)));
    v.push(forbid(only(EX), only(IN)));
    v.push(forbid(only(AL) | only(HL), only(IN)));
    v.push(forbid(only(SY), only(HL)));
    v.push(alias(only(HLHYBA), HY));
    v.push(remember(only(HL), only(HY) | only(BA), HLHYBA));
    v.push(forbid(only(HLHYBA), ALL_COLS));
    v.push(forbid(only(BB), ALL_COLS));
    v.push(forbid(ALL_ROWS, only(NS)));
    v.push(forbid(ALL_ROWS, only(HY)));
    v.push(forbid(ALL_ROWS, only(BA)));
    proof {
        assert(v@ =~= old(v)@ + rules_lb24_lb21());
    }
}

/// Append the rules of [`rules_lb20_lb14`].
#[verifier::rlimit(100)]
#[verifier::spinoff_prover]
fn push_rules_lb20_lb14(v: &mut Vec<Rule>)
    ensures
        final(v)@ == old(v)@ + rules_lb20_lb14(),
{
    v.push(allow(only(CB), ALL_COLS));
    v.push(allow(ALL_ROWS, only(CB)));
    v.push(forbid(only(QU), ALL_COLS));
    v.push(forbid(ALL_ROWS, only(QU)));
    v.push(allow(only(SP), ALL_COLS));
    v.push(alias(only(B2SP), SP));
    v.push(remember(only(B2) | only(B2SP), only(SP), B2SP));
    v.push(forbid(only(B2) | only(B2SP), only(B2)));
    v.push(alias(only(CPSP), SP));
    v.push(remember(only(CP) | only(CPSP), only(SP), CPSP));
    v.push(alias(only(CLSP), SP));
    v.push(remember(only(CL) | only(CLSP), only(SP), CLSP));
    v.push(forbid(only(CL) | only(CLSP) | only(CP) | only(CPSP), only(NS)));
    v.push(alias(only(QUSP), SP));
    v.push(remember(only(QU) | only(QUSP), only(SP), QUSP));
    v.push(forbid(only(QU) | only(QUSP), only(OP)));
    v.push(alias(only(ZWSP), SP));
    v.push(remember(only(OP) | only(OPSP), only(SP), OPSP));
    v.push(forbid(only(OP) | only(OPSP), ALL_COLS));
    proof {
        assert(v@ =~= old(v)@ + rules_lb20_lb14());
    }
}

/// Append the rules of [`rules_lb13_lb1`].
#[verifier::rlimit(100)]
#[verifier::spinoff_prover]
fn push_rules_lb13_lb1(v: &mut Vec<Rule>)
    ensures
        final(v)@ == old(v)@ + rules_lb13_lb1(),
{
    v.push(forbid(ALL_ROWS, only(SY)));
    v.push(forbid(ALL_ROWS, only(IS)));
    v.push(forbid(ALL_ROWS, only(EX)));
    v.push(forbid(ALL_ROWS, only(CP)));
    v.push(forbid(ALL_ROWS, only(CL)));
    v.push(
        forbid(
            rows_except(
                only(SP) | only(BA) | only(HY) | only(SOT) | only(EOT) | only(ZWSP) | only(OPSP)
                    | only(QUSP) | only(CLSP) | only(CPSP) | only(B2SP),
            ),
            only(GL),
        ),
    );
    v.push(forbid(only(GL), ALL_COLS));
    v.push(forbid(only(WJ), ALL_COLS));
    v.push(forbid(ALL_ROWS, only(WJ)));
    v.push(alias(only(CM) | only(ZWJ), AL));
    v.push(
        absorb(
            rows_except(
                only(BK) | only(CR) | only(LF) | only(NL) | only(SP) | only(ZW) | only(SOT) | only(
                    EOT,
                ) | only(ZWSP) | only(OPSP) | only(QUSP) | only(CLSP) | only(CPSP) | only(B2SP),
            ),
            only(CM) | only(ZWJ),
        ),
    );
    v.push(alias(only(ZWSP), SP));
    v.push(remember(only(ZW) | only(ZWSP), only(SP), ZWSP));
    v.push(allow(only(ZW) | only(ZWSP), ALL_COLS));
    v.push(forbid(ALL_ROWS, only(ZW)));
    v.push(forbid(ALL_ROWS, only(SP)));
    v.push(forbid(ALL_ROWS, only(BK) | only(CR) | only(LF) | only(NL)));
    v.push(mandatory(only(NL), ALL_COLS));
    v.push(mandatory(only(LF), ALL_COLS));
    v.push(mandatory(only(CR), ALL_COLS));
    v.push(forbid(only(CR), only(LF)));
    v.push(mandatory(only(BK), ALL_COLS));
    v.push(mandatory(ALL_ROWS, only(EOT)));
    v.push(forbid(only(SOT), ALL_COLS));
    v.push(alias(only(CJ), NS));
    v.push(alias(only(AI) | only(SG) | only(XX) | only(SA), AL));
    proof {
        assert(v@ =~= old(v)@ + rules_lb13_lb1());
    }
}

/// Build the rule list of [`uax_rules`] for the compiler.
pub fn default_rules() -> (r: Vec<Rule>)
    ensures
        r@ == uax_rules(),
{
    let mut v: Vec<Rule> = Vec::new();
    push_rules_lb31_lb25(&mut v);
    push_rules_lb24_lb21(&mut v);
    push_rules_lb20_lb14(&mut v);
    push_rules_lb13_lb1(&mut v);
    proof {
        assert(v@ =~= uax_rules());
    }
    v
}




/// Every rule of [`rules_lb31_lb25`] resolves within the table, keeps the
/// table sane, and leaves the line-feed column's transitions alone.
#[verifier::rlimit(100)]
#[verifier::spinoff_prover]
proof fn lemma_lb31_lb25_ok()
    ensures
        rules_lb31_lb25().len() == 30,
        forall|k: int|
            0 <= k < rules_lb31_lb25().len() ==> rule_states_ok(#[trigger] rules_lb31_lb25()[k]) && rule_sane(
                rules_lb31_lb25()[k]) && rule_keeps_lf_column(rules_lb31_lb25()[k]),
{
    lemma_in_set_only();
    lemma_in_set_or();
    lemma_in_set_except();
    let p = rules_lb31_lb25();
    assert forall|k: int|
        0 <= k < p.len() implies rule_states_ok(#[trigger] p[k]) && rule_sane(p[k])
        && rule_keeps_lf_column(p[k]) by {
        if k == 0 {
            assert(rule_states_ok(p[0]) && rule_sane(p[0]) && rule_keeps_lf_column(p[0]));
        } else if k == 1 {
            assert(rule_states_ok(p[1]) && rule_sane(p[1]) && rule_keeps_lf_column(p[1]));
        } else if k == 2 {
            assert(rule_states_ok(p[2]) && rule_sane(p[2]) && rule_keeps_lf_column(p[2]));
        } else if k == 3 {
            assert(rule_states_ok(p[3]) && rule_sane(p[3]) && rule_keeps_lf_column(p[3]));
        } else if k == 4 {
            assert(rule_states_ok(p[4]) && rule_sane(p[4]) && rule_keeps_lf_column(p[4]));
        } else if k == 5 {
            assert(rule_states_ok(p[5]) && rule_sane(p[5]) && rule_keeps_lf_column(p[5]));
        } else if k == 6 {
            assert(rule_states_ok(p[6]) && rule_sane(p[6]) && rule_keeps_lf_column(p[6]));
        } else if k == 7 {
            assert(rule_states_ok(p[7]) && rule_sane(p[7]) && rule_keeps_lf_column(p[7]));
        } else if k == 8 {
            assert(rule_states_ok(p[8]) && rule_sane(p[8]) && rule_keeps_lf_column(p[8]));
        } else if k == 9 {
            assert(rule_states_ok(p[9]) && rule_sane(p[9]) && rule_keeps_lf_column(p[9]));
        } else if k == 10 {
            assert(rule_states_ok(p[10]) && rule_sane(p[10]) && rule_keeps_lf_column(p[10]));
        } else if k == 11 {
            assert(rule_states_ok(p[11]) && rule_sane(p[11]) && rule_keeps_lf_column(p[11]));
        } else if k == 12 {
            assert(rule_states_ok(p[12]) && rule_sane(p[12]) && rule_keeps_lf_column(p[12]));
        } else if k == 13 {
            assert(rule_states_ok(p[13]) && rule_sane(p[13]) && rule_keeps_lf_column(p[13]));
        } else if k == 14 {
            assert(rule_states_ok(p[14]) && rule_sane(p[14]) && rule_keeps_lf_column(p[14]));
        } else if k == 15 {
            assert(rule_states_ok(p[15]) && rule_sane(p[15]) && rule_keeps_lf_column(p[15]));
        } else if k == 16 {
            assert(rule_states_ok(p[16]) && rule_sane(p[16]) && rule_keeps_lf_column(p[16]));
        } else if k == 17 {
            assert(rule_states_ok(p[17]) && rule_sane(p[17]) && rule_keeps_lf_column(p[17]));
        } else if k == 18 {
            assert(rule_states_ok(p[18]) && rule_sane(p[18]) && rule_keeps_lf_column(p[18]));
        } else if k == 19 {
            assert(rule_states_ok(p[19]) && rule_sane(p[19]) && rule_keeps_lf_column(p[19]));
        } else if k == 20 {
            assert(rule_states_ok(p[20]) && rule_sane(p[20]) && rule_keeps_lf_column(p[20]));
        } else if k == 21 {
            assert(rule_states_ok(p[21]) && rule_sane(p[21]) && rule_keeps_lf_column(p[21]));
        } else if k == 22 {
            assert(rule_states_ok(p[22]) && rule_sane(p[22]) && rule_keeps_lf_column(p[22]));
        } else if k == 23 {
            assert(rule_states_ok(p[23]) && rule_sane(p[23]) && rule_keeps_lf_column(p[23]));
        } else if k == 24 {
            assert(rule_states_ok(p[24]) && rule_sane(p[24]) && rule_keeps_lf_column(p[24]));
        } else if k == 25 {
            assert(rule_states_ok(p[25]) && rule_sane(p[25]) && rule_keeps_lf_column(p[25]));
        } else if k == 26 {
            assert(rule_states_ok(p[26]) && rule_sane(p[26]) && rule_keeps_lf_column(p[26]));
        } else if k == 27 {
            assert(rule_states_ok(p[27]) && rule_sane(p[27]) && rule_keeps_lf_column(p[27]));
        } else if k == 28 {
            assert(rule_states_ok(p[28]) && rule_sane(p[28]) && rule_keeps_lf_column(p[28]));
        } else if k == 29 {
            assert(rule_states_ok(p[29]) && rule_sane(p[29]) && rule_keeps_lf_column(p[29]));
        }
    }
}

/// Every rule of [`rules_lb24_lb21`] resolves within the table, keeps the
/// table sane, and leaves the line-feed column's transitions alone.
#[verifier::rlimit(100)]
#[verifier::spinoff_prover]
proof fn lemma_lb24_lb21_ok()
    ensures
        rules_lb24_lb21().len() == 19,
        forall|k: int|
            0 <= k < rules_lb24_lb21().len() ==> rule_states_ok(#[trigger] rules_lb24_lb21()[k]) && rule_sane(
                rules_lb24_lb21()[k]) && rule_keeps_lf_column(rules_lb24_lb21()[k]),
{
    lemma_in_set_only();
    lemma_in_set_or();
    lemma_in_set_except();
    let p = rules_lb24_lb21();
    assert forall|k: int|
        0 <= k < p.len() implies rule_states_ok(#[trigger] p[k]) && rule_sane(p[k])
        && rule_keeps_lf_column(p[k]) by {
        if k == 0 {
            assert(rule_states_ok(p[0]) && rule_sane(p[0]) && rule_keeps_lf_column(p[0]));
        } else if k == 1 {
            assert(rule_states_ok(p[1]) && rule_sane(p[1]) && rule_keeps_lf_column(p[1]));
        } else if k == 2 {
            assert(rule_states_ok(p[2]) && rule_sane(p[2]) && rule_keeps_lf_column(p[2]));
        } else if k == 3 {
            assert(rule_states_ok(p[3]) && rule_sane(p[3]) && rule_keeps_lf_column(p[3]));
        } else if k == 4 {
            assert(rule_states_ok(p[4]) && rule_sane(p[4]) && rule_keeps_lf_column(p[4]));
        } else if k == 5 {
            assert(rule_states_ok(p[5]) && rule_sane(p[5]) && rule_keeps_lf_column(p[5]));
        } else if k == 6 {
            assert(rule_states_ok(p[6]) && rule_sane(p[6]) && rule_keeps_lf_column(p[6]));
        } else if k == 7 {
            assert(rule_states_ok(p[7]) && rule_sane(p[7]) && rule_keeps_lf_column(p[7]));
        } else if k == 8 {
            assert(rule_states_ok(p[8]) && rule_sane(p[8]) && rule_keeps_lf_column(p[8]));
        } else if k == 9 {
            assert(rule_states_ok(p[9]) && rule_sane(p[9]) && rule_keeps_lf_column(p[9]));
        } else if k == 10 {
            assert(rule_states_ok(p[10]) && rule_sane(p[10]) && rule_keeps_lf_column(p[10]));
        } else if k == 11 {
            assert(rule_states_ok(p[11]) && rule_sane(p[11]) && rule_keeps_lf_column(p[11]));
        } else if k == 12 {
            assert(rule_states_ok(p[12]) && rule_sane(p[12]) && rule_keeps_lf_column(p[12]));
        } else if k == 13 {
            assert(rule_states_ok(p[13]) && rule_sane(p[13]) && rule_keeps_lf_column(p[13]));
        } else if k == 14 {
            assert(rule_states_ok(p[14]) && rule_sane(p[14]) && rule_keeps_lf_column(p[14]));
        } else if k == 15 {
            assert(rule_states_ok(p[15]) && rule_sane(p[15]) && rule_keeps_lf_column(p[15]));
        } else if k == 16 {
            assert(rule_states_ok(p[16]) && rule_sane(p[16]) && rule_keeps_lf_column(p[16]));
        } else if k == 17 {
            assert(rule_states_ok(p[17]) && rule_sane(p[17]) && rule_keeps_lf_column(p[17]));
        } else if k == 18 {
            assert(rule_states_ok(p[18]) && rule_sane(p[18]) && rule_keeps_lf_column(p[18]));
        }
    }
}

/// Every rule of [`rules_lb20_lb14`] resolves within the table, keeps the
/// table sane, and leaves the line-feed column's transitions alone.
#[verifier::rlimit(100)]
#[verifier::spinoff_prover]
proof fn lemma_lb20_lb14_ok()
    ensures
        rules_lb20_lb14().len() == 19,
        forall|k: int|
            0 <= k < rules_lb20_lb14().len() ==> rule_states_ok(#[trigger] rules_lb20_lb14()[k]) && rule_sane(
                rules_lb20_lb14()[k]) && rule_keeps_lf_column(rules_lb20_lb14()[k]),
{
    lemma_in_set_only();
    lemma_in_set_or();
    lemma_in_set_except();
    let p = rules_lb20_lb14();
    assert forall|k: int|
        0 <= k < p.len() implies rule_states_ok(#[trigger] p[k]) && rule_sane(p[k])
        && rule_keeps_lf_column(p[k]) by {
        if k == 0 {
            assert(rule_states_ok(p[0]) && rule_sane(p[0]) && rule_keeps_lf_column(p[0]));
        } else if k == 1 {
            assert(rule_states_ok(p[1]) && rule_sane(p[1]) && rule_keeps_lf_column(p[1]));
        } else if k == 2 {
            assert(rule_states_ok(p[2]) && rule_sane(p[2]) && rule_keeps_lf_column(p[2]));
        } else if k == 3 {
            assert(rule_states_ok(p[3]) && rule_sane(p[3]) && rule_keeps_lf_column(p[3]));
        } else if k == 4 {
            assert(rule_states_ok(p[4]) && rule_sane(p[4]) && rule_keeps_lf_column(p[4]));
        } else if k == 5 {
            assert(rule_states_ok(p[5]) && rule_sane(p[5]) && rule_keeps_lf_column(p[5]));
        } else if k == 6 {
            assert(rule_states_ok(p[6]) && rule_sane(p[6]) && rule_keeps_lf_column(p[6]));
        } else if k == 7 {
            assert(rule_states_ok(p[7]) && rule_sane(p[7]) && rule_keeps_lf_column(p[7]));
        } else if k == 8 {
            assert(rule_states_ok(p[8]) && rule_sane(p[8]) && rule_keeps_lf_column(p[8]));
        } else if k == 9 {
            assert(rule_states_ok(p[9]) && rule_sane(p[9]) && rule_keeps_lf_column(p[9]));
        } else if k == 10 {
            assert(rule_states_ok(p[10]) && rule_sane(p[10]) && rule_keeps_lf_column(p[10]));
        } else if k == 11 {
            assert(rule_states_ok(p[11]) && rule_sane(p[11]) && rule_keeps_lf_column(p[11]));
        } else if k == 12 {
            assert(rule_states_ok(p[12]) && rule_sane(p[12]) && rule_keeps_lf_column(p[12]));
        } else if k == 13 {
            assert(rule_states_ok(p[13]) && rule_sane(p[13]) && rule_keeps_lf_column(p[13]));
        } else if k == 14 {
            assert(rule_states_ok(p[14]) && rule_sane(p[14]) && rule_keeps_lf_column(p[14]));
        } else if k == 15 {
            assert(rule_states_ok(p[15]) && rule_sane(p[15]) && rule_keeps_lf_column(p[15]));
        } else if k == 16 {
            assert(rule_states_ok(p[16]) && rule_sane(p[16]) && rule_keeps_lf_column(p[16]));
        } else if k == 17 {
            assert(rule_states_ok(p[17]) && rule_sane(p[17]) && rule_keeps_lf_column(p[17]));
        } else if k == 18 {
            assert(rule_states_ok(p[18]) && rule_sane(p[18]) && rule_keeps_lf_column(p[18]));
        }
    }
}

/// Every rule of [`rules_lb13_lb1`] resolves within the table, keeps the
/// table sane, and leaves the line-feed column's transitions alone.
#[verifier::rlimit(100)]
#[verifier::spinoff_prover]
proof fn lemma_lb13_lb1_ok()
    ensures
        rules_lb13_lb1().len() == 26,
        forall|k: int|
            0 <= k < rules_lb13_lb1().len() ==> rule_states_ok(#[trigger] rules_lb13_lb1()[k]) && rule_sane(
                rules_lb13_lb1()[k]) && rule_keeps_lf_column(rules_lb13_lb1()[k]),
{
    lemma_in_set_only();
    lemma_in_set_or();
    lemma_in_set_except();
    let p = rules_lb13_lb1();
    assert forall|k: int|
        0 <= k < p.len() implies rule_states_ok(#[trigger] p[k]) && rule_sane(p[k])
        && rule_keeps_lf_column(p[k]) by {
        if k == 0 {
            assert(rule_states_ok(p[0]) && rule_sane(p[0]) && rule_keeps_lf_column(p[0]));
        } else if k == 1 {
            assert(rule_states_ok(p[1]) && rule_sane(p[1]) && rule_keeps_lf_column(p[1]));
        } else if k == 2 {
            assert(rule_states_ok(p[2]) && rule_sane(p[2]) && rule_keeps_lf_column(p[2]));
        } else if k == 3 {
            assert(rule_states_ok(p[3]) && rule_sane(p[3]) && rule_keeps_lf_column(p[3]));
        } else if k == 4 {
            assert(rule_states_ok(p[4]) && rule_sane(p[4]) && rule_keeps_lf_column(p[4]));
        } else if k == 5 {
            assert(rule_states_ok(p[5]) && rule_sane(p[5]) && rule_keeps_lf_column(p[5]));
        } else if k == 6 {
            assert(rule_states_ok(p[6]) && rule_sane(p[6]) && rule_keeps_lf_column(p[6]));
        } else if k == 7 {
            assert(rule_states_ok(p[7]) && rule_sane(p[7]) && rule_keeps_lf_column(p[7]));
        } else if k == 8 {
            assert(rule_states_ok(p[8]) && rule_sane(p[8]) && rule_keeps_lf_column(p[8]));
        } else if k == 9 {
            assert(rule_states_ok(p[9]) && rule_sane(p[9]) && rule_keeps_lf_column(p[9]));
        } else if k == 10 {
            assert(rule_states_ok(p[10]) && rule_sane(p[10]) && rule_keeps_lf_column(p[10]));
        } else if k == 11 {
            assert(rule_states_ok(p[11]) && rule_sane(p[11]) && rule_keeps_lf_column(p[11]));
        } else if k == 12 {
            assert(rule_states_ok(p[12]) && rule_sane(p[12]) && rule_keeps_lf_column(p[12]));
        } else if k == 13 {
            assert(rule_states_ok(p[13]) && rule_sane(p[13]) && rule_keeps_lf_column(p[13]));
        } else if k == 14 {
            assert(rule_states_ok(p[14]) && rule_sane(p[14]) && rule_keeps_lf_column(p[14]));
        } else if k == 15 {
            assert(rule_states_ok(p[15]) && rule_sane(p[15]) && rule_keeps_lf_column(p[15]));
        } else if k == 16 {
            assert(rule_states_ok(p[16]) && rule_sane(p[16]) && rule_keeps_lf_column(p[16]));
        } else if k == 17 {
            assert(rule_states_ok(p[17]) && rule_sane(p[17]) && rule_keeps_lf_column(p[17]));
        } else if k == 18 {
            assert(rule_states_ok(p[18]) && rule_sane(p[18]) && rule_keeps_lf_column(p[18]));
        } else if k == 19 {
            assert(rule_states_ok(p[19]) && rule_sane(p[19]) && rule_keeps_lf_column(p[19]));
        } else if k == 20 {
            assert(rule_states_ok(p[20]) && rule_sane(p[20]) && rule_keeps_lf_column(p[20]));
        } else if k == 21 {
            assert(rule_states_ok(p[21]) && rule_sane(p[21]) && rule_keeps_lf_column(p[21]));
        } else if k == 22 {
            assert(rule_states_ok(p[22]) && rule_sane(p[22]) && rule_keeps_lf_column(p[22]));
        } else if k == 23 {
            assert(rule_states_ok(p[23]) && rule_sane(p[23]) && rule_keeps_lf_column(p[23]));
        } else if k == 24 {
            assert(rule_states_ok(p[24]) && rule_sane(p[24]) && rule_keeps_lf_column(p[24]));
        } else if k == 25 {
            assert(rule_states_ok(p[25]) && rule_sane(p[25]) && rule_keeps_lf_column(p[25]));
        }
    }
}

/// Every rule of the default list resolves within the table, keeps the
/// table sane, and leaves the line-feed column's transitions alone.
pub proof fn lemma_default_rules_ok()
    ensures
        uax_rules().len() == 94,
        forall|k: int|
            0 <= k < uax_rules().len() ==> rule_states_ok(#[trigger] uax_rules()[k]) && rule_sane(
                uax_rules()[k]) && rule_keeps_lf_column(uax_rules()[k]),
{
    lemma_lb31_lb25_ok();
    lemma_lb24_lb21_ok();
    lemma_lb20_lb14_ok();
    lemma_lb13_lb1_ok();
    let a = rules_lb31_lb25();
    let b = rules_lb24_lb21();
    let c = rules_lb20_lb14();
    let d = rules_lb13_lb1();
    let rs = uax_rules();
    assert forall|k: int|
        0 <= k < rs.len() implies rule_states_ok(#[trigger] rs[k]) && rule_sane(rs[k])
        && rule_keeps_lf_column(rs[k]) by {
        if k < 30 {
            assert(rs[k] == a[k]);
        } else if k < 49 {
            assert(rs[k] == b[k - 30]);
        } else if k < 68 {
            assert(rs[k] == c[k - 49]);
        } else {
            assert(rs[k] == d[k - 68]);
        }
    }
}

/// The default rule list is valid: every synthetic state it names
/// resolves within the table.
pub proof fn lemma_default_rules_valid()
    ensures
        rules_valid(uax_rules()),
{
    lemma_default_rules_ok();
}


/// The trailing non-tailorable rules shape the hard-break behaviour: the
/// line-feed row always breaks mandatorily, every row but start-of-text
/// breaks mandatorily before end of text, and the start-of-text row
/// breaks nowhere.
#[verifier::rlimit(100)]
#[verifier::spinoff_prover]
proof fn lemma_default_tail_ok()
    ensures
        dims_ok(table_after(uax_rules())),
        lf_row_ok(table_after(uax_rules())),
        eot_col_ok(table_after(uax_rules())),
        sot_row_ok(table_after(uax_rules())),
{
    lemma_in_set_only();
    lemma_in_set_or();
    lemma_in_set_all_rows();
    lemma_in_set_all_cols();
    lemma_lb31_lb25_ok();
    lemma_lb24_lb21_ok();
    lemma_lb20_lb14_ok();
    lemma_lb13_lb1_ok();
    let rs = uax_rules();
    let d = rules_lb13_lb1();
    assert(rs.len() == 94);
    let pre = rs.take(86);
    let suf = rs.skip(86);
    assert(rs =~= pre + suf);
    lemma_identity_sane();
    lemma_table_from_concat(identity_table(), pre, suf);
    lemma_table_from_dims(identity_table(), pre);
    let t0 = table_from(identity_table(), pre);
    assert(rs[86] == d[18] && d[18] == mandatory(only(LF), ALL_COLS));
    assert(rs[87] == d[19] && d[19] == mandatory(only(CR), ALL_COLS));
    assert(rs[88] == d[20] && d[20] == forbid(only(CR), only(LF)));
    assert(rs[89] == d[21] && d[21] == mandatory(only(BK), ALL_COLS));
    assert(rs[90] == d[22] && d[22] == mandatory(ALL_ROWS, only(EOT)));
    assert(rs[91] == d[23] && d[23] == forbid(only(SOT), ALL_COLS));
    assert(rs[92] == d[24] && d[24] == alias(only(CJ), NS));
    assert(rs[93] == d[25] && d[25] == alias(only(AI) | only(SG) | only(XX) | only(SA), AL));
    let t1 = apply_rule(t0, rs[86]);
    let t2 = apply_rule(t1, rs[87]);
    let t3 = apply_rule(t2, rs[88]);
    let t4 = apply_rule(t3, rs[89]);
    let t5 = apply_rule(t4, rs[90]);
    let t6 = apply_rule(t5, rs[91]);
    let t7 = apply_rule(t6, rs[92]);
    let t8 = apply_rule(t7, rs[93]);
    lemma_apply_dims(t0, rs[86]);
    lemma_apply_dims(t1, rs[87]);
    lemma_apply_dims(t2, rs[88]);
    lemma_apply_dims(t3, rs[89]);
    lemma_apply_dims(t4, rs[90]);
    lemma_apply_dims(t5, rs[91]);
    lemma_apply_dims(t6, rs[92]);
    lemma_apply_dims(t7, rs[93]);
    // The fold of the suffix is the chain of the eight applications.
    let s0 = suf;
    let s1 = s0.drop_first();
    let s2 = s1.drop_first();
    let s3 = s2.drop_first();
    let s4 = s3.drop_first();
    let s5 = s4.drop_first();
    let s6 = s5.drop_first();
    let s7 = s6.drop_first();
    let s8 = s7.drop_first();
    assert(s0.len() == 8 && s0[0] == rs[86]);
    assert(s1.len() == 7 && s1[0] == rs[87]);
    assert(s2.len() == 6 && s2[0] == rs[88]);
    assert(s3.len() == 5 && s3[0] == rs[89]);
    assert(s4.len() == 4 && s4[0] == rs[90]);
    assert(s5.len() == 3 && s5[0] == rs[91]);
    assert(s6.len() == 2 && s6[0] == rs[92]);
    assert(s7.len() == 1 && s7[0] == rs[93]);
    assert(s8.len() == 0);
    assert(table_from(t0, s0) == table_from(t1, s1));
    assert(table_from(t1, s1) == table_from(t2, s2));
    assert(table_from(t2, s2) == table_from(t3, s3));
    assert(table_from(t3, s3) == table_from(t4, s4));
    assert(table_from(t4, s4) == table_from(t5, s5));
    assert(table_from(t5, s5) == table_from(t6, s6));
    assert(table_from(t6, s6) == table_from(t7, s7));
    assert(table_from(t7, s7) == table_from(t8, s8));
    assert(table_after(rs) == t8);
    // Hard break after a line feed, established and carried through.
    assert forall|j: int| 0 <= j < 44 implies allowed_of(#[trigger] t1[2][j]) && mandatory_of(
        t1[2][j],
    ) by {
        assert(t1[2][j] == apply_op(RuleOp::Mandatory, t0[2][j]));
        lemma_apply_op_sane(RuleOp::Mandatory, t0[2][j]);
    }
    assert(lf_row_ok(t1));
    assert forall|j: int| 0 <= j < 44 implies #[trigger] t4[2][j] == t1[2][j] by {
        assert(t2[2][j] == t1[2][j]);
        assert(t3[2][j] == t2[2][j]);
        assert(t4[2][j] == t3[2][j]);
    }
    assert(lf_row_ok(t4));
    assert forall|j: int| 0 <= j < 44 implies allowed_of(#[trigger] t5[2][j]) && mandatory_of(
        t5[2][j],
    ) by {
        if j == 43 {
            assert(t5[2][43] == apply_op(RuleOp::Mandatory, t4[2][43]));
            lemma_apply_op_sane(RuleOp::Mandatory, t4[2][43]);
        } else {
            assert(t5[2][j] == t4[2][j]);
        }
    }
    assert(lf_row_ok(t5));
    assert forall|j: int| 0 <= j < 44 implies #[trigger] t6[2][j] == t5[2][j] by {}
    assert(lf_row_ok(t6));
    // Mandatory break before end of text, established and carried through.
    assert forall|i: int| 0 <= i < 53 implies allowed_of(#[trigger] t5[i][43]) && mandatory_of(
        t5[i][43],
    ) by {
        assert(t5[i][43] == apply_op(RuleOp::Mandatory, t4[i][43]));
        lemma_apply_op_sane(RuleOp::Mandatory, t4[i][43]);
    }
    assert forall|i: int| 0 <= i < 53 && i != 44 implies allowed_of(#[trigger] t6[i][43])
        && mandatory_of(t6[i][43]) by {
        assert(t6[i][43] == t5[i][43]);
    }
    assert(eot_col_ok(t6));
    // No break at start of text, established by the last forbid.
    assert forall|j: int| 0 <= j < 44 implies !allowed_of(#[trigger] t6[44][j]) && !mandatory_of(
        t6[44][j],
    ) by {
        assert(t6[44][j] == apply_op(RuleOp::Forbid, t5[44][j]));
        lemma_apply_op_sane(RuleOp::Forbid, t5[44][j]);
    }
    assert(sot_row_ok(t6));
    // The two aliasing rules of LB1 copy only from rows and columns that
    // already satisfy all three facts.
    lemma_alias_keeps_tail(t6, only(CJ), NS);
    lemma_alias_keeps_tail(t7, only(AI) | only(SG) | only(XX) | only(SA), AL);
}

/// A state-aliasing rule whose targets name neither the line-feed row,
/// the start-of-text row nor the end-of-text column keeps the three
/// hard-break facts.
proof fn lemma_alias_keeps_tail(t: Seq<Seq<u8>>, targets: u64, from: u8)
    requires
        dims_ok(t),
        lf_row_ok(t),
        eot_col_ok(t),
        sot_row_ok(t),
        from < 44,
        from != 44,
        !in_set(targets, 2),
        !in_set(targets, 43),
        !in_set(targets, 44),
    ensures
        lf_row_ok(apply_rule(t, Rule::CopyState { targets, from })),
        eot_col_ok(apply_rule(t, Rule::CopyState { targets, from })),
        sot_row_ok(apply_rule(t, Rule::CopyState { targets, from })),
{
    let u = apply_rule(t, Rule::CopyState { targets, from });
    assert forall|j: int| 0 <= j < 44 implies allowed_of(#[trigger] u[2][j]) && mandatory_of(
        u[2][j],
    ) by {
        assert(u[2][j] == t[2][from as int] || u[2][j] == t[2][j]);
    }
    assert forall|i: int| 0 <= i < 53 && i != 44 implies allowed_of(#[trigger] u[i][43])
        && mandatory_of(u[i][43]) by {
        if in_set(targets, i) {
            assert(u[i][43] == t[from as int][43]);
        } else {
            assert(u[i][43] == t[i][43]);
        }
    }
    assert forall|j: int| 0 <= j < 44 implies !allowed_of(#[trigger] u[44][j]) && !mandatory_of(
        u[44][j],
    ) by {
        assert(u[44][j] == t[44][from as int] || u[44][j] == t[44][j]);
    }
}

/// The compiled default table passes every cell check: its transitions
/// stay within the real states, a mandatory break is also an allowed one,
/// nothing breaks at start of text, everything but start of text breaks
/// mandatorily at end of text, and a line feed forces a break.
pub proof fn lemma_default_table_checks()
    ensures
        crate::pair::table_checks(table_after(uax_rules())),
{
    lemma_default_rules_ok();
    lemma_identity_sane();
    let rs = uax_rules();
    let f = table_after(rs);
    lemma_table_from_dims(identity_table(), rs);
    lemma_table_from_sane(identity_table(), rs);
    lemma_table_from_lf_column(identity_table(), rs);
    lemma_default_tail_ok();
    assert forall|i: int, j: int|
        0 <= i < 53 && 0 <= j < 44 implies crate::pair::cell_ok(#[trigger] f[i][j], i, j) by {
        assert(crate::pair::cell_sane(f[i][j]));
        if j == 2 {
            assert(crate::pair::next_of(f[i][2]) == 2);
        }
    }
}

} // verus!
