//! Tests of the table builders: the paged property table, the rule
//! compiler with its checks, and the safe-pair derivation.

use unicode_linebreak::BreakClass;
use unicode_linebreak::pair::PairTable;
use unicode_linebreak::pair::Rule;
use unicode_linebreak::property::Record;
use unicode_linebreak::property::build_property_table;
use unicode_linebreak::rules::default_rules;

fn record(start: u32, end: u32, class: BreakClass) -> Record {
    Record { start, end, class }
}

#[test]
fn property_table_resolves_records_and_gaps() {
    let records = vec![
        record(0x41, 0x5A, BreakClass::Alphabetic),
        record(0x61, 0x7A, BreakClass::Alphabetic),
    ];
    let table = build_property_table(&records).expect("ascending records build");
    assert_eq!(table.class_of(0x41), BreakClass::Alphabetic);
    assert_eq!(table.class_of(0x7A), BreakClass::Alphabetic);
    // The gap between the ranges falls back to the block default.
    assert_eq!(table.class_of(0x5B), BreakClass::Unknown);
    // So do the ideograph blocks, far from any record.
    assert_eq!(table.class_of(0x4E00), BreakClass::Ideographic);
}

#[test]
fn property_table_refuses_unordered_records() {
    let out_of_order = vec![
        record(0x61, 0x7A, BreakClass::Alphabetic),
        record(0x41, 0x5A, BreakClass::Alphabetic),
    ];
    assert!(build_property_table(&out_of_order).is_none());
    let overlapping = vec![
        record(0x41, 0x5A, BreakClass::Alphabetic),
        record(0x5A, 0x60, BreakClass::Unknown),
    ];
    assert!(build_property_table(&overlapping).is_none());
    let inverted = vec![record(0x5A, 0x41, BreakClass::Alphabetic)];
    assert!(build_property_table(&inverted).is_none());
    let beyond = vec![record(0x110000, 0x110001, BreakClass::Unknown)];
    assert!(build_property_table(&beyond).is_none());
}

#[test]
fn empty_rule_list_fails_the_checks() {
    // The identity table never breaks before end of text, so the checks
    // refuse it: no degraded table is produced.
    let no_rules: Vec<Rule> = Vec::new();
    assert!(PairTable::from_rules(&no_rules).is_none());
}

#[test]
fn out_of_range_state_is_fatal() {
    let mut rules = default_rules();
    rules.push(Rule::CopyState { targets: 1, from: 60 });
    assert!(PairTable::from_rules(&rules).is_none());
}

#[test]
fn default_rules_compile() {
    let table = PairTable::from_rules(&default_rules());
    assert!(table.is_some());
}

#[test]
fn safe_pairs() {
    let table = PairTable::from_rules(&default_rules()).expect("the default rules compile");
    // After a hard break every predecessor lands in the same state, so
    // pairs led by it are safe.
    assert!(table.is_safe_pair(BreakClass::Mandatory, BreakClass::Alphabetic));
    // A space's decision depends on what preceded it: an opening bracket
    // forbids the break an ordinary word would get.
    assert!(!table.is_safe_pair(BreakClass::Space, BreakClass::OpenPunctuation));
}
