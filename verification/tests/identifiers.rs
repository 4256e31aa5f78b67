use pg_catalog::oid::{
    OidAssigner, FIRST_DATABASE_OID, FIRST_RELATION_OID, INFORMATION_SCHEMA_NAMESPACE_OID,
    PG_CATALOG_NAMESPACE_OID, PUBLIC_NAMESPACE_OID,
};

#[test]
fn counters_start_at_their_bases() {
    assert_eq!(FIRST_RELATION_OID, 10000);
    assert_eq!(FIRST_DATABASE_OID, 16384);
    assert_eq!(OidAssigner::for_relations().peek(), 10000);
    assert_eq!(OidAssigner::for_databases().peek(), 16384);
    assert_eq!(PG_CATALOG_NAMESPACE_OID, 11);
    assert_eq!(INFORMATION_SCHEMA_NAMESPACE_OID, 12);
    assert_eq!(PUBLIC_NAMESPACE_OID, 2200);
}

#[test]
fn next_hands_out_increasing_identifiers() {
    let mut assigner = OidAssigner::for_relations();
    assert_eq!(assigner.next(), 10000);
    assert_eq!(assigner.next(), 10001);
    assert_eq!(assigner.next(), 10002);
    assert_eq!(assigner.peek(), 10003);
}

#[test]
fn reserve_skips_a_run_of_identifiers() {
    let mut assigner = OidAssigner::for_databases();
    assert_eq!(assigner.reserve(5), 16384);
    assert_eq!(assigner.next(), 16389);
    assert_eq!(assigner.reserve(0), 16390);
    assert_eq!(assigner.next(), 16390);
}

#[test]
fn remaining_counts_down_to_the_widest_identifier() {
    let mut assigner = OidAssigner::for_relations();
    assert_eq!(assigner.remaining(), (i32::MAX - 10000) as u32);
    assigner.reserve((i32::MAX - 10000) as u32);
    assert_eq!(assigner.remaining(), 0);
    assert_eq!(assigner.peek(), i32::MAX);
}

#[test]
fn a_fresh_counter_starts_over() {
    let mut first = OidAssigner::for_relations();
    first.next();
    first.next();
    let mut second = OidAssigner::for_relations();
    assert_eq!(second.next(), 10000);
}
