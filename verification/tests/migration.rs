use tarrowyn_repository::migration::{
    identity_index_matches, snapshot_is_newer, snapshot_metadata_matches,
    unsupported_migration_version, SnapshotHeader, MIGRATION_VERSION,
};

#[test]
fn newer_schema_versions_fail_closed() {
    assert_eq!(unsupported_migration_version(&[MIGRATION_VERSION]), None);
    assert_eq!(unsupported_migration_version(&[0, MIGRATION_VERSION]), None);
    assert_eq!(unsupported_migration_version(&[MIGRATION_VERSION + 1]), Some(2));
}

#[test]
fn snapshot_metadata_must_match_the_json_document() {
    let stored = SnapshotHeader { storage_version: 23, tick: 0, cursor: 0 };
    assert!(snapshot_metadata_matches(stored.storage_version, stored.tick, stored.cursor, &stored));
    assert!(!snapshot_metadata_matches(
        stored.storage_version,
        stored.tick.saturating_add(1),
        stored.cursor,
        &stored,
    ));
    assert!(!snapshot_metadata_matches(
        stored.storage_version,
        stored.tick,
        stored.cursor.saturating_add(1),
        &stored,
    ));
}

#[test]
fn the_first_newer_migration_is_reported() {
    assert_eq!(unsupported_migration_version(&[]), None);
    assert_eq!(unsupported_migration_version(&[1, 5, 3]), Some(5));
}

#[test]
fn a_snapshot_from_a_newer_server_is_refused_by_either_version() {
    assert!(snapshot_is_newer(24, 1, 23));
    assert!(snapshot_is_newer(1, 24, 23));
    assert!(!snapshot_is_newer(23, 23, 23));
}

fn pair(a: &str, c: &str) -> (String, String) {
    (a.to_owned(), c.to_owned())
}

#[test]
fn the_identity_index_matches_in_any_order_and_counts_duplicates() {
    let expected = vec![pair("a", "1"), pair("b", "2"), pair("a", "1")];
    assert!(identity_index_matches(&expected, &vec![pair("a", "1"), pair("a", "1"), pair("b", "2")]));
    assert!(!identity_index_matches(&expected, &vec![pair("a", "1"), pair("b", "2")]));
    assert!(!identity_index_matches(&expected, &vec![pair("a", "1"), pair("b", "2"), pair("b", "2")]));
    assert!(identity_index_matches(&Vec::new(), &Vec::new()));
    assert!(!identity_index_matches(&vec![pair("a", "1")], &vec![pair("a", "2")]));
}
