use inventory_store::keys::{hubs_prefix, service_key, subdomain_key, zone_key, zones_prefix, realm_key, REALM_KEY_PREFIX, hub_key};
use inventory_store::store::{
    direct_member_values, first_entry_value, is_direct_member_key, keep_decoded, was_deleted,
    ApiError, StoredEntry, SLASH,
};

fn entry(key: &str, value: &str) -> StoredEntry {
    StoredEntry { key: key.as_bytes().to_vec(), value: value.as_bytes().to_vec() }
}

#[test]
fn slash_is_the_separator_byte() {
    assert_eq!(SLASH, b'/');
}

#[test]
fn realm_listing_keeps_only_realms() {
    let entries = vec![
        entry(&realm_key("a"), "A"),
        entry(&zone_key("a", "z"), "Z"),
        entry(&realm_key("b"), "B"),
        entry(&subdomain_key("b", "z", "s"), "S"),
    ];
    let values = direct_member_values(REALM_KEY_PREFIX, &entries);
    assert_eq!(values, vec![b"A".to_vec(), b"B".to_vec()]);
}

#[test]
fn zone_listing_skips_subdomains() {
    let prefix = zones_prefix("r");
    let entries = vec![
        entry(&zone_key("r", "z1"), "1"),
        entry(&subdomain_key("r", "z1", "www"), "sub"),
        entry(&zone_key("r", "z2"), "2"),
    ];
    assert_eq!(direct_member_values(&prefix, &entries), vec![b"1".to_vec(), b"2".to_vec()]);
}

#[test]
fn hub_listing_skips_services() {
    let prefix = hubs_prefix("r");
    let entries = vec![
        entry(&hub_key("r", "h"), "hub"),
        entry(&service_key("r", "h", "s"), "svc"),
    ];
    assert_eq!(direct_member_values(&prefix, &entries), vec![b"hub".to_vec()]);
}

#[test]
fn listing_skips_keys_that_are_not_text() {
    let prefix = zones_prefix("r");
    let mut bad = prefix.as_bytes().to_vec();
    bad.push(0xff);
    let entries = vec![
        StoredEntry { key: bad.clone(), value: b"x".to_vec() },
        entry(&zone_key("r", "ok"), "y"),
    ];
    assert_eq!(direct_member_values(&prefix, &entries), vec![b"y".to_vec()]);
    assert!(!is_direct_member_key(&prefix, &bad));
}

#[test]
fn listing_keeps_store_order_and_empty_names() {
    let prefix = zones_prefix("r");
    let entries = vec![entry(&prefix, "empty"), entry(&zone_key("r", "b"), "b"), entry(&zone_key("r", "a"), "a")];
    assert_eq!(
        direct_member_values(&prefix, &entries),
        vec![b"empty".to_vec(), b"b".to_vec(), b"a".to_vec()]
    );
}

#[test]
fn listing_of_nothing_is_empty() {
    assert!(direct_member_values("realms/", &vec![]).is_empty());
}

#[test]
fn name_with_slash_is_saved_but_not_listed() {
    let prefix = zones_prefix("r");
    let key = zone_key("r", "a/b");
    assert!(!is_direct_member_key(&prefix, key.as_bytes()));
    assert!(is_direct_member_key(&prefix, zone_key("r", "a.b").as_bytes()));
}

#[test]
fn multibyte_names_are_listed() {
    let prefix = zones_prefix("r");
    assert!(is_direct_member_key(&prefix, zone_key("r", "ゾーン").as_bytes()));
}

#[test]
fn point_read_of_nothing_is_not_found() {
    assert_eq!(first_entry_value(&vec![]), Err(ApiError::NotFound));
}

#[test]
fn point_read_yields_first_value() {
    let entries = vec![entry("k", "first"), entry("k2", "second")];
    assert_eq!(first_entry_value(&entries), Ok(b"first".to_vec()));
}

#[test]
fn delete_reports_removal() {
    assert!(was_deleted(1));
    assert!(was_deleted(3));
    assert!(!was_deleted(0));
    assert!(!was_deleted(-1));
}

#[test]
fn undecodable_values_are_dropped_in_order() {
    let parsed = vec![Some(1), None, Some(3), None];
    assert_eq!(keep_decoded(parsed), vec![1, 3]);
    let none: Vec<Option<u8>> = vec![None];
    assert!(keep_decoded(none).is_empty());
}

#[test]
fn api_errors_are_distinct() {
    assert_ne!(ApiError::NotFound, ApiError::Storage("x".to_string()));
    assert_ne!(ApiError::Storage("x".to_string()), ApiError::Serialization("x".to_string()));
}
