use inventory_store::keys::{
    hub_key, hubs_prefix, realm_key, routing_chain_key, routing_chains_prefix, service_key,
    services_prefix, subdomain_key, subdomains_prefix, virtual_host_key, virtual_hosts_prefix,
    zone_key, zones_prefix, REALM_KEY_PREFIX,
};

#[test]
fn realm_keys_live_under_realms_prefix() {
    assert_eq!(REALM_KEY_PREFIX, "realms/");
    assert_eq!(realm_key("master"), "realms/master");
    assert_eq!(realm_key(""), "realms/");
}

#[test]
fn zone_keys_and_prefix() {
    assert_eq!(zones_prefix("r1"), "realms/r1/zones/");
    assert_eq!(zone_key("r1", "example.com"), "realms/r1/zones/example.com");
}

#[test]
fn subdomain_keys_and_prefix() {
    assert_eq!(subdomains_prefix("r1", "z1"), "realms/r1/zones/z1/subdomains/");
    assert_eq!(subdomain_key("r1", "z1", "www"), "realms/r1/zones/z1/subdomains/www");
}

#[test]
fn virtual_host_keys_and_prefix() {
    assert_eq!(virtual_hosts_prefix("r1"), "realms/r1/virtual-hosts/");
    assert_eq!(virtual_host_key("r1", "vh"), "realms/r1/virtual-hosts/vh");
}

#[test]
fn routing_chain_keys_and_prefix() {
    assert_eq!(routing_chains_prefix("r1"), "realms/r1/routing-chains/");
    assert_eq!(routing_chain_key("r1", "main"), "realms/r1/routing-chains/main");
}

#[test]
fn hub_keys_and_prefix() {
    assert_eq!(hubs_prefix("r1"), "realms/r1/hubs/");
    assert_eq!(hub_key("r1", "h1"), "realms/r1/hubs/h1");
}

#[test]
fn service_keys_and_prefix() {
    assert_eq!(services_prefix("r1", "h1"), "realms/r1/hubs/h1/services/");
    assert_eq!(service_key("r1", "h1", "s1"), "realms/r1/hubs/h1/services/s1");
}

#[test]
fn keys_keep_non_ascii_names() {
    assert_eq!(zone_key("réalm", "ゾーン"), "realms/réalm/zones/ゾーン");
}

#[test]
fn each_key_extends_its_collection_prefix() {
    assert!(zone_key("a", "b").starts_with(&zones_prefix("a")));
    assert!(subdomain_key("a", "b", "c").starts_with(&subdomains_prefix("a", "b")));
    assert!(service_key("a", "b", "c").starts_with(&services_prefix("a", "b")));
    assert!(subdomains_prefix("a", "b").starts_with(&zone_key("a", "b")));
    assert!(services_prefix("a", "b").starts_with(&hub_key("a", "b")));
}

#[test]
fn distinct_resources_get_distinct_keys() {
    let keys = vec![
        realm_key("a"),
        zone_key("a", "b"),
        subdomain_key("a", "b", "c"),
        virtual_host_key("a", "b"),
        routing_chain_key("a", "b"),
        hub_key("a", "b"),
        service_key("a", "b", "c"),
        zone_key("b", "a"),
        hub_key("a", "c"),
    ];
    for i in 0..keys.len() {
        for j in 0..keys.len() {
            if i != j {
                assert_ne!(keys[i], keys[j]);
            }
        }
    }
}

#[test]
fn names_with_slash_can_collide() {
    // The layout only separates resources whose names hold no '/'.
    assert_eq!(zone_key("a/zones/b", "c"), zone_key("a", "b/zones/c"));
    assert_eq!(realm_key("a/zones/b"), zone_key("a", "b"));
}
