//! The key layout of the store. Every resource lives under the realm that owns it:
//!
//! - `realms/{realm}`
//! - `realms/{realm}/zones/{zone}`
//! - `realms/{realm}/zones/{zone}/subdomains/{subdomain}`
//! - `realms/{realm}/virtual-hosts/{virtual_host}`
//! - `realms/{realm}/routing-chains/{routing_chain}`
//! - `realms/{realm}/hubs/{hub}`
//! - `realms/{realm}/hubs/{hub}/services/{service}`
//!
//! A collection prefix is the key of one of its members with the member's own
//! name left off.
use vstd::prelude::*;

verus! {

/// The prefix under which every realm is stored.
pub const REALM_KEY_PREFIX: &'static str = "realms/";

/// `realms/`
pub open spec fn realms_root() -> Seq<char> {
    seq!['r', 'e', 'a', 'l', 'm', 's', '/']
}

/// `zones`
pub open spec fn zones_word() -> Seq<char> {
    seq!['z', 'o', 'n', 'e', 's']
}

/// `subdomains`
pub open spec fn subdomains_word() -> Seq<char> {
    seq!['s', 'u', 'b', 'd', 'o', 'm', 'a', 'i', 'n', 's']
}

/// `virtual-hosts`
pub open spec fn virtual_hosts_word() -> Seq<char> {
    seq!['v', 'i', 'r', 't', 'u', 'a', 'l', '-', 'h', 'o', 's', 't', 's']
}

/// `routing-chains`
pub open spec fn routing_chains_word() -> Seq<char> {
    seq!['r', 'o', 'u', 't', 'i', 'n', 'g', '-', 'c', 'h', 'a', 'i', 'n', 's']
}

/// `hubs`
pub open spec fn hubs_word() -> Seq<char> {
    seq!['h', 'u', 'b', 's']
}

/// `services`
pub open spec fn services_word() -> Seq<char> {
    seq!['s', 'e', 'r', 'v', 'i', 'c', 'e', 's']
}

/// A collection segment: the collection's name between two `/`.
pub open spec fn segment(word: Seq<char>) -> Seq<char> {
    seq!['/'] + word + seq!['/']
}

/// `/zones/`
pub open spec fn zones_segment() -> Seq<char> {
    segment(zones_word())
}

/// `/subdomains/`
pub open spec fn subdomains_segment() -> Seq<char> {
    segment(subdomains_word())
}

/// `/virtual-hosts/`
pub open spec fn virtual_hosts_segment() -> Seq<char> {
    segment(virtual_hosts_word())
}

/// `/routing-chains/`
pub open spec fn routing_chains_segment() -> Seq<char> {
    segment(routing_chains_word())
}

/// `/hubs/`
pub open spec fn hubs_segment() -> Seq<char> {
    segment(hubs_word())
}

/// `/services/`
pub open spec fn services_segment() -> Seq<char> {
    segment(services_word())
}

/// `realms/{realm}`
pub open spec fn spec_realm_key(realm: Seq<char>) -> Seq<char> {
    realms_root() + realm
}

/// `realms/{realm}/zones/`
pub open spec fn spec_zones_prefix(realm: Seq<char>) -> Seq<char> {
    realms_root() + realm + zones_segment()
}

/// `realms/{realm}/zones/{zone}`
pub open spec fn spec_zone_key(realm: Seq<char>, zone: Seq<char>) -> Seq<char> {
    spec_zones_prefix(realm) + zone
}

/// `realms/{realm}/zones/{zone}/subdomains/`
pub open spec fn spec_subdomains_prefix(realm: Seq<char>, zone: Seq<char>) -> Seq<char> {
    spec_zone_key(realm, zone) + subdomains_segment()
}

/// `realms/{realm}/zones/{zone}/subdomains/{subdomain}`
pub open spec fn spec_subdomain_key(realm: Seq<char>, zone: Seq<char>, subdomain: Seq<char>) -> Seq<char> {
    spec_subdomains_prefix(realm, zone) + subdomain
}

/// `realms/{realm}/virtual-hosts/`
pub open spec fn spec_virtual_hosts_prefix(realm: Seq<char>) -> Seq<char> {
    realms_root() + realm + virtual_hosts_segment()
}

/// `realms/{realm}/virtual-hosts/{virtual_host}`
pub open spec fn spec_virtual_host_key(realm: Seq<char>, virtual_host: Seq<char>) -> Seq<char> {
    spec_virtual_hosts_prefix(realm) + virtual_host
}

/// `realms/{realm}/routing-chains/`
pub open spec fn spec_routing_chains_prefix(realm: Seq<char>) -> Seq<char> {
    realms_root() + realm + routing_chains_segment()
}

/// `realms/{realm}/routing-chains/{routing_chain}`
pub open spec fn spec_routing_chain_key(realm: Seq<char>, routing_chain: Seq<char>) -> Seq<char> {
    spec_routing_chains_prefix(realm) + routing_chain
}

/// `realms/{realm}/hubs/`
pub open spec fn spec_hubs_prefix(realm: Seq<char>) -> Seq<char> {
    realms_root() + realm + hubs_segment()
}

/// `realms/{realm}/hubs/{hub}`
pub open spec fn spec_hub_key(realm: Seq<char>, hub: Seq<char>) -> Seq<char> {
    spec_hubs_prefix(realm) + hub
}

/// `realms/{realm}/hubs/{hub}/services/`
pub open spec fn spec_services_prefix(realm: Seq<char>, hub: Seq<char>) -> Seq<char> {
    spec_hub_key(realm, hub) + services_segment()
}

/// `realms/{realm}/hubs/{hub}/services/{service}`
pub open spec fn spec_service_key(realm: Seq<char>, hub: Seq<char>, service: Seq<char>) -> Seq<char> {
    spec_services_prefix(realm, hub) + service
}

/// The key of the realm named `name`.
pub fn realm_key(name: &str) -> (key: String)
    ensures
        key@ == spec_realm_key(name@),
        key@ == seq!['r', 'e', 'a', 'l', 'm', 's', '/'] + name@,
{
    let mut key = String::from_str(REALM_KEY_PREFIX);
    proof {
        reveal_strlit("realms/");
        assert(REALM_KEY_PREFIX@ =~= realms_root());
    }
    key.append(name);
    key
}

/// `realms/{realm}{segment}`: the common shape of the collections held directly
/// by a realm.
fn realm_collection_prefix(realm_id: &str, segment: &str) -> (prefix: String)
    ensures
        prefix@ == realms_root() + realm_id@ + segment@,
{
    let mut prefix = realm_key(realm_id);
    prefix.append(segment);
    prefix
}

/// The prefix under which the zones of realm `realm_id` are stored.
pub fn zones_prefix(realm_id: &str) -> (prefix: String)
    ensures
        prefix@ == spec_zones_prefix(realm_id@),
        prefix@ == spec_realm_key(realm_id@) + seq!['/', 'z', 'o', 'n', 'e', 's', '/'],
{
    proof {
        reveal_strlit("/zones/");
        assert("/zones/"@ =~= zones_segment());
    }
    realm_collection_prefix(realm_id, "/zones/")
}

/// The key of zone `zone_id` of realm `realm_id`.
pub fn zone_key(realm_id: &str, zone_id: &str) -> (key: String)
    ensures
        key@ == spec_zone_key(realm_id@, zone_id@),
        key@ == spec_zones_prefix(realm_id@) + zone_id@,
{
    let mut key = zones_prefix(realm_id);
    key.append(zone_id);
    key
}

/// The prefix under which the subdomains of zone `zone_id` of realm `realm_id` are stored.
pub fn subdomains_prefix(realm_id: &str, zone_id: &str) -> (prefix: String)
    ensures
        prefix@ == spec_subdomains_prefix(realm_id@, zone_id@),
        prefix@ == spec_zone_key(realm_id@, zone_id@) + seq!['/', 's', 'u', 'b', 'd', 'o', 'm', 'a', 'i', 'n', 's', '/'],
{
    let mut prefix = zone_key(realm_id, zone_id);
    proof {
        reveal_strlit("/subdomains/");
        assert("/subdomains/"@ =~= subdomains_segment());
    }
    prefix.append("/subdomains/");
    prefix
}

/// The key of subdomain `subdomain_id` of zone `zone_id` of realm `realm_id`.
pub fn subdomain_key(realm_id: &str, zone_id: &str, subdomain_id: &str) -> (key: String)
    ensures
        key@ == spec_subdomain_key(realm_id@, zone_id@, subdomain_id@),
        key@ == spec_subdomains_prefix(realm_id@, zone_id@) + subdomain_id@,
{
    let mut key = subdomains_prefix(realm_id, zone_id);
    key.append(subdomain_id);
    key
}

/// The prefix under which the virtual hosts of realm `realm_id` are stored.
pub fn virtual_hosts_prefix(realm_id: &str) -> (prefix: String)
    ensures
        prefix@ == spec_virtual_hosts_prefix(realm_id@),
        prefix@ == spec_realm_key(realm_id@) + seq!['/', 'v', 'i', 'r', 't', 'u', 'a', 'l', '-', 'h', 'o', 's', 't', 's', '/'],
{
    proof {
        reveal_strlit("/virtual-hosts/");
        assert("/virtual-hosts/"@ =~= virtual_hosts_segment());
    }
    realm_collection_prefix(realm_id, "/virtual-hosts/")
}

/// The key of virtual host `virtual_host_id` of realm `realm_id`.
pub fn virtual_host_key(realm_id: &str, virtual_host_id: &str) -> (key: String)
    ensures
        key@ == spec_virtual_host_key(realm_id@, virtual_host_id@),
        key@ == spec_virtual_hosts_prefix(realm_id@) + virtual_host_id@,
{
    let mut key = virtual_hosts_prefix(realm_id);
    key.append(virtual_host_id);
    key
}

/// The prefix under which the routing chains of realm `realm_id` are stored.
pub fn routing_chains_prefix(realm_id: &str) -> (prefix: String)
    ensures
        prefix@ == spec_routing_chains_prefix(realm_id@),
        prefix@ == spec_realm_key(realm_id@) + seq!['/', 'r', 'o', 'u', 't', 'i', 'n', 'g', '-', 'c', 'h', 'a', 'i', 'n', 's', '/'],
{
    proof {
        reveal_strlit("/routing-chains/");
        assert("/routing-chains/"@ =~= routing_chains_segment());
    }
    realm_collection_prefix(realm_id, "/routing-chains/")
}

/// The key of routing chain `routing_chain_id` of realm `realm_id`.
pub fn routing_chain_key(realm_id: &str, routing_chain_id: &str) -> (key: String)
    ensures
        key@ == spec_routing_chain_key(realm_id@, routing_chain_id@),
        key@ == spec_routing_chains_prefix(realm_id@) + routing_chain_id@,
{
    let mut key = routing_chains_prefix(realm_id);
    key.append(routing_chain_id);
    key
}

/// The prefix under which the hubs of realm `realm_id` are stored.
pub fn hubs_prefix(realm_id: &str) -> (prefix: String)
    ensures
        prefix@ == spec_hubs_prefix(realm_id@),
        prefix@ == spec_realm_key(realm_id@) + seq!['/', 'h', 'u', 'b', 's', '/'],
{
    proof {
        reveal_strlit("/hubs/");
        assert("/hubs/"@ =~= hubs_segment());
    }
    realm_collection_prefix(realm_id, "/hubs/")
}

/// The key of hub `hub_id` of realm `realm_id`.
pub fn hub_key(realm_id: &str, hub_id: &str) -> (key: String)
    ensures
        key@ == spec_hub_key(realm_id@, hub_id@),
        key@ == spec_hubs_prefix(realm_id@) + hub_id@,
{
    let mut key = hubs_prefix(realm_id);
    key.append(hub_id);
    key
}

/// The prefix under which the services of hub `hub_id` of realm `realm_id` are stored.
pub fn services_prefix(realm_id: &str, hub_id: &str) -> (prefix: String)
    ensures
        prefix@ == spec_services_prefix(realm_id@, hub_id@),
        prefix@ == spec_hub_key(realm_id@, hub_id@) + seq!['/', 's', 'e', 'r', 'v', 'i', 'c', 'e', 's', '/'],
{
    let mut prefix = hub_key(realm_id, hub_id);
    proof {
        reveal_strlit("/services/");
        assert("/services/"@ =~= services_segment());
    }
    prefix.append("/services/");
    prefix
}

/// The key of service `service_id` of hub `hub_id` of realm `realm_id`.
pub fn service_key(realm_id: &str, hub_id: &str, service_id: &str) -> (key: String)
    ensures
        key@ == spec_service_key(realm_id@, hub_id@, service_id@),
        key@ == spec_services_prefix(realm_id@, hub_id@) + service_id@,
{
    let mut key = services_prefix(realm_id, hub_id);
    key.append(service_id);
    key
}

} // verus!
