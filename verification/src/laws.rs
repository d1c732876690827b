//! Properties that span the key layout and the reading of replies.
use vstd::prelude::*;
use vstd::utf8::*;
use crate::keys::{
    hubs_segment, routing_chains_segment, services_segment, subdomains_segment,
    virtual_hosts_segment, zones_segment, hubs_word, routing_chains_word, services_word, subdomains_word, virtual_hosts_word, zones_word,
    realms_root, spec_hub_key, spec_hubs_prefix, spec_realm_key, spec_routing_chain_key,
    spec_routing_chains_prefix, spec_service_key, spec_services_prefix, spec_subdomain_key,
    spec_subdomains_prefix, spec_virtual_host_key, spec_virtual_hosts_prefix, spec_zone_key,
    spec_zones_prefix,
};
use crate::store::{decoded_items, is_direct_member, member_values, SLASH};

verus! {

/// The encoding of two texts one after the other is the two encodings one after
/// the other.
proof fn lemma_encode_concat(a: Seq<char>, b: Seq<char>)
    ensures
        encode_utf8(a + b) == encode_utf8(a) + encode_utf8(b),
    decreases a.len(),
{
    if a.len() == 0 {
        assert(a + b =~= b);
        assert(encode_utf8(a) =~= Seq::<u8>::empty());
        assert(encode_utf8(a) + encode_utf8(b) =~= encode_utf8(b));
    } else {
        assert((a + b)[0] == a[0]);
        assert((a + b).drop_first() =~= a.drop_first() + b);
        lemma_encode_concat(a.drop_first(), b);
        assert(encode_utf8(a + b) =~= encode_scalar(a[0] as u32) + (encode_utf8(a.drop_first()) + encode_utf8(b)));
    }
}

/// Every byte of the encoding of a character outside ASCII is at least 0x80.
proof fn lemma_multibyte_bytes(s: u32)
    by (bit_vector)
    ensures
        (0xC0u8 | ((s >> 6u32) & 0x1Fu32) as u8) >= 0x80u8,
        (0xE0u8 | ((s >> 12u32) & 0x0Fu32) as u8) >= 0x80u8,
        (0xF0u8 | ((s >> 18u32) & 0x7u32) as u8) >= 0x80u8,
        (0x80u8 | (s & 0x3Fu32) as u8) >= 0x80u8,
        (0x80u8 | ((s >> 6u32) & 0x3Fu32) as u8) >= 0x80u8,
        (0x80u8 | ((s >> 12u32) & 0x3Fu32) as u8) >= 0x80u8,
{
}

/// The one-byte encoding of an ASCII character is the character's code.
proof fn lemma_ascii_byte(s: u32)
    by (bit_vector)
    requires
        s <= 0x7Fu32,
    ensures
        ((s & 0x7Fu32) as u8 == 0x2Fu8) == (s == 0x2Fu32),
{
}

/// The encoding of a character holds the byte of `/` exactly when the character is `/`.
proof fn lemma_scalar_slash(c: char)
    ensures
        encode_scalar(c as u32).contains(SLASH) == (c == '/'),
{
    let s = c as u32;
    let e = encode_scalar(s);
    lemma_multibyte_bytes(s);
    if has_width_1_encoding(s) {
        lemma_ascii_byte(s);
        assert(e[0] == leading_byte_width_1(s));
        if c == '/' {
            assert(e[0] == SLASH);
        } else {
            assert forall|i: int| 0 <= i < e.len() implies e[i] != SLASH by {}
        }
    } else {
        assert forall|i: int| 0 <= i < e.len() implies e[i] >= 0x80 by {}
        assert(s != 0x2F);
    }
}

/// The encoding of a text holds the byte of `/` exactly when the text holds `/`.
proof fn lemma_encode_slash(t: Seq<char>)
    ensures
        encode_utf8(t).contains(SLASH) == t.contains('/'),
    decreases t.len(),
{
    if t.len() == 0 {
        assert(encode_utf8(t) =~= Seq::<u8>::empty());
    } else {
        let head = encode_scalar(t[0] as u32);
        let rest = t.drop_first();
        lemma_encode_slash(rest);
        lemma_scalar_slash(t[0]);
        let e = encode_utf8(t);
        assert(e == head + encode_utf8(rest));
        if e.contains(SLASH) {
            let i = choose|i: int| 0 <= i < e.len() && e[i] == SLASH;
            if i < head.len() {
                assert(head[i] == SLASH);
                assert(t[0] == '/');
            } else {
                assert(encode_utf8(rest)[i - head.len()] == SLASH);
                let j = choose|j: int| 0 <= j < rest.len() && rest[j] == '/';
                assert(t[j + 1] == '/');
            }
        }
        if t.contains('/') {
            let j = choose|j: int| 0 <= j < t.len() && t[j] == '/';
            if j == 0 {
                let i = choose|i: int| 0 <= i < head.len() && head[i] == SLASH;
                assert(e[i] == SLASH);
            } else {
                assert(rest[j - 1] == '/');
                let i = choose|i: int| 0 <= i < encode_utf8(rest).len() && encode_utf8(rest)[i] == SLASH;
                assert(e[head.len() + i] == SLASH);
            }
        }
    }
}

/// A stored item is listed with its collection exactly when its name holds no
/// `/`: the entry whose key is the collection prefix followed by the name is a
/// direct member of the collection read under that prefix just when the name
/// holds no `/`. Its key always begins with the prefix, so a read of the prefix
/// returns it.
pub proof fn listed_iff_name_has_no_slash(prefix: Seq<char>, name: Seq<char>)
    ensures
        encode_utf8(prefix).is_prefix_of(encode_utf8(prefix + name)),
        is_direct_member(encode_utf8(prefix), encode_utf8(prefix + name)) == !name.contains('/'),
{
    broadcast use encode_utf8_valid_utf8;
    lemma_encode_concat(prefix, name);
    lemma_encode_slash(name);
    let p = encode_utf8(prefix);
    let k = encode_utf8(prefix + name);
    assert(k.subrange(0, p.len() as int) =~= p);
    assert(k.subrange(p.len() as int, k.len() as int) =~= encode_utf8(name));
}

/// Every kind of resource is listed with the collection that holds it exactly
/// when its name holds no `/`: realms under `realms/`, zones, virtual hosts,
/// routing chains and hubs under their realm's collection, subdomains under their
/// zone's collection and services under their hub's collection.
pub proof fn each_kind_listed_iff_name_has_no_slash(
    realm: Seq<char>,
    zone: Seq<char>,
    hub: Seq<char>,
    name: Seq<char>,
)
    ensures
        is_direct_member(encode_utf8(realms_root()), encode_utf8(spec_realm_key(name)))
            == !name.contains('/'),
        is_direct_member(encode_utf8(spec_zones_prefix(realm)), encode_utf8(spec_zone_key(realm, name)))
            == !name.contains('/'),
        is_direct_member(
            encode_utf8(spec_subdomains_prefix(realm, zone)),
            encode_utf8(spec_subdomain_key(realm, zone, name)),
        ) == !name.contains('/'),
        is_direct_member(
            encode_utf8(spec_virtual_hosts_prefix(realm)),
            encode_utf8(spec_virtual_host_key(realm, name)),
        ) == !name.contains('/'),
        is_direct_member(
            encode_utf8(spec_routing_chains_prefix(realm)),
            encode_utf8(spec_routing_chain_key(realm, name)),
        ) == !name.contains('/'),
        is_direct_member(encode_utf8(spec_hubs_prefix(realm)), encode_utf8(spec_hub_key(realm, name)))
            == !name.contains('/'),
        is_direct_member(
            encode_utf8(spec_services_prefix(realm, hub)),
            encode_utf8(spec_service_key(realm, hub, name)),
        ) == !name.contains('/'),
{
    listed_iff_name_has_no_slash(realms_root(), name);
    listed_iff_name_has_no_slash(spec_zones_prefix(realm), name);
    listed_iff_name_has_no_slash(spec_subdomains_prefix(realm, zone), name);
    listed_iff_name_has_no_slash(spec_virtual_hosts_prefix(realm), name);
    listed_iff_name_has_no_slash(spec_routing_chains_prefix(realm), name);
    listed_iff_name_has_no_slash(spec_hubs_prefix(realm), name);
    listed_iff_name_has_no_slash(spec_services_prefix(realm, hub), name);
}

/// A text followed by one that starts with `/` holds `/`.
proof fn lemma_holds_slash(before: Seq<char>, after: Seq<char>)
    requires
        after.len() > 0,
        after[0] == '/',
    ensures
        (before + after).contains('/'),
{
    assert((before + after)[before.len() as int] == '/');
}

/// Resources nested in another resource are never listed with that resource's
/// own collection: a read of `realms/` lists no zone, subdomain, virtual host,
/// routing chain, hub or service; a read of a realm's zones lists none of their
/// subdomains; a read of a realm's hubs lists none of their services.
pub proof fn nested_resources_not_listed_with_parents(
    realm: Seq<char>,
    zone: Seq<char>,
    hub: Seq<char>,
    name: Seq<char>,
)
    ensures
        !is_direct_member(encode_utf8(realms_root()), encode_utf8(spec_zone_key(realm, name))),
        !is_direct_member(encode_utf8(realms_root()), encode_utf8(spec_subdomain_key(realm, zone, name))),
        !is_direct_member(encode_utf8(realms_root()), encode_utf8(spec_virtual_host_key(realm, name))),
        !is_direct_member(encode_utf8(realms_root()), encode_utf8(spec_routing_chain_key(realm, name))),
        !is_direct_member(encode_utf8(realms_root()), encode_utf8(spec_hub_key(realm, name))),
        !is_direct_member(encode_utf8(realms_root()), encode_utf8(spec_service_key(realm, hub, name))),
        !is_direct_member(
            encode_utf8(spec_zones_prefix(realm)),
            encode_utf8(spec_subdomain_key(realm, zone, name)),
        ),
        !is_direct_member(
            encode_utf8(spec_hubs_prefix(realm)),
            encode_utf8(spec_service_key(realm, hub, name)),
        ),
{
    let root = realms_root();
    let zone_tail = zones_segment() + name;
    let zone_rest = realm + zone_tail;
    assert(spec_zone_key(realm, name) =~= root + zone_rest);
    lemma_holds_slash(realm, zone_tail);
    listed_iff_name_has_no_slash(root, zone_rest);

    let sub_tail = subdomains_segment() + name;
    let sub_rest = realm + (zones_segment() + zone + sub_tail);
    assert(spec_subdomain_key(realm, zone, name) =~= root + sub_rest);
    lemma_holds_slash(realm, zones_segment() + zone + sub_tail);
    listed_iff_name_has_no_slash(root, sub_rest);
    assert(spec_subdomain_key(realm, zone, name) =~= spec_zones_prefix(realm) + (zone + sub_tail));
    lemma_holds_slash(zone, sub_tail);
    listed_iff_name_has_no_slash(spec_zones_prefix(realm), zone + sub_tail);

    let vh_rest = virtual_hosts_segment() + name;
    assert(spec_virtual_host_key(realm, name) =~= root + (realm + vh_rest));
    lemma_holds_slash(realm, vh_rest);
    listed_iff_name_has_no_slash(root, realm + vh_rest);

    let rc_rest = routing_chains_segment() + name;
    assert(spec_routing_chain_key(realm, name) =~= root + (realm + rc_rest));
    lemma_holds_slash(realm, rc_rest);
    listed_iff_name_has_no_slash(root, realm + rc_rest);

    let hub_rest = hubs_segment() + name;
    assert(spec_hub_key(realm, name) =~= root + (realm + hub_rest));
    lemma_holds_slash(realm, hub_rest);
    listed_iff_name_has_no_slash(root, realm + hub_rest);

    let svc_tail = services_segment() + name;
    let svc_rest = hubs_segment() + hub + svc_tail;
    assert(spec_service_key(realm, hub, name) =~= root + (realm + svc_rest));
    lemma_holds_slash(realm, svc_rest);
    listed_iff_name_has_no_slash(root, realm + svc_rest);
    assert(spec_service_key(realm, hub, name) =~= spec_hubs_prefix(realm) + (hub + svc_tail));
    lemma_holds_slash(hub, svc_tail);
    listed_iff_name_has_no_slash(spec_hubs_prefix(realm), hub + svc_tail);
}

/// Which resource a key stands for: its kind and the names along its path.
pub enum ResourcePath {
    Realm { realm: Seq<char> },
    Zone { realm: Seq<char>, zone: Seq<char> },
    Subdomain { realm: Seq<char>, zone: Seq<char>, subdomain: Seq<char> },
    VirtualHost { realm: Seq<char>, virtual_host: Seq<char> },
    RoutingChain { realm: Seq<char>, routing_chain: Seq<char> },
    Hub { realm: Seq<char>, hub: Seq<char> },
    Service { realm: Seq<char>, hub: Seq<char>, service: Seq<char> },
}

/// The key under which the resource at `path` is stored.
pub open spec fn path_key(path: ResourcePath) -> Seq<char> {
    match path {
        ResourcePath::Realm { realm } => spec_realm_key(realm),
        ResourcePath::Zone { realm, zone } => spec_zone_key(realm, zone),
        ResourcePath::Subdomain { realm, zone, subdomain } => spec_subdomain_key(realm, zone, subdomain),
        ResourcePath::VirtualHost { realm, virtual_host } => spec_virtual_host_key(realm, virtual_host),
        ResourcePath::RoutingChain { realm, routing_chain } => spec_routing_chain_key(realm, routing_chain),
        ResourcePath::Hub { realm, hub } => spec_hub_key(realm, hub),
        ResourcePath::Service { realm, hub, service } => spec_service_key(realm, hub, service),
    }
}

/// The segments of the key of `path` after `realms/`, in order.
spec fn path_segments(path: ResourcePath) -> Seq<Seq<char>> {
    match path {
        ResourcePath::Realm { realm } => seq![realm],
        ResourcePath::Zone { realm, zone } => seq![realm, zones_word(), zone],
        ResourcePath::Subdomain { realm, zone, subdomain } =>
            seq![realm, zones_word(), zone, subdomains_word(), subdomain],
        ResourcePath::VirtualHost { realm, virtual_host } => seq![realm, virtual_hosts_word(), virtual_host],
        ResourcePath::RoutingChain { realm, routing_chain } =>
            seq![realm, routing_chains_word(), routing_chain],
        ResourcePath::Hub { realm, hub } => seq![realm, hubs_word(), hub],
        ResourcePath::Service { realm, hub, service } =>
            seq![realm, hubs_word(), hub, services_word(), service],
    }
}

/// Every name along `path` is free of `/`.
pub open spec fn names_free_of_slash(path: ResourcePath) -> bool {
    match path {
        ResourcePath::Realm { realm } => !realm.contains('/'),
        ResourcePath::Zone { realm, zone } => !realm.contains('/') && !zone.contains('/'),
        ResourcePath::Subdomain { realm, zone, subdomain } =>
            !realm.contains('/') && !zone.contains('/') && !subdomain.contains('/'),
        ResourcePath::VirtualHost { realm, virtual_host } =>
            !realm.contains('/') && !virtual_host.contains('/'),
        ResourcePath::RoutingChain { realm, routing_chain } =>
            !realm.contains('/') && !routing_chain.contains('/'),
        ResourcePath::Hub { realm, hub } => !realm.contains('/') && !hub.contains('/'),
        ResourcePath::Service { realm, hub, service } =>
            !realm.contains('/') && !hub.contains('/') && !service.contains('/'),
    }
}

/// The segments joined with `/` between them.
spec fn join_segments(segments: Seq<Seq<char>>) -> Seq<char>
    decreases segments.len(),
{
    if segments.len() <= 1 {
        if segments.len() == 0 { seq![] } else { segments[0] }
    } else {
        segments[0] + (seq!['/'] + join_segments(segments.drop_first()))
    }
}

/// When a text free of `/` followed by an empty text or one starting with `/`
/// equals another such pair, the parts are equal.
proof fn lemma_split_at_slash(a1: Seq<char>, t1: Seq<char>, a2: Seq<char>, t2: Seq<char>)
    requires
        !a1.contains('/'),
        !a2.contains('/'),
        t1.len() == 0 || t1[0] == '/',
        t2.len() == 0 || t2[0] == '/',
        a1 + t1 == a2 + t2,
    ensures
        a1 == a2,
        t1 == t2,
{
    let w = a1 + t1;
    if a1.len() < a2.len() {
        if t1.len() == 0 {
            assert(w.len() == a1.len());
            assert((a2 + t2).len() >= a2.len());
        } else {
            assert(w[a1.len() as int] == '/');
            assert((a2 + t2)[a1.len() as int] == a2[a1.len() as int]);
        }
    } else if a2.len() < a1.len() {
        if t2.len() == 0 {
            assert((a2 + t2).len() == a2.len());
        } else {
            assert((a2 + t2)[a2.len() as int] == '/');
            assert(w[a2.len() as int] == a1[a2.len() as int]);
        }
    }
    assert(a1 =~= w.subrange(0, a1.len() as int));
    assert(a2 =~= (a2 + t2).subrange(0, a2.len() as int));
    assert(t1 =~= w.subrange(a1.len() as int, w.len() as int));
    assert(t2 =~= (a2 + t2).subrange(a2.len() as int, w.len() as int));
}

/// Joining segments free of `/` loses nothing: equal joins come from equal segments.
proof fn lemma_join_injective(s1: Seq<Seq<char>>, s2: Seq<Seq<char>>)
    requires
        s1.len() >= 1,
        s2.len() >= 1,
        forall|i: int| 0 <= i < s1.len() ==> !(#[trigger] s1[i]).contains('/'),
        forall|i: int| 0 <= i < s2.len() ==> !(#[trigger] s2[i]).contains('/'),
        join_segments(s1) == join_segments(s2),
    ensures
        s1 == s2,
    decreases s1.len(),
{
    let r1 = if s1.len() <= 1 { Seq::<char>::empty() } else { seq!['/'] + join_segments(s1.drop_first()) };
    let r2 = if s2.len() <= 1 { Seq::<char>::empty() } else { seq!['/'] + join_segments(s2.drop_first()) };
    assert(join_segments(s1) == s1[0] + r1) by {
        if s1.len() <= 1 { assert(s1[0] + r1 =~= s1[0]); }
    }
    assert(join_segments(s2) == s2[0] + r2) by {
        if s2.len() <= 1 { assert(s2[0] + r2 =~= s2[0]); }
    }
    assert(!s1[0].contains('/'));
    assert(!s2[0].contains('/'));
    lemma_split_at_slash(s1[0], r1, s2[0], r2);
    if s1.len() > 1 && s2.len() > 1 {
        assert(r1.drop_first() =~= join_segments(s1.drop_first()));
        assert(r2.drop_first() =~= join_segments(s2.drop_first()));
        assert forall|i: int| 0 <= i < s1.drop_first().len() implies !(#[trigger] s1.drop_first()[i]).contains('/') by {
            assert(s1.drop_first()[i] == s1[i + 1]);
        }
        assert forall|i: int| 0 <= i < s2.drop_first().len() implies !(#[trigger] s2.drop_first()[i]).contains('/') by {
            assert(s2.drop_first()[i] == s2[i + 1]);
        }
        lemma_join_injective(s1.drop_first(), s2.drop_first());
        assert(s1 =~= seq![s1[0]] + s1.drop_first());
        assert(s2 =~= seq![s2[0]] + s2.drop_first());
    } else if s1.len() > 1 {
        assert(r1.len() > 0);
    } else if s2.len() > 1 {
        assert(r2.len() > 0);
    } else {
        assert(s1 =~= s2);
    }
}

/// Joining one, two, three or five segments, spelled out.
proof fn lemma_join_small(a: Seq<char>, b: Seq<char>, c: Seq<char>, d: Seq<char>, e: Seq<char>)
    ensures
        join_segments(seq![a]) == a,
        join_segments(seq![c, d, e]) == c + (seq!['/'] + (d + (seq!['/'] + e))),
        join_segments(seq![a, b, c, d, e])
            == a + (seq!['/'] + (b + (seq!['/'] + (c + (seq!['/'] + (d + (seq!['/'] + e))))))),
{
    let s1 = seq![e];
    let s2 = seq![d, e];
    let s3 = seq![c, d, e];
    let s4 = seq![b, c, d, e];
    let s5 = seq![a, b, c, d, e];
    assert(s2.drop_first() =~= s1);
    assert(s3.drop_first() =~= s2);
    assert(s4.drop_first() =~= s3);
    assert(s5.drop_first() =~= s4);
    assert(join_segments(s1) == e);
    assert(join_segments(s2) == d + (seq!['/'] + e));
    assert(join_segments(s3) == c + (seq!['/'] + join_segments(s2)));
    assert(join_segments(s4) == b + (seq!['/'] + join_segments(s3)));
    assert(join_segments(s5) == a + (seq!['/'] + join_segments(s4)));
}

/// The key of a path is `realms/` followed by the path's segments joined with `/`.
proof fn lemma_path_key_segments(path: ResourcePath)
    ensures
        path_key(path) == realms_root() + join_segments(path_segments(path)),
{
    match path {
        ResourcePath::Realm { realm } => {
            lemma_join_small(realm, realm, realm, realm, realm);
        },
        ResourcePath::Zone { realm, zone } => {
            lemma_join_small(realm, realm, realm, zones_word(), zone);
        },
        ResourcePath::Subdomain { realm, zone, subdomain } => {
            lemma_join_small(realm, zones_word(), zone, subdomains_word(), subdomain);
        },
        ResourcePath::VirtualHost { realm, virtual_host } => {
            lemma_join_small(realm, realm, realm, virtual_hosts_word(), virtual_host);
        },
        ResourcePath::RoutingChain { realm, routing_chain } => {
            lemma_join_small(realm, realm, realm, routing_chains_word(), routing_chain);
        },
        ResourcePath::Hub { realm, hub } => {
            lemma_join_small(realm, realm, realm, hubs_word(), hub);
        },
        ResourcePath::Service { realm, hub, service } => {
            lemma_join_small(realm, hubs_word(), hub, services_word(), service);
        },
    }
    assert(path_key(path) =~= realms_root() + join_segments(path_segments(path)));
}

/// The collection names hold no `/`, and have pairwise different lengths.
proof fn lemma_words()
    ensures
        !zones_word().contains('/'),
        !subdomains_word().contains('/'),
        !virtual_hosts_word().contains('/'),
        !routing_chains_word().contains('/'),
        !hubs_word().contains('/'),
        !services_word().contains('/'),
        zones_word().len() == 5,
        virtual_hosts_word().len() == 13,
        routing_chains_word().len() == 14,
        hubs_word().len() == 4,
{
    let w = zones_word();
    assert forall|i: int| 0 <= i < w.len() implies w[i] != '/' by {}
    let w = subdomains_word();
    assert forall|i: int| 0 <= i < w.len() implies w[i] != '/' by {}
    let w = virtual_hosts_word();
    assert forall|i: int| 0 <= i < w.len() implies w[i] != '/' by {}
    let w = routing_chains_word();
    assert forall|i: int| 0 <= i < w.len() implies w[i] != '/' by {}
    let w = hubs_word();
    assert forall|i: int| 0 <= i < w.len() implies w[i] != '/' by {}
    let w = services_word();
    assert forall|i: int| 0 <= i < w.len() implies w[i] != '/' by {}
}

/// Distinct resources never share a key, so saving one never overwrites
/// another, as long as every name along their paths is free of `/`.
pub proof fn distinct_resources_have_distinct_keys(p1: ResourcePath, p2: ResourcePath)
    requires
        names_free_of_slash(p1),
        names_free_of_slash(p2),
        path_key(p1) == path_key(p2),
    ensures
        p1 == p2,
{
    lemma_words();
    lemma_path_key_segments(p1);
    lemma_path_key_segments(p2);
    let s1 = path_segments(p1);
    let s2 = path_segments(p2);
    let root = realms_root();
    let k = path_key(p1);
    assert(join_segments(s1) =~= k.subrange(root.len() as int, k.len() as int));
    assert(join_segments(s2) =~= k.subrange(root.len() as int, k.len() as int));
    assert forall|i: int| 0 <= i < s1.len() implies !(#[trigger] s1[i]).contains('/') by {}
    assert forall|i: int| 0 <= i < s2.len() implies !(#[trigger] s2[i]).contains('/') by {}
    lemma_join_injective(s1, s2);
    assert(s1.len() == s2.len());
    if s1.len() > 1 {
        assert(s1[1] == s2[1]);
        assert(s1[1].len() == s2[1].len());
    }
    assert(s1[0] == s2[0]);
    if s1.len() > 2 {
        assert(s1[2] == s2[2]);
    }
    if s1.len() > 4 {
        assert(s1[4] == s2[4]);
    }
}

/// A listing keeps, in the store's order and with no limit on their number,
/// the value of every entry whose key after the prefix is text free of `/`,
/// and nothing else: it is the entries filtered and mapped by that test.
pub proof fn listing_keeps_every_direct_member(prefix: Seq<u8>, entries: Seq<(Seq<u8>, Seq<u8>)>)
    ensures
        member_values(prefix, entries) == entries.filter_map(
            |e: (Seq<u8>, Seq<u8>)|
                if valid_utf8(e.0) && !e.0.subrange(prefix.len() as int, e.0.len() as int).contains(SLASH) {
                    Some(e.1)
                } else {
                    None
                },
        ),
    decreases entries.len(),
{
    let f = |e: (Seq<u8>, Seq<u8>)|
        if valid_utf8(e.0) && !e.0.subrange(prefix.len() as int, e.0.len() as int).contains(SLASH) {
            Some(e.1)
        } else {
            None
        };
    if entries.len() > 0 {
        listing_keeps_every_direct_member(prefix, entries.drop_last());
        let rest = entries.drop_last().filter_map(f);
        assert(entries.filter_map(f) == (match f(entries.last()) {
            Option::Some(v) => rest + seq![v],
            Option::None => rest,
        }));
        if f(entries.last()) is Some {
            assert(rest + seq![entries.last().1] =~= rest.push(entries.last().1));
        }
    } else {
        assert(entries.filter_map(f) =~= Seq::<Seq<u8>>::empty());
    }
}

/// The number of listed values is the number of entries that are direct
/// members: every one of them is listed.
pub proof fn listing_counts_every_direct_member(prefix: Seq<u8>, entries: Seq<(Seq<u8>, Seq<u8>)>)
    ensures
        member_values(prefix, entries).len() == entries.filter(
            |e: (Seq<u8>, Seq<u8>)|
                valid_utf8(e.0) && !e.0.subrange(prefix.len() as int, e.0.len() as int).contains(SLASH),
        ).len(),
    decreases entries.len(),
{
    reveal_with_fuel(Seq::filter, 1);
    if entries.len() > 0 {
        listing_counts_every_direct_member(prefix, entries.drop_last());
    }
}

/// Dropping values that did not decode keeps every value that did, in order:
/// the result is the input with the failures filtered out.
pub proof fn every_decoded_value_is_kept<T>(parsed: Seq<Option<T>>)
    ensures
        decoded_items(parsed) == parsed.filter_map(|o: Option<T>| o),
    decreases parsed.len(),
{
    let f = |o: Option<T>| o;
    if parsed.len() > 0 {
        every_decoded_value_is_kept(parsed.drop_last());
        let rest = parsed.drop_last().filter_map(f);
        assert(parsed.filter_map(f) == (match f(parsed.last()) {
            Option::Some(v) => rest + seq![v],
            Option::None => rest,
        }));
        if parsed.last() is Some {
            assert(rest + seq![parsed.last()->0] =~= rest.push(parsed.last()->0));
        }
    } else {
        assert(parsed.filter_map(f) =~= Seq::<T>::empty());
    }
}

/// When every value decoded, nothing is dropped: the result has one value per
/// input, each the decoded value at the same position.
pub proof fn all_decoded_values_are_kept<T>(parsed: Seq<Option<T>>)
    requires
        forall|i: int| 0 <= i < parsed.len() ==> (#[trigger] parsed[i]) is Some,
    ensures
        decoded_items(parsed).len() == parsed.len(),
        forall|i: int| 0 <= i < parsed.len() ==> decoded_items(parsed)[i] == (#[trigger] parsed[i])->0,
    decreases parsed.len(),
{
    if parsed.len() > 0 {
        let rest = parsed.drop_last();
        assert forall|i: int| 0 <= i < rest.len() implies (#[trigger] rest[i]) is Some by {
            assert(rest[i] == parsed[i]);
        }
        all_decoded_values_are_kept(rest);
        assert(parsed.last() is Some);
        assert forall|i: int| 0 <= i < parsed.len() implies decoded_items(parsed)[i] == (#[trigger] parsed[i])->0 by {
            if i < rest.len() {
                assert(rest[i] == parsed[i]);
            }
        }
    }
}

/// The layout, link by link: a realm's key is `realms/` and its name; each
/// collection prefix is its owner's key followed by the collection's segment;
/// each member's key is its collection prefix followed by its name. So a prefix
/// read of a collection returns every member saved in it, and the layout of every
/// key is fixed by its names alone.
pub proof fn key_layout_links(realm: Seq<char>, zone: Seq<char>, hub: Seq<char>, name: Seq<char>)
    ensures
        spec_realm_key(realm) == seq!['r', 'e', 'a', 'l', 'm', 's', '/'] + realm,
        spec_zones_prefix(realm) == spec_realm_key(realm) + seq!['/', 'z', 'o', 'n', 'e', 's', '/'],
        spec_zone_key(realm, name) == spec_zones_prefix(realm) + name,
        spec_subdomains_prefix(realm, zone) == spec_zone_key(realm, zone)
            + seq!['/', 's', 'u', 'b', 'd', 'o', 'm', 'a', 'i', 'n', 's', '/'],
        spec_subdomain_key(realm, zone, name) == spec_subdomains_prefix(realm, zone) + name,
        spec_virtual_hosts_prefix(realm) == spec_realm_key(realm)
            + seq!['/', 'v', 'i', 'r', 't', 'u', 'a', 'l', '-', 'h', 'o', 's', 't', 's', '/'],
        spec_virtual_host_key(realm, name) == spec_virtual_hosts_prefix(realm) + name,
        spec_routing_chains_prefix(realm) == spec_realm_key(realm)
            + seq!['/', 'r', 'o', 'u', 't', 'i', 'n', 'g', '-', 'c', 'h', 'a', 'i', 'n', 's', '/'],
        spec_routing_chain_key(realm, name) == spec_routing_chains_prefix(realm) + name,
        spec_hubs_prefix(realm) == spec_realm_key(realm) + seq!['/', 'h', 'u', 'b', 's', '/'],
        spec_hub_key(realm, name) == spec_hubs_prefix(realm) + name,
        spec_services_prefix(realm, hub) == spec_hub_key(realm, hub)
            + seq!['/', 's', 'e', 'r', 'v', 'i', 'c', 'e', 's', '/'],
        spec_service_key(realm, hub, name) == spec_services_prefix(realm, hub) + name,
{
    assert(spec_realm_key(realm) =~= seq!['r', 'e', 'a', 'l', 'm', 's', '/'] + realm);
    assert(spec_zones_prefix(realm) =~= spec_realm_key(realm) + seq!['/', 'z', 'o', 'n', 'e', 's', '/']);
    assert(spec_subdomains_prefix(realm, zone) =~= spec_zone_key(realm, zone)
        + seq!['/', 's', 'u', 'b', 'd', 'o', 'm', 'a', 'i', 'n', 's', '/']);
    assert(spec_virtual_hosts_prefix(realm) =~= spec_realm_key(realm)
        + seq!['/', 'v', 'i', 'r', 't', 'u', 'a', 'l', '-', 'h', 'o', 's', 't', 's', '/']);
    assert(spec_routing_chains_prefix(realm) =~= spec_realm_key(realm)
        + seq!['/', 'r', 'o', 'u', 't', 'i', 'n', 'g', '-', 'c', 'h', 'a', 'i', 'n', 's', '/']);
    assert(spec_hubs_prefix(realm) =~= spec_realm_key(realm) + seq!['/', 'h', 'u', 'b', 's', '/']);
    assert(spec_services_prefix(realm, hub) =~= spec_hub_key(realm, hub)
        + seq!['/', 's', 'e', 'r', 'v', 'i', 'c', 'e', 's', '/']);
}

} // verus!
