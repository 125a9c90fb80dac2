//! Properties that relate several operations of the server.
use crate::config::HostSettings;
use crate::host::path::RoutePath;
use crate::host::{path_count_fits, route_leads_to_its_path, starts_with_dotdot, HostImpl};
use crate::listener::{carried_over, host_key, offered_alpn, Listener, Transport};
use crate::net::{alpn_id, Alpn, IpAddress};
use crate::rt::{binds_to, registered};
use crate::text::decimal;
use crate::tls::{served_identities, serves};
use crate::worker::udp::{accepted_headers, header_name_accepted, header_texts, header_value_accepted, header_value_byte};
use vstd::utf8::{encode_utf8, is_ascii_chars, is_ascii_chars_encode_utf8};
use vstd::prelude::*;

verus! {

/// Routing is deterministic: a request path is served by one path, with one
/// remainder.
pub proof fn routing_is_deterministic<P: RoutePath>(h: HostImpl<P>, q: Seq<char>, p1: usize, t1: Seq<char>, p2: usize, t2: Seq<char>)
    requires
        h.dispatches(q, p1, t1),
        h.dispatches(q, p2, t2),
    ensures
        p1 == p2,
        t1 == t2,
{
    let k1 = h.spec_paths()[p1 as int].uri_view();
    let k2 = h.spec_paths()[p2 as int].uri_view();
    assert(k1.len() <= k2.len() && k2.len() <= k1.len());
    assert(k1 =~= k2);
}

/// A path added to a host serves the requests for exactly its URI: the URI
/// is routed to that very path, with nothing left over.
pub proof fn added_path_serves_its_uri<P: RoutePath>(before: HostImpl<P>, after: HostImpl<P>, path: P)
    requires
        before.routes_consistent(),
        after.routes_consistent(),
        before.route_map().contains_key(path.uri_view()) ==> {
            &&& after.route_map() == before.route_map()
            &&& after.spec_paths() == before.spec_paths().update(
                before.route_map()[path.uri_view()] as int,
                path,
            )
        },
        !before.route_map().contains_key(path.uri_view()) ==> {
            &&& after.route_map() == before.route_map().insert(
                path.uri_view(),
                before.spec_paths().len() as usize,
            )
            &&& after.spec_paths() == before.spec_paths().push(path)
        },
    ensures
        after.route_map().contains_key(path.uri_view()),
        after.spec_paths()[after.route_map()[path.uri_view()] as int] == path,
        after.dispatches(path.uri_view(), after.route_map()[path.uri_view()], Seq::empty()),
{
    let u = path.uri_view();
    if before.route_map().contains_key(u) {
        route_leads_to_its_path(before, u);
    }
    path_count_fits(before);
    assert(after.route_map().contains_key(u));
    route_leads_to_its_path(after, u);
    assert(u.is_prefix_of(u));
    assert(u.skip(u.len() as int) =~= Seq::<char>::empty());
}

/// A longer routed prefix takes precedence: when two routed prefixes both
/// start the request path, the path reached is not the shorter one.
pub proof fn longest_prefix_wins<P: RoutePath>(h: HostImpl<P>, q: Seq<char>, short: Seq<char>, long: Seq<char>, p: usize, t: Seq<char>)
    requires
        h.route_map().contains_key(short),
        h.route_map().contains_key(long),
        short.is_prefix_of(q),
        long.is_prefix_of(q),
        short.len() < long.len(),
        h.dispatches(q, p, t),
    ensures
        h.spec_paths()[p as int].uri_view() != short,
        t.len() <= q.len() - long.len(),
{
    assert(h.route_map().contains_key(long) && long.is_prefix_of(q));
}

/// Distinct host names are served under distinct keys by a listener.
pub proof fn host_keys_are_distinct(a: Seq<char>, b: Seq<char>, port: u16)
    requires
        a != b,
    ensures
        host_key(a, port) != host_key(b, port),
{
    let ka = host_key(a, port);
    let kb = host_key(b, port);
    if ka == kb {
        let d = decimal(port as nat);
        assert(ka.len() == a.len() + 1 + d.len());
        assert(kb.len() == b.len() + 1 + d.len());
        assert(a.len() == b.len());
        assert forall|i: int| 0 <= i < a.len() implies a[i] == b[i] by {
            assert(ka[i] == a[i]);
            assert(kb[i] == b[i]);
        }
        assert(a =~= b);
    }
}

/// Removing a host right after adding it, under a key that was free, gives
/// back the listener's table as it was.
pub proof fn remove_undoes_add(l: Listener, hostname: Seq<char>, id: usize)
    requires
        !l.entries().contains_key(host_key(hostname, l.spec_config().port)),
    ensures
        l.entries().insert(host_key(hostname, l.spec_config().port), id).remove(
            host_key(hostname, l.spec_config().port),
        ) == l.entries(),
{
    let key = host_key(hostname, l.spec_config().port);
    assert(l.entries().insert(key, id).remove(key) =~= l.entries());
}

/// A host registered with a listener bound to one of its addresses is
/// reached through that listener by the key `hostname:port`.
pub proof fn registered_host_is_reachable(before: Listener, after: Listener, hostname: Seq<char>, binds: Seq<(IpAddress, u16)>, id: usize)
    requires
        registered(before, after, hostname, binds, id),
        binds_to(before.spec_config(), binds),
    ensures
        after.entries().contains_key(host_key(hostname, after.spec_config().port)),
        after.entries()[host_key(hostname, after.spec_config().port)] == id,
{
}

/// Registering a host under a new name adds exactly one host to a listener
/// bound to one of its addresses; registering under a name already served
/// keeps the count.
pub proof fn registration_counts_names(before: Listener, after: Listener, hostname: Seq<char>, binds: Seq<(IpAddress, u16)>, id: usize)
    requires
        registered(before, after, hostname, binds, id),
        binds_to(before.spec_config(), binds),
        before.entries().dom().finite(),
    ensures
        after.entries().dom().finite(),
        !before.entries().contains_key(host_key(hostname, before.spec_config().port)) ==> after.entries().len()
            == before.entries().len() + 1,
        before.entries().contains_key(host_key(hostname, before.spec_config().port)) ==> after.entries().len()
            == before.entries().len(),
{
    let key = host_key(hostname, before.spec_config().port);
    if before.entries().contains_key(key) {
        assert(before.entries().dom().insert(key) =~= before.entries().dom());
    }
}

/// A listener bound to none of a host's addresses does not serve it.
pub proof fn unbound_listener_is_untouched(before: Listener, after: Listener, hostname: Seq<char>, binds: Seq<(IpAddress, u16)>, id: usize)
    requires
        registered(before, after, hostname, binds, id),
        !binds_to(before.spec_config(), binds),
    ensures
        after.entries() == before.entries(),
{
}

/// No ALPN protocol is carried by both transports.
pub proof fn transports_carry_disjoint_protocols(a: Alpn)
    ensures
        !(carried_over(a, Transport::Tcp) && carried_over(a, Transport::Udp)),
{
}

/// Distinct ALPN protocols have distinct wire identifiers.
pub proof fn alpn_ids_are_distinct(a: Alpn, b: Alpn)
    requires
        a != b,
    ensures
        alpn_id(a) != alpn_id(b),
{
    if alpn_id(a) == alpn_id(b) {
        assert(alpn_id(a).len() == alpn_id(b).len());
        assert(alpn_id(a)[0] == alpn_id(b)[0]);
        assert(alpn_id(a)[1] == alpn_id(b)[1]);
        assert(alpn_id(a)[alpn_id(a).len() - 1] == alpn_id(b)[alpn_id(b).len() - 1]);
    }
}

/// Every identifier offered over a transport is the identifier of a
/// configured protocol that the transport carries.
pub proof fn offered_ids_are_carried(s: Seq<Alpn>, t: Transport, id: Seq<u8>)
    requires
        offered_alpn(s, t).contains(id),
    ensures
        exists|a: Alpn| #[trigger] s.contains(a) && carried_over(a, t) && alpn_id(a) == id,
    decreases s.len(),
{
    let rest = offered_alpn(s.drop_last(), t);
    if carried_over(s.last(), t) && id == alpn_id(s.last()) {
        assert(s.contains(s.last()));
    } else {
        assert(rest.contains(id));
        offered_ids_are_carried(s.drop_last(), t, id);
        let a = choose|a: Alpn| #[trigger] s.drop_last().contains(a) && carried_over(a, t) && alpn_id(a) == id;
        let j = choose|j: int| 0 <= j < s.drop_last().len() && s.drop_last()[j] == a;
        assert(s[j] == a);
        assert(s.contains(a));
    }
}

/// No ALPN identifier is offered both over TCP and over QUIC.
pub proof fn no_identifier_offered_on_both_transports(s: Seq<Alpn>, id: Seq<u8>)
    ensures
        !(offered_alpn(s, Transport::Tcp).contains(id) && offered_alpn(s, Transport::Udp).contains(id)),
{
    if offered_alpn(s, Transport::Tcp).contains(id) && offered_alpn(s, Transport::Udp).contains(id) {
        offered_ids_are_carried(s, Transport::Tcp, id);
        offered_ids_are_carried(s, Transport::Udp, id);
        let a = choose|a: Alpn| #[trigger] s.contains(a) && carried_over(a, Transport::Tcp) && alpn_id(a) == id;
        let b = choose|b: Alpn| #[trigger] s.contains(b) && carried_over(b, Transport::Udp) && alpn_id(b) == id;
        if a == b {
            transports_carry_disjoint_protocols(a);
        } else {
            alpn_ids_are_distinct(a, b);
        }
    }
}

/// Two distinct hosts a listener's table serves have distinct host names.
pub proof fn served_hosts_have_distinct_names<P: RoutePath>(entries: Map<Seq<char>, usize>, port: u16, hosts: Seq<HostImpl<P>>, i: int, j: int)
    requires
        i != j,
        serves(entries, port, hosts, i),
        serves(entries, port, hosts, j),
    ensures
        hosts[i].spec_config().hostname@ != hosts[j].spec_config().hostname@,
{
}

/// Each identity of a TLS plan is that of a host the table serves.
proof fn identity_of_served_host<P: RoutePath>(entries: Map<Seq<char>, usize>, port: u16, hosts: Seq<HostImpl<P>>, n: int, a: int)
    requires
        0 <= a < served_identities(entries, port, hosts, n).len(),
    ensures
        exists|k: int|
            0 <= k < n && #[trigger] serves(entries, port, hosts, k) && hosts[k].spec_config().hostname@
                == served_identities(entries, port, hosts, n)[a].0,
    decreases n,
{
    if n > 0 {
        let rest = served_identities(entries, port, hosts, n - 1);
        if a < rest.len() {
            identity_of_served_host(entries, port, hosts, n - 1, a);
            let k = choose|k: int|
                0 <= k < n - 1 && #[trigger] serves(entries, port, hosts, k) && hosts[k].spec_config().hostname@
                    == rest[a].0;
            assert(serves(entries, port, hosts, k));
        } else {
            assert(serves(entries, port, hosts, n - 1));
        }
    }
}

/// One certificate per host name: the identities of a listener's TLS plan
/// have distinct names.
pub proof fn plan_names_are_distinct<P: RoutePath>(entries: Map<Seq<char>, usize>, port: u16, hosts: Seq<HostImpl<P>>, n: int, a: int, b: int)
    requires
        0 <= a < b < served_identities(entries, port, hosts, n).len(),
    ensures
        served_identities(entries, port, hosts, n)[a].0 != served_identities(entries, port, hosts, n)[b].0,
    decreases n,
{
    if n > 0 {
        let rest = served_identities(entries, port, hosts, n - 1);
        if b < rest.len() {
            plan_names_are_distinct(entries, port, hosts, n - 1, a, b);
        } else {
            identity_of_served_host(entries, port, hosts, n - 1, a);
            let k = choose|k: int|
                0 <= k < n - 1 && #[trigger] serves(entries, port, hosts, k) && hosts[k].spec_config().hostname@
                    == rest[a].0;
            served_hosts_have_distinct_names(entries, port, hosts, k, n - 1);
        }
    }
}

/// A host is registered with every listener bound to any one of its bind
/// addresses: such a listener serves it under `hostname:port`, whichever of
/// the addresses names the listener.
pub proof fn every_bound_listener_serves_the_host(before: Listener, after: Listener, hostname: Seq<char>, binds: Seq<(IpAddress, u16)>, id: usize, j: int)
    requires
        registered(before, after, hostname, binds, id),
        0 <= j < binds.len(),
        binds[j].0 == before.spec_config().interface,
        binds[j].1 == before.spec_config().port,
    ensures
        after.entries().contains_key(host_key(hostname, before.spec_config().port)),
        after.entries()[host_key(hostname, before.spec_config().port)] == id,
        after.spec_config() == before.spec_config(),
{
    assert(binds_to(before.spec_config(), binds));
}

/// A listener that none of a host's bind addresses names keeps its hosts
/// when the host is registered.
pub proof fn listener_named_by_no_address_is_untouched(before: Listener, after: Listener, hostname: Seq<char>, binds: Seq<(IpAddress, u16)>, id: usize)
    requires
        registered(before, after, hostname, binds, id),
        forall|j: int|
            0 <= j < binds.len() ==> !(#[trigger] binds[j].0 == before.spec_config().interface && binds[j].1
                == before.spec_config().port),
    ensures
        after.entries() == before.entries(),
{
}

/// Only paths that begin with `..` are forbidden.
pub proof fn only_dotdot_paths_are_forbidden(s: Seq<char>)
    ensures
        starts_with_dotdot(s) <==> seq!['.', '.'].is_prefix_of(s),
        !starts_with_dotdot(seq!['/'] + s),
        starts_with_dotdot(seq!['.', '.'] + s),
{
    assert((seq!['/'] + s)[0] == '/');
    assert((seq!['.', '.'] + s)[0] == '.');
    assert((seq!['.', '.'] + s)[1] == '.');
    if seq!['.', '.'].is_prefix_of(s) {
        assert(s[0] == seq!['.', '.'][0]);
        assert(s[1] == seq!['.', '.'][1]);
    }
    if starts_with_dotdot(s) {
        assert(s.subrange(0, 2) =~= seq!['.', '.']);
    }
}

/// Both texts of every header pair are accepted by `http`.
pub open spec fn all_headers_valid(h: Seq<(String, String)>) -> bool {
    forall|i: int|
        0 <= i < h.len() ==> header_name_accepted(encode_utf8((#[trigger] h[i]).0@)) && header_value_accepted(
            h[i].1@,
        )
}

/// Default headers that `http` accepts are all added, in their order.
pub proof fn valid_default_headers_are_all_kept(h: Seq<(String, String)>)
    requires
        all_headers_valid(h),
    ensures
        accepted_headers(h) == header_texts(h),
    decreases h.len(),
{
    if h.len() > 0 {
        assert(all_headers_valid(h.drop_last())) by {
            assert forall|i: int| 0 <= i < h.drop_last().len() implies header_name_accepted(
                encode_utf8((#[trigger] h.drop_last()[i]).0@),
            ) && header_value_accepted(h.drop_last()[i].1@) by {
                assert(h.drop_last()[i] == h[i]);
            }
        }
        valid_default_headers_are_all_kept(h.drop_last());
        assert(h[h.len() - 1] == h.last());
        assert(header_texts(h) =~= header_texts(h.drop_last()).push((h.last().0@, h.last().1@)));
    }
}

/// Default headers that `http` refuses, by name or by value, are all left out.
pub proof fn invalid_default_headers_are_all_dropped(h: Seq<(String, String)>)
    requires
        forall|i: int|
            0 <= i < h.len() ==> !(header_name_accepted(encode_utf8((#[trigger] h[i]).0@)) && header_value_accepted(
                h[i].1@,
            )),
    ensures
        accepted_headers(h) == Seq::<(Seq<char>, Seq<char>)>::empty(),
    decreases h.len(),
{
    if h.len() > 0 {
        assert forall|i: int| 0 <= i < h.drop_last().len() implies !(header_name_accepted(
            encode_utf8((#[trigger] h.drop_last()[i]).0@),
        ) && header_value_accepted(h.drop_last()[i].1@)) by {
            assert(h.drop_last()[i] == h[i]);
        }
        invalid_default_headers_are_all_dropped(h.drop_last());
        assert(h[h.len() - 1] == h.last());
    }
}

/// Filtering the default headers of two lists, one after the other, keeps
/// the kept headers of each in order.
pub proof fn default_headers_filter_piecewise(h1: Seq<(String, String)>, h2: Seq<(String, String)>)
    ensures
        accepted_headers(h1 + h2) == accepted_headers(h1) + accepted_headers(h2),
    decreases h2.len(),
{
    if h2.len() == 0 {
        assert(h1 + h2 =~= h1);
        assert(accepted_headers(h1) + accepted_headers(h2) =~= accepted_headers(h1));
    } else {
        assert((h1 + h2).drop_last() =~= h1 + h2.drop_last());
        assert((h1 + h2).last() == h2.last());
        default_headers_filter_piecewise(h1, h2.drop_last());
        let p = h2.last();
        if header_name_accepted(encode_utf8(p.0@)) && header_value_accepted(p.1@) {
            assert(accepted_headers(h1) + accepted_headers(h2) =~= (accepted_headers(h1) + accepted_headers(
                h2.drop_last(),
            )).push((p.0@, p.1@)));
        }
    }
}

/// A header value made of visible ASCII characters and spaces is accepted.
pub proof fn printable_ascii_values_are_accepted(v: Seq<char>)
    requires
        forall|i: int| 0 <= i < v.len() ==> ' ' <= #[trigger] v[i] <= '~',
    ensures
        header_value_accepted(v),
{
    assert(is_ascii_chars(v));
    is_ascii_chars_encode_utf8(v);
    assert forall|i: int| 0 <= i < encode_utf8(v).len() implies header_value_byte(#[trigger] encode_utf8(v)[i]) by {
        assert(v[i] as u8 == encode_utf8(v)[i]);
        assert(' ' <= v[i] <= '~');
    }
}

/// QUIC carries exactly the protocols whose wire identifier is `h3` or
/// `doq`; TCP carries exactly those whose identifier is `acme-tls/1`, `doh`,
/// `dot`, `http/1.1`, `h2` or `h2c`.
pub proof fn transports_carry_their_protocols(a: Alpn)
    ensures
        carried_over(a, Transport::Udp) <==> (alpn_id(a) == seq![104u8, 51] || alpn_id(a) == seq![100u8, 111, 113]),
        carried_over(a, Transport::Tcp) <==> (alpn_id(a) == seq![97u8, 99, 109, 101, 45, 116, 108, 115, 47, 49]
            || alpn_id(a) == seq![100u8, 111, 104] || alpn_id(a) == seq![100u8, 111, 116] || alpn_id(a) == seq![
            104u8,
            116,
            116,
            112,
            47,
            49,
            46,
            49,
        ] || alpn_id(a) == seq![104u8, 50] || alpn_id(a) == seq![104u8, 50, 99]),
{
    let id = alpn_id(a);
    if id == seq![104u8, 51] || id == seq![100u8, 111, 113] {
        assert(id.len() >= 2 && id[0] != 97 && id.last() != 116 && id.last() != 104 && id.last() != 50);
        assert(id.last() == 51 || id.last() == 113);
    }
    match a {
        Alpn::Http10 => {
            assert(id[7] == 48);
        },
        _ => {},
    }
}

/// Each identity of a listener's TLS plan is the certificate of a host the
/// table serves: the host's name, its certificate followed by its
/// authority's certificate when one is given, and its private key.
pub proof fn plan_identities_are_served_certificates<P: RoutePath>(entries: Map<Seq<char>, usize>, port: u16, hosts: Seq<HostImpl<P>>, n: int, a: int)
    requires
        0 <= a < served_identities(entries, port, hosts, n).len(),
    ensures
        exists|k: int|
            0 <= k < n && #[trigger] serves(entries, port, hosts, k) && presents(
                hosts[k].spec_config(),
                served_identities(entries, port, hosts, n)[a],
            ),
    decreases n,
{
    if n > 0 {
        let rest = served_identities(entries, port, hosts, n - 1);
        if a < rest.len() {
            plan_identities_are_served_certificates(entries, port, hosts, n - 1, a);
            let k = choose|k: int|
                0 <= k < n - 1 && #[trigger] serves(entries, port, hosts, k) && presents(hosts[k].spec_config(), rest[a]);
            assert(serves(entries, port, hosts, k));
        } else {
            assert(serves(entries, port, hosts, n - 1));
        }
    }
}

/// Every host the table serves that has a TLS identity has its certificate
/// in the listener's TLS plan.
pub proof fn served_certificates_are_planned<P: RoutePath>(entries: Map<Seq<char>, usize>, port: u16, hosts: Seq<HostImpl<P>>, n: int, k: int)
    requires
        0 <= k < n,
        serves(entries, port, hosts, k),
        hosts[k].spec_config().security is Some,
    ensures
        exists|a: int|
            0 <= a < served_identities(entries, port, hosts, n).len() && presents(
                hosts[k].spec_config(),
                #[trigger] served_identities(entries, port, hosts, n)[a],
            ),
    decreases n,
{
    let ids = served_identities(entries, port, hosts, n);
    let rest = served_identities(entries, port, hosts, n - 1);
    if k == n - 1 {
        assert(presents(hosts[k].spec_config(), ids[rest.len() as int]));
    } else {
        served_certificates_are_planned(entries, port, hosts, n - 1, k);
        let a = choose|a: int| 0 <= a < rest.len() && presents(hosts[k].spec_config(), #[trigger] rest[a]);
        assert(ids[a] == rest[a]);
    }
}

/// `id` is the certificate a host with settings `settings` presents: its
/// name, its certificate followed by its authority's certificate when one
/// is given, and its private key.
pub open spec fn presents(settings: HostSettings, id: (Seq<char>, Seq<Seq<u8>>, Seq<u8>)) -> bool {
    &&& settings.security is Some
    &&& id.0 == settings.hostname@
    &&& id.1.len() == (if settings.security.unwrap().ca_cert is Some { 2int } else { 1int })
    &&& id.1[0] == settings.security.unwrap().cert@
    &&& settings.security.unwrap().ca_cert is Some ==> id.1[1] == settings.security.unwrap().ca_cert.unwrap()@
    &&& id.2 == settings.security.unwrap().key@
}

} // verus!
