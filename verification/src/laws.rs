//! Laws on the building blocks of the server's decisions: listener keys,
//! protocol choices, request decisions, status pages and the certificates a
//! TLS configuration serves.
use crate::host::status::{failure_of, failure_status_spec};
use crate::listener::{carried_over, host_key, offered_alpn, transport_for, transports_for, Listener, Transport};
use crate::net::{alpn_id, Alpn, HttpVersion};
use crate::rt::{none_running, serves_no_host};
use crate::text::{decimal, digit_char};
use crate::tls::{ascii_lower, sni_map, ServedCertificate};
use crate::worker::tcp::{protocol_for, starts_tls_handshake, ServeProtocol};
use crate::worker::udp::{decision_for, header_name_accepted, header_name_byte, header_value_accepted, ServiceDecisionView};
use vetis::errors::{FileError, HostError, VetisError};
use vstd::prelude::*;
use vstd::utf8::{encode_utf8, is_ascii_chars, is_ascii_chars_encode_utf8};

verus! {

/// Every character of `s` is a decimal digit.
pub open spec fn all_digits(s: Seq<char>) -> bool {
    forall|i: int| 0 <= i < s.len() ==> '0' <= #[trigger] s[i] <= '9'
}

/// The number that a sequence of decimal digits denotes, most significant first.
pub open spec fn digits_value(s: Seq<char>) -> int
    decreases s.len(),
{
    if s.len() == 0 {
        0
    } else {
        10 * digits_value(s.drop_last()) + ((s.last() as int) - ('0' as int))
    }
}

proof fn digit_char_reads_back(d: nat)
    requires
        d < 10,
    ensures
        '0' <= digit_char(d) <= '9',
        (digit_char(d) as int) - ('0' as int) == d,
{
}

/// The decimal rendering of a number is made of digits, has no leading
/// zero, and denotes the number.
pub proof fn decimal_reads_back(n: nat)
    ensures
        decimal(n).len() >= 1,
        all_digits(decimal(n)),
        digits_value(decimal(n)) == n,
        decimal(n).len() > 1 ==> decimal(n)[0] != '0',
        n >= 1 ==> decimal(n)[0] != '0',
    decreases n,
{
    if n < 10 {
        digit_char_reads_back(n);
        assert(decimal(n).drop_last() =~= Seq::<char>::empty());
        assert(decimal(n).last() == digit_char(n));
        assert(digits_value(decimal(n)) == 10 * digits_value(Seq::<char>::empty()) + ((digit_char(n) as int) - ('0' as int)));
    } else {
        let m = n / 10;
        decimal_reads_back(m);
        digit_char_reads_back(n % 10);
        let s = decimal(n);
        assert(s == decimal(m).push(digit_char(n % 10)));
        assert(s.drop_last() =~= decimal(m));
        assert(s.last() == digit_char(n % 10));
        assert(digits_value(s) == 10 * digits_value(decimal(m)) + ((digit_char(n % 10) as int) - ('0' as int)));
        assert(n == 10 * m + n % 10) by (nonlinear_arith)
            requires
                m == n / 10,
        ;
        assert(s[0] == decimal(m)[0]);
        assert forall|i: int| 0 <= i < s.len() implies '0' <= #[trigger] s[i] <= '9' by {
            if i < decimal(m).len() {
                assert(s[i] == decimal(m)[i]);
            }
        }
    }
}

/// A listener's key for a host is the host name, a colon, then the port in
/// decimal: the port reads back from what follows the colon.
pub proof fn host_key_names_host_and_port(hostname: Seq<char>, port: u16)
    ensures
        host_key(hostname, port).len() > hostname.len() + 1,
        host_key(hostname, port).subrange(0, hostname.len() as int) == hostname,
        host_key(hostname, port)[hostname.len() as int] == ':',
        all_digits(host_key(hostname, port).subrange(hostname.len() + 1int, host_key(hostname, port).len() as int)),
        digits_value(host_key(hostname, port).subrange(hostname.len() + 1int, host_key(hostname, port).len() as int))
            == port,
{
    let k = host_key(hostname, port);
    decimal_reads_back(port as nat);
    assert(k.subrange(0, hostname.len() as int) =~= hostname);
    assert(k.subrange(hostname.len() + 1int, k.len() as int) =~= decimal(port as nat));
}

/// A key names one port: keys of one host name on two ports differ.
pub proof fn host_keys_tell_ports_apart(hostname: Seq<char>, p1: u16, p2: u16)
    requires
        p1 != p2,
    ensures
        host_key(hostname, p1) != host_key(hostname, p2),
{
    host_key_names_host_and_port(hostname, p1);
    host_key_names_host_and_port(hostname, p2);
}

/// HTTP/1.1 and HTTP/2 are served over TCP, HTTP/3 over UDP, and older
/// versions by no listener.
pub proof fn versions_map_to_transports(v: HttpVersion)
    ensures
        transport_for(v) == Some(Transport::Udp) <==> v == HttpVersion::H3,
        transport_for(v) == Some(Transport::Tcp) <==> (v == HttpVersion::Http11 || v == HttpVersion::H2),
        transport_for(v) is None <==> (v == HttpVersion::Http09 || v == HttpVersion::Http10),
{
}

/// The listeners built for a list of versions are those of its parts, one
/// after the other.
pub proof fn listeners_of_joined_versions(s1: Seq<HttpVersion>, s2: Seq<HttpVersion>)
    ensures
        transports_for(s1 + s2) == transports_for(s1) + transports_for(s2),
    decreases s2.len(),
{
    if s2.len() == 0 {
        assert(s1 + s2 =~= s1);
        assert(transports_for(s1) + transports_for(s2) =~= transports_for(s1));
    } else {
        assert((s1 + s2).drop_last() =~= s1 + s2.drop_last());
        assert((s1 + s2).last() == s2.last());
        listeners_of_joined_versions(s1, s2.drop_last());
        match transport_for(s2.last()) {
            Some(t) => {
                assert(transports_for(s1) + transports_for(s2) =~= (transports_for(s1) + transports_for(
                    s2.drop_last(),
                )).push(t));
            },
            None => {},
        }
    }
}

/// A version list made only of HTTP/1.1, HTTP/2 and HTTP/3 gets one
/// listener per entry, of the entry's transport.
pub proof fn supported_versions_get_a_listener_each(s: Seq<HttpVersion>)
    requires
        forall|i: int| 0 <= i < s.len() ==> (#[trigger] transport_for(s[i])) is Some,
    ensures
        transports_for(s).len() == s.len(),
        forall|i: int| 0 <= i < s.len() ==> Some(#[trigger] transports_for(s)[i]) == transport_for(s[i]),
    decreases s.len(),
{
    if s.len() > 0 {
        assert forall|i: int| 0 <= i < s.drop_last().len() implies (#[trigger] transport_for(s.drop_last()[i])) is Some by {
            assert(s.drop_last()[i] == s[i]);
            assert(transport_for(s[i]) is Some);
        }
        supported_versions_get_a_listener_each(s.drop_last());
        assert(transport_for(s[s.len() - 1]) is Some);
        assert forall|i: int| 0 <= i < s.len() implies Some(#[trigger] transports_for(s)[i]) == transport_for(s[i]) by {
            if i < s.len() - 1 {
                assert(s.drop_last()[i] == s[i]);
                assert(Some(transports_for(s.drop_last())[i]) == transport_for(s.drop_last()[i]));
            }
        }
    }
}

/// A TLS handshake is recognised exactly by the bytes 0x16 0x03.
pub proof fn handshake_is_the_tls_record_header(peeked: [u8; 2])
    ensures
        starts_tls_handshake(peeked) <==> peeked@ == seq![0x16u8, 0x03u8],
{
    if starts_tls_handshake(peeked) {
        assert(peeked@ =~= seq![0x16u8, 0x03u8]);
    }
    if peeked@ == seq![0x16u8, 0x03u8] {
        assert(peeked@[0] == 0x16u8);
    }
}

/// The negotiated protocol `http/1.1` is served by HTTP/1.1 alone, `h2` by
/// HTTP/2 alone, no negotiation by automatic detection, and every other
/// protocol by nothing.
pub proof fn services_follow_the_negotiated_protocol(code: Seq<u8>)
    ensures
        protocol_for(None) == ServeProtocol::Auto,
        protocol_for(Some(code)) == ServeProtocol::Http1 <==> code == seq![104u8, 116, 116, 112, 47, 49, 46, 49],
        protocol_for(Some(code)) == ServeProtocol::Http2 <==> code == seq![104u8, 50],
        protocol_for(Some(code)) == ServeProtocol::Unsupported <==> (code != seq![
            104u8,
            116,
            116,
            112,
            47,
            49,
            46,
            49,
        ] && code != seq![104u8, 50]),
{
    assert(alpn_id(Alpn::Http11) =~= seq![104u8, 116, 116, 112, 47, 49, 46, 49]);
    assert(alpn_id(Alpn::H2) =~= seq![104u8, 50]);
}

/// A request is routed exactly when it names an authority that the table
/// holds, and then to the host the table holds for it; otherwise it is
/// answered 400.
pub proof fn requests_route_to_the_host_of_their_authority(authority: Option<Seq<char>>, entries: Map<Seq<char>, usize>)
    ensures
        decision_for(authority, entries) is Route <==> (authority is Some && entries.contains_key(authority.unwrap())),
        decision_for(authority, entries) matches ServiceDecisionView::Route { host } ==> host == entries[authority.unwrap()],
        decision_for(authority, entries) matches ServiceDecisionView::Reply { status, .. } ==> status == 400,
{
}

/// Handler failures are answered with status pages: a missing file with
/// 404, a proxy failure with 502, an authentication failure with 401; any
/// other failure is passed on.
pub proof fn handler_failures_get_their_status(e: VetisError)
    ensures
        failure_status_spec(failure_of(e)) == Some(404u16) <==> e == VetisError::Host(HostError::File(FileError::NotFound)),
        failure_status_spec(failure_of(e)) == Some(502u16) <==> (e matches VetisError::Host(HostError::Proxy(_))),
        failure_status_spec(failure_of(e)) == Some(401u16) <==> (e matches VetisError::Host(HostError::Auth(_))),
        failure_status_spec(failure_of(e)) is None <==> !(e == VetisError::Host(HostError::File(FileError::NotFound))
            || (e matches VetisError::Host(HostError::Proxy(_))) || (e matches VetisError::Host(HostError::Auth(_)))),
{
}

/// A listener that serves a host keeps a server startable; a server with
/// no listener serves no host.
pub proof fn a_served_host_allows_starting(listeners: Seq<Listener>, i: int, key: Seq<char>)
    requires
        0 <= i < listeners.len(),
        listeners[i].entries().contains_key(key),
    ensures
        !serves_no_host(listeners),
        serves_no_host(Seq::<Listener>::empty()),
{
    if serves_no_host(listeners) {
        assert(listeners[i].entries().contains_key(key));
    }
}

/// A running listener makes the server stoppable; a server whose listeners
/// all stopped is not running.
pub proof fn a_running_listener_allows_stopping(listeners: Seq<Listener>, i: int)
    requires
        0 <= i < listeners.len(),
    ensures
        listeners[i].is_running() ==> !none_running(listeners),
        (forall|j: int| 0 <= j < listeners.len() ==> !(#[trigger] listeners[j]).is_running()) ==> none_running(
            listeners,
        ),
{
}

/// A header name of ASCII letters, digits and dashes, at most 65535 long
/// and not empty, is accepted.
pub proof fn plain_header_names_are_accepted(name: Seq<char>)
    requires
        1 <= name.len() <= 65535,
        forall|i: int|
            0 <= i < name.len() ==> ('a' <= #[trigger] name[i] <= 'z' || 'A' <= name[i] <= 'Z' || '0' <= name[i]
                <= '9' || name[i] == '-'),
    ensures
        header_name_accepted(encode_utf8(name)),
{
    assert(is_ascii_chars(name));
    is_ascii_chars_encode_utf8(name);
    assert forall|i: int| 0 <= i < encode_utf8(name).len() implies header_name_byte(#[trigger] encode_utf8(name)[i]) by {
        assert(name[i] as u8 == encode_utf8(name)[i]);
    }
}

/// A header name holding a space, a colon or a parenthesis is refused.
pub proof fn separators_make_header_names_invalid(name: Seq<char>, i: int)
    requires
        0 <= i < name.len(),
        is_ascii_chars(name),
        name[i] == ' ' || name[i] == ':' || name[i] == '(' || name[i] == ')',
    ensures
        !header_name_accepted(encode_utf8(name)),
{
    is_ascii_chars_encode_utf8(name);
    assert(name[i] as u8 == encode_utf8(name)[i]);
    assert(!header_name_byte(encode_utf8(name)[i]));
}

/// A header value holding an ASCII control character other than a tab is
/// refused.
pub proof fn control_characters_make_header_values_invalid(value: Seq<char>, i: int)
    requires
        0 <= i < value.len(),
        is_ascii_chars(value),
        value[i] < ' ' && value[i] != '\t' || value[i] == '\u{7f}',
    ensures
        !header_value_accepted(value),
{
    is_ascii_chars_encode_utf8(value);
    assert(value[i] as u8 == encode_utf8(value)[i]);
}

/// The certificate of every identity added is served under its name in
/// lower case; the certificate of the last identity with that name is the
/// one served.
pub proof fn every_identity_is_served_under_its_name(ids: Seq<(Seq<char>, Seq<Seq<u8>>, Seq<u8>)>, i: int)
    requires
        0 <= i < ids.len(),
    ensures
        sni_map(ids).contains_key(ascii_lower(ids[i].0)),
        (forall|j: int| i < j < ids.len() ==> ascii_lower(#[trigger] ids[j].0) != ascii_lower(ids[i].0)) ==> sni_map(
            ids,
        )[ascii_lower(ids[i].0)] == (ids[i].1, ids[i].2),
    decreases ids.len(),
{
    if i < ids.len() - 1 {
        let rest = ids.drop_last();
        assert(rest[i] == ids[i]);
        every_identity_is_served_under_its_name(rest, i);
        if forall|j: int| i < j < ids.len() ==> ascii_lower(#[trigger] ids[j].0) != ascii_lower(ids[i].0) {
            assert(ascii_lower(ids[ids.len() - 1].0) != ascii_lower(ids[i].0));
            assert forall|j: int| i < j < rest.len() implies ascii_lower(#[trigger] rest[j].0) != ascii_lower(
                rest[i].0,
            ) by {
                assert(rest[j] == ids[j]);
                assert(ascii_lower(ids[j].0) != ascii_lower(ids[i].0));
            }
        }
    }
}

/// Only names of identities added are served.
pub proof fn only_added_names_are_served(ids: Seq<(Seq<char>, Seq<Seq<u8>>, Seq<u8>)>, name: Seq<char>)
    requires
        sni_map(ids).contains_key(name),
    ensures
        exists|i: int| 0 <= i < ids.len() && ascii_lower(#[trigger] ids[i].0) == name,
    decreases ids.len(),
{
    if ids.len() > 0 && ascii_lower(ids.last().0) != name {
        only_added_names_are_served(ids.drop_last(), name);
        let i = choose|i: int| 0 <= i < ids.drop_last().len() && ascii_lower(#[trigger] ids.drop_last()[i].0) == name;
        assert(ids.drop_last()[i] == ids[i]);
    } else if ids.len() > 0 {
        assert(ascii_lower(ids[ids.len() - 1].0) == name);
    }
}

/// Lower-casing keeps the length and changes exactly the ASCII capitals,
/// each into its small letter.
pub proof fn lower_casing_changes_capitals_only(s: Seq<char>, i: int)
    requires
        0 <= i < s.len(),
    ensures
        ascii_lower(s).len() == s.len(),
        ('A' <= s[i] <= 'Z') ==> (ascii_lower(s)[i] as u32) == (s[i] as u32) + 32,
        !('A' <= s[i] <= 'Z') ==> ascii_lower(s)[i] == s[i],
{
}

/// The protocols offered for a configuration made of two parts are those
/// of the first part, then those of the second: the configured order is
/// kept.
pub proof fn offered_protocols_keep_their_order(s1: Seq<Alpn>, s2: Seq<Alpn>, t: Transport)
    ensures
        offered_alpn(s1 + s2, t) == offered_alpn(s1, t) + offered_alpn(s2, t),
    decreases s2.len(),
{
    if s2.len() == 0 {
        assert(s1 + s2 =~= s1);
        assert(offered_alpn(s1, t) + offered_alpn(s2, t) =~= offered_alpn(s1, t));
    } else {
        assert((s1 + s2).drop_last() =~= s1 + s2.drop_last());
        assert((s1 + s2).last() == s2.last());
        offered_protocols_keep_their_order(s1, s2.drop_last(), t);
        if carried_over(s2.last(), t) {
            assert(offered_alpn(s1, t) + offered_alpn(s2, t) =~= (offered_alpn(s1, t) + offered_alpn(
                s2.drop_last(),
                t,
            )).push(alpn_id(s2.last())));
        }
    }
}

/// When a transport carries every configured protocol, all are offered, in
/// the configured order.
pub proof fn carried_protocols_are_all_offered(s: Seq<Alpn>, t: Transport)
    requires
        forall|i: int| 0 <= i < s.len() ==> carried_over(#[trigger] s[i], t),
    ensures
        offered_alpn(s, t) == s.map_values(|a: Alpn| alpn_id(a)),
    decreases s.len(),
{
    if s.len() > 0 {
        assert forall|i: int| 0 <= i < s.drop_last().len() implies carried_over(#[trigger] s.drop_last()[i], t) by {
            assert(s.drop_last()[i] == s[i]);
        }
        carried_protocols_are_all_offered(s.drop_last(), t);
        assert(carried_over(s[s.len() - 1], t));
        assert(s.map_values(|a: Alpn| alpn_id(a)) =~= s.drop_last().map_values(|a: Alpn| alpn_id(a)).push(
            alpn_id(s.last()),
        ));
    }
}

/// A protocol no transport carries is offered by none.
pub proof fn uncarried_protocols_are_not_offered(s: Seq<Alpn>, t: Transport)
    requires
        forall|i: int| 0 <= i < s.len() ==> !carried_over(#[trigger] s[i], t),
    ensures
        offered_alpn(s, t) == Seq::<Seq<u8>>::empty(),
    decreases s.len(),
{
    if s.len() > 0 {
        assert forall|i: int| 0 <= i < s.drop_last().len() implies !carried_over(#[trigger] s.drop_last()[i], t) by {
            assert(s.drop_last()[i] == s[i]);
        }
        uncarried_protocols_are_not_offered(s.drop_last(), t);
        assert(!carried_over(s[s.len() - 1], t));
    }
}

} // verus!
