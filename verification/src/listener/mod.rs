//! Listeners: one per transport, each with the table of hosts it serves.
pub mod table;
pub mod tcp;
pub mod udp;

use crate::host::path::RoutePath;
use crate::host::HostImpl;
use crate::listener::table::empty_entries;
use crate::listener::tcp::TcpListener;
use crate::listener::udp::UdpListener;
use crate::net::{alpn_id, Alpn, HttpVersion, ListenerSettings};
use crate::text::decimal;
use vstd::prelude::*;

verus! {

/// The key a host is served under by a listener on `port`: `hostname:port`.
pub open spec fn host_key(hostname: Seq<char>, port: u16) -> Seq<char> {
    hostname + seq![':'] + decimal(port as nat)
}

/// The transport a listener accepts connections on.
#[derive(Debug, PartialEq, Eq, Structural)]
pub enum Transport {
    /// TCP: HTTP/1.1 and HTTP/2, with or without TLS.
    Tcp,
    /// UDP: HTTP/3 over QUIC.
    Udp,
}

/// The transport that serves an HTTP version, if this server supports it.
pub open spec fn transport_for(v: HttpVersion) -> Option<Transport> {
    match v {
        HttpVersion::Http11 => Some(Transport::Tcp),
        HttpVersion::H2 => Some(Transport::Tcp),
        HttpVersion::H3 => Some(Transport::Udp),
        _ => None,
    }
}

/// The transports of the listeners built for `protos`, in order: one per
/// supported version.
pub open spec fn transports_for(protos: Seq<HttpVersion>) -> Seq<Transport>
    decreases protos.len(),
{
    if protos.len() == 0 {
        seq![]
    } else {
        let rest = transports_for(protos.drop_last());
        match transport_for(protos.last()) {
            Some(t) => rest.push(t),
            None => rest,
        }
    }
}

/// The ALPN protocols negotiated over a transport: QUIC carries HTTP/3 and
/// DNS over QUIC; TCP carries ACME, DNS over HTTPS and TLS, HTTP/1.1 and HTTP/2.
pub open spec fn carried_over(a: Alpn, t: Transport) -> bool {
    match t {
        Transport::Udp => a == Alpn::H3 || a == Alpn::Doq,
        Transport::Tcp => a == Alpn::AcmeTls1 || a == Alpn::Doh || a == Alpn::Dot || a
            == Alpn::Http11 || a == Alpn::H2 || a == Alpn::H2c,
    }
}

/// The identifiers offered over `t` for the configured protocols `s`, in order.
pub open spec fn offered_alpn(s: Seq<Alpn>, t: Transport) -> Seq<Seq<u8>>
    decreases s.len(),
{
    if s.len() == 0 {
        seq![]
    } else {
        let rest = offered_alpn(s.drop_last(), t);
        if carried_over(s.last(), t) {
            rest.push(alpn_id(s.last()))
        } else {
            rest
        }
    }
}

/// The ALPN identifiers a listener on transport `t` offers during TLS
/// negotiation: the configured protocols that `t` carries, in order.
pub fn offered_alpn_protocols(config: &ListenerSettings, t: Transport) -> (r: Vec<Vec<u8>>)
    ensures
        r.deep_view() == offered_alpn(config.alpn_protos@, t),
{
    let mut out: Vec<Vec<u8>> = Vec::new();
    let n = config.alpn_protos.len();
    for i in 0..n
        invariant
            n == config.alpn_protos@.len(),
            out.deep_view() == offered_alpn(config.alpn_protos@.take(i as int), t),
    {
        let a = config.alpn_protos[i];
        let ghost before = config.alpn_protos@.take(i as int);
        assert(config.alpn_protos@.take(i + 1).drop_last() =~= before);
        let carried = match t {
            Transport::Udp => match a {
                Alpn::H3 | Alpn::Doq => true,
                _ => false,
            },
            Transport::Tcp => match a {
                Alpn::AcmeTls1 | Alpn::Doh | Alpn::Dot | Alpn::Http11 | Alpn::H2 | Alpn::H2c => true,
                _ => false,
            },
        };
        assert(carried == carried_over(a, t));
        if carried {
            let id = a.id();
            let ghost old_view = out.deep_view();
            let ghost old_out = out@;
            assert(id.deep_view() =~= alpn_id(a));
            out.push(id);
            assert(out@ == old_out.push(id));
            assert(out.deep_view() =~= old_view.push(alpn_id(a))) by {
                assert forall|j: int| 0 <= j < old_out.len() implies out.deep_view()[j]
                    == old_view[j] by {
                    assert(out@[j] == old_out[j]);
                }
                assert(out.deep_view()[old_out.len() as int] == id.deep_view());
            }
        }
    }
    assert(config.alpn_protos@.take(n as int) =~= config.alpn_protos@);
    out
}

/// Server listener: one per transport.
pub enum Listener {
    /// TCP listener
    Tcp(TcpListener),
    /// UDP listener
    Udp(UdpListener),
}

impl Listener {
    /// The transport the listener accepts connections on.
    pub open spec fn transport(&self) -> Transport {
        match self {
            Listener::Tcp(_) => Transport::Tcp,
            Listener::Udp(_) => Transport::Udp,
        }
    }

    /// The listener's settings.
    pub open spec fn spec_config(&self) -> ListenerSettings {
        match self {
            Listener::Tcp(l) => l.spec_config(),
            Listener::Udp(l) => l.spec_config(),
        }
    }

    /// The hosts served: each `hostname:port` key and the index of its host.
    pub open spec fn entries(&self) -> Map<Seq<char>, usize> {
        match self {
            Listener::Tcp(l) => l.entries(),
            Listener::Udp(l) => l.entries(),
        }
    }

    /// The listener is accepting connections.
    pub open spec fn is_running(&self) -> bool {
        match self {
            Listener::Tcp(l) => l.is_running(),
            Listener::Udp(l) => l.is_running(),
        }
    }

    /// Serves `host` (known by the index `id`) under the key `hostname:port`.
    pub fn add_host<P: RoutePath>(&mut self, host: &HostImpl<P>, id: usize)
        ensures
            final(self).entries() == old(self).entries().insert(
                host_key(host.spec_config().hostname@, old(self).spec_config().port),
                id,
            ),
            final(self).entries().dom().finite(),
            final(self).entries().len() == if old(self).entries().contains_key(
                host_key(host.spec_config().hostname@, old(self).spec_config().port),
            ) {
                old(self).entries().len()
            } else {
                old(self).entries().len() + 1
            },
            final(self).spec_config() == old(self).spec_config(),
            final(self).transport() == old(self).transport(),
            final(self).is_running() == old(self).is_running(),
    {
        match self {
            Listener::Tcp(l) => l.add_host(host, id),
            Listener::Udp(l) => l.add_host(host, id),
        }
    }

    /// Stops serving the host stored under `hostname`.
    pub fn remove_host(&mut self, hostname: &str)
        ensures
            final(self).entries() == old(self).entries().remove(hostname@),
            final(self).entries().dom().finite(),
            final(self).spec_config() == old(self).spec_config(),
            final(self).transport() == old(self).transport(),
            final(self).is_running() == old(self).is_running(),
    {
        match self {
            Listener::Tcp(l) => l.remove_host(hostname),
            Listener::Udp(l) => l.remove_host(hostname),
        }
    }

    /// Whether the listener is accepting connections.
    pub fn is_listening(&self) -> (r: bool)
        ensures
            r == self.is_running(),
    {
        match self {
            Listener::Tcp(l) => l.is_listening(),
            Listener::Udp(l) => l.is_listening(),
        }
    }

    /// Return total hosts count
    pub fn total_hosts(&self) -> (n: usize)
        ensures
            n == self.entries().len(),
            self.entries().dom().finite(),
    {
        match self {
            Listener::Tcp(l) => l.total_hosts(),
            Listener::Udp(l) => l.total_hosts(),
        }
    }

    /// The listener's settings.
    pub fn config(&self) -> (c: &ListenerSettings)
        ensures
            *c == self.spec_config(),
    {
        match self {
            Listener::Tcp(l) => l.config(),
            Listener::Udp(l) => l.config(),
        }
    }

    /// Stops the listener: the tasks serving it are cancelled.
    pub fn stop(&mut self)
        ensures
            !final(self).is_running(),
            final(self).entries() == old(self).entries(),
            final(self).spec_config() == old(self).spec_config(),
            final(self).transport() == old(self).transport(),
    {
        match self {
            Listener::Tcp(l) => l.stop(),
            Listener::Udp(l) => l.stop(),
        }
    }
}

impl From<TcpListener> for Listener {
    fn from(value: TcpListener) -> (r: Self) {
        Listener::Tcp(value)
    }
}

impl vstd::std_specs::convert::FromSpecImpl<TcpListener> for Listener {
    open spec fn obeys_from_spec() -> bool {
        true
    }

    open spec fn from_spec(v: TcpListener) -> Self {
        Listener::Tcp(v)
    }
}

impl From<UdpListener> for Listener {
    fn from(value: UdpListener) -> (r: Self) {
        Listener::Udp(value)
    }
}

impl vstd::std_specs::convert::FromSpecImpl<UdpListener> for Listener {
    open spec fn obeys_from_spec() -> bool {
        true
    }

    open spec fn from_spec(v: UdpListener) -> Self {
        Listener::Udp(v)
    }
}

/// A freshly built listener for `config`: same settings, no host, not running.
pub open spec fn fresh_listener(l: Listener, config: ListenerSettings) -> bool {
    &&& l.spec_config().port == config.port
    &&& l.spec_config().protos@ == config.protos@
    &&& l.spec_config().interface == config.interface
    &&& l.spec_config().alpn_protos@ == config.alpn_protos@
    &&& l.spec_config().allow_unsafe_connections == config.allow_unsafe_connections
    &&& l.entries() == empty_entries()
    &&& !l.is_running()
}

/// Builds the listeners for `config`: one TCP listener for each HTTP/1.1 or
/// HTTP/2 entry of its versions and one UDP listener for each HTTP/3 entry,
/// in order; other versions get none.
pub fn build_listeners(config: ListenerSettings) -> (r: Vec<Listener>)
    ensures
        r@.len() == transports_for(config.protos@).len(),
        forall|i: int|
            0 <= i < r@.len() ==> #[trigger] r@[i].transport() == transports_for(config.protos@)[i]
                && fresh_listener(r@[i], config),
{
    let mut listeners: Vec<Listener> = Vec::new();
    let n = config.protos.len();
    for i in 0..n
        invariant
            n == config.protos@.len(),
            listeners@.len() == transports_for(config.protos@.take(i as int)).len(),
            forall|j: int|
                0 <= j < listeners@.len() ==> #[trigger] listeners@[j].transport()
                    == transports_for(config.protos@.take(i as int))[j] && fresh_listener(
                    listeners@[j],
                    config,
                ),
    {
        let v = config.protos[i];
        assert(config.protos@.take(i + 1).drop_last() =~= config.protos@.take(i as int));
        match v {
            HttpVersion::Http11 | HttpVersion::H2 => {
                listeners.push(Listener::Tcp(TcpListener::new(config.clone())));
            },
            HttpVersion::H3 => {
                listeners.push(Listener::Udp(UdpListener::new(config.clone())));
            },
            _ => {},
        }
    }
    assert(config.protos@.take(n as int) =~= config.protos@);
    listeners
}

} // verus!
