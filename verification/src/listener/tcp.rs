//! TCP listener bookkeeping (HTTP/1.1 and HTTP/2).
use crate::host::path::RoutePath;
use crate::host::HostImpl;
use crate::listener::table::{host_entries, table_get, table_insert, table_len, table_new, table_remove, share, HostTable, SharedHosts, empty_entries};
use crate::errors::ServerError;
use crate::listener::{host_key, offered_alpn, offered_alpn_protocols, Transport};
use crate::tls::{all_accepted, configured, reports_first_refusal, served_identities, TlsFactory, TlsPlan};
use crate::net::ListenerSettings;
use crate::runtime::{cancel_token, child_token};
use crate::worker::tcp::TcpWorker;
use tokio_rustls::TlsAcceptor;
use crate::text::push_decimal;
use tokio_util::sync::CancellationToken;
use vstd::prelude::*;
use vstd::string::*;

verus! {

/// TCP listener
pub struct TcpListener {
    config: ListenerSettings,
    hosts: HostTable,
    token: Option<CancellationToken>,
    inner: Option<tokio::net::TcpSocket>,
}

impl TcpListener {
    /// The listener's settings.
    pub closed spec fn spec_config(&self) -> ListenerSettings {
        self.config
    }

    /// The hosts served: each `hostname:port` key and the index of its host.
    pub closed spec fn entries(&self) -> Map<Seq<char>, usize> {
        host_entries(self.hosts)
    }

    /// The listener serves finitely many hosts.
    #[verifier::type_invariant]
    closed spec fn entries_finite(&self) -> bool {
        host_entries(self.hosts).dom().finite()
    }

    /// The listener is accepting connections.
    pub closed spec fn is_running(&self) -> bool {
        self.token is Some
    }

    /// A socket was bound ahead of listening.
    pub closed spec fn has_socket(&self) -> bool {
        self.inner is Some
    }

    /// Creates a listener that serves no host yet.
    pub fn new(config: ListenerSettings) -> (l: Self)
        ensures
            l.spec_config() == config,
            l.entries() == empty_entries(),
            !l.is_running(),
            !l.has_socket(),
    {
        TcpListener { config, hosts: table_new(), token: None, inner: None }
    }

    /// Serves `host` (known by the index `id`) under the key `hostname:port`.
    pub fn add_host<P: RoutePath>(&mut self, host: &HostImpl<P>, id: usize)
        ensures
            final(self).entries() == old(self).entries().insert(
                host_key(host.spec_config().hostname@, old(self).spec_config().port),
                id,
            ),
            final(self).entries().dom().finite(),
            final(self).entries().len() == if old(self).entries().contains_key(
                host_key(host.spec_config().hostname@, old(self).spec_config().port),
            ) {
                old(self).entries().len()
            } else {
                old(self).entries().len() + 1
            },
            final(self).spec_config() == old(self).spec_config(),
            final(self).is_running() == old(self).is_running(),
            final(self).has_socket() == old(self).has_socket(),
    {
        proof {
            use_type_invariant(&*self);
        }
        let mut key = String::from_str(host.config().hostname.as_str());
        key.append(":");
        push_decimal(&mut key, self.config.port);
        proof {
            reveal_strlit(":");
        }
        assert(key@ =~= host_key(host.spec_config().hostname@, self.config.port));
        table_insert(&mut self.hosts, key, id);
    }

    /// Stops serving the host stored under `hostname`.
    pub fn remove_host(&mut self, hostname: &str)
        ensures
            final(self).entries() == old(self).entries().remove(hostname@),
            final(self).entries().dom().finite(),
            final(self).spec_config() == old(self).spec_config(),
            final(self).is_running() == old(self).is_running(),
            final(self).has_socket() == old(self).has_socket(),
    {
        proof {
            use_type_invariant(&*self);
        }
        table_remove(&mut self.hosts, hostname);
    }

    /// Whether the listener is accepting connections.
    pub fn is_listening(&self) -> (r: bool)
        ensures
            r == self.is_running(),
    {
        self.token.is_some()
    }

    /// The number of hosts served.
    pub fn total_hosts(&self) -> (n: usize)
        ensures
            n == self.entries().len(),
            self.entries().dom().finite(),
    {
        proof {
            use_type_invariant(&*self);
        }
        table_len(&self.hosts)
    }

    /// The index of the host served under `key`, if any.
    pub fn host_for(&self, key: &str) -> (r: Option<usize>)
        ensures
            r is Some <==> self.entries().contains_key(key@),
            r matches Some(i) ==> self.entries()[key@] == i,
    {
        table_get(&self.hosts, key)
    }

    /// The listener's settings.
    pub fn config(&self) -> (c: &ListenerSettings)
        ensures
            *c == self.spec_config(),
    {
        &self.config
    }

    /// A handle on the host table, for the tasks that serve connections.
    pub fn hosts_handle(&self) -> (h: SharedHosts)
        ensures
            h.entries() == self.entries(),
    {
        share(&self.hosts)
    }

    /// The port is left for the operating system to choose: a socket must be
    /// bound ahead of listening to learn it.
    pub fn needs_port_reservation(&self) -> (r: bool)
        ensures
            r == (self.spec_config().port == 0),
    {
        self.config.port == 0
    }

    /// Keeps a socket bound ahead of listening, on the port the system chose.
    pub fn assign_reserved_port(&mut self, socket: tokio::net::TcpSocket, port: u16)
        ensures
            final(self).spec_config().port == port,
            final(self).spec_config().protos == old(self).spec_config().protos,
            final(self).spec_config().interface == old(self).spec_config().interface,
            final(self).spec_config().alpn_protos == old(self).spec_config().alpn_protos,
            final(self).spec_config().allow_unsafe_connections == old(
                self,
            ).spec_config().allow_unsafe_connections,
            final(self).entries() == old(self).entries(),
            final(self).is_running() == old(self).is_running(),
            final(self).has_socket(),
    {
        proof {
            use_type_invariant(&*self);
        }
        self.config.port = port;
        self.inner = Some(socket);
    }

    /// Takes the socket bound ahead of listening, if any.
    pub fn take_socket(&mut self) -> (s: Option<tokio::net::TcpSocket>)
        ensures
            s is Some == old(self).has_socket(),
            !final(self).has_socket(),
            final(self).spec_config() == old(self).spec_config(),
            final(self).entries() == old(self).entries(),
            final(self).is_running() == old(self).is_running(),
    {
        proof {
            use_type_invariant(&*self);
        }
        let mut s = None;
        std::mem::swap(&mut s, &mut self.inner);
        s
    }

    /// Records that the listener accepts connections until `token` is cancelled.
    pub fn mark_listening(&mut self, token: CancellationToken)
        ensures
            final(self).is_running(),
            final(self).spec_config() == old(self).spec_config(),
            final(self).entries() == old(self).entries(),
            final(self).has_socket() == old(self).has_socket(),
    {
        proof {
            use_type_invariant(&*self);
        }
        self.token = Some(token);
    }

    /// The TLS plan of the listener: the TLS identities of the hosts of
    /// `hosts` it serves, for their host names, with the ALPN protocols TCP
    /// carries and no early-data limit.
    pub fn tls_plan<P: RoutePath>(&self, hosts: &Vec<HostImpl<P>>) -> (p: TlsPlan)
        ensures
            p.identities_view() == served_identities(self.entries(), self.spec_config().port, hosts@, hosts@.len() as int),
            p.alpn_protocols.deep_view() == offered_alpn(self.spec_config().alpn_protos@, Transport::Tcp),
            p.max_early_data_size == u32::MAX,
    {
        let alpn = offered_alpn_protocols(&self.config, Transport::Tcp);
        TlsFactory::plan(&self.hosts, self.config.port, hosts, alpn)
    }

    /// The TLS configuration of the listener: the configuration of its TLS
    /// plan. It fails on the first served identity `rustls` refuses.
    pub fn tls_config<P: RoutePath>(&self, hosts: &Vec<HostImpl<P>>) -> (r: Result<Option<rustls::ServerConfig>, ServerError>)
        ensures
            r is Ok <==> all_accepted(served_identities(self.entries(), self.spec_config().port, hosts@, hosts@.len() as int)),
            r matches Ok(c) ==> c is Some,
            r matches Ok(Some(c)) ==> configured(
                c,
                served_identities(self.entries(), self.spec_config().port, hosts@, hosts@.len() as int),
                offered_alpn(self.spec_config().alpn_protos@, Transport::Tcp),
                u32::MAX,
            ),
            r matches Err(e) ==> reports_first_refusal(
                served_identities(self.entries(), self.spec_config().port, hosts@, hosts@.len() as int),
                e,
            ),
    {
        match TlsFactory::build(self.tls_plan(hosts)) {
            Ok(c) => Ok(Some(c)),
            Err(e) => Err(e),
        }
    }

    /// Stops the listener: the tasks serving it are cancelled.
    pub fn stop(&mut self)
        ensures
            !final(self).is_running(),
            final(self).spec_config() == old(self).spec_config(),
            final(self).entries() == old(self).entries(),
            final(self).has_socket() == old(self).has_socket(),
    {
        proof {
            use_type_invariant(&*self);
        }
        let mut token = None;
        std::mem::swap(&mut token, &mut self.token);
        if let Some(token) = token {
            cancel_token(&token);
        }
    }
}

/// Hands the connections a TCP listener accepts to workers.
pub struct ConnectionDispatcher {
    hosts: SharedHosts,
    config: ListenerSettings,
    token: CancellationToken,
}

impl ConnectionDispatcher {
    /// The settings of the listener.
    pub closed spec fn spec_config(&self) -> ListenerSettings {
        self.config
    }

    /// The handle on the listener's host table.
    pub closed spec fn spec_hosts(&self) -> SharedHosts {
        self.hosts
    }

    /// The token whose cancellation stops the dispatcher and its workers.
    pub closed spec fn spec_token(&self) -> CancellationToken {
        self.token
    }

    /// Creates a dispatcher for the hosts of a listener with settings `config`.
    pub fn new(hosts: SharedHosts, config: ListenerSettings, token: CancellationToken) -> (d: Self)
        ensures
            d.spec_hosts() == hosts,
            d.spec_config() == config,
            d.spec_token() == token,
    {
        ConnectionDispatcher { hosts, config, token }
    }

    /// The settings of the listener.
    pub fn config(&self) -> (c: &ListenerSettings)
        ensures
            *c == self.spec_config(),
    {
        &self.config
    }

    /// The token whose cancellation stops the dispatcher and its workers.
    pub fn token(&self) -> (t: &CancellationToken)
        ensures
            *t == self.spec_token(),
    {
        &self.token
    }

    /// The worker for a connection just accepted: it accepts TLS with
    /// `acceptor`, serves plain HTTP exactly when the listener allows unsafe
    /// connections, and routes to the listener's hosts.
    pub fn worker(&self, acceptor: TlsAcceptor) -> (w: TcpWorker)
        ensures
            w.allows_plain() == self.spec_config().allow_unsafe_connections,
            w.spec_acceptor() == acceptor,
            w.spec_hosts() == self.spec_hosts(),
    {
        TcpWorker::new(acceptor, self.hosts.clone(), self.config.allow_unsafe_connections, child_token(&self.token))
    }
}

} // verus!
