//! The server: its listeners, the hosts they serve, starting and stopping.
use crate::errors::ServerError;
use crate::host::path::RoutePath;
use crate::host::HostImpl;
use crate::listener::table::empty_entries;
use crate::listener::{host_key, Listener};
use crate::net::{IpAddress, ListenerSettings};
use std::sync::Arc;
use vetis::server::ServerConfig;
use vstd::prelude::*;
use vstd::string::*;

verus! {

#[verifier::external_type_specification]
#[verifier::external_body]
pub struct ExServerConfig(ServerConfig);

/// `vetis::server::ServerConfig::default`: a configuration with no host and no listener.
#[verifier::external_body]
fn default_server_config() -> ServerConfig {
    ServerConfig::default()
}

/// One of `binds` names the interface and port of the listener settings `config`.
pub open spec fn binds_to(config: ListenerSettings, binds: Seq<(IpAddress, u16)>) -> bool {
    exists|j: int| 0 <= j < binds.len() && #[trigger] binds[j].0 == config.interface && binds[j].1 == config.port
}

/// `after` is `before` once a host named `hostname`, bound to `binds`, was
/// registered with index `id`: a listener bound to one of the addresses
/// serves it under `hostname:port`; the others are untouched.
pub open spec fn registered(before: Listener, after: Listener, hostname: Seq<char>, binds: Seq<(IpAddress, u16)>, id: usize) -> bool {
    &&& after.spec_config() == before.spec_config()
    &&& after.transport() == before.transport()
    &&& after.is_running() == before.is_running()
    &&& after.entries() == if binds_to(before.spec_config(), binds) {
        before.entries().insert(host_key(hostname, before.spec_config().port), id)
    } else {
        before.entries()
    }
}

/// None of `listeners` serves a host.
pub open spec fn serves_no_host(listeners: Seq<Listener>) -> bool {
    forall|i: int| 0 <= i < listeners.len() ==> #[trigger] listeners[i].entries() == empty_entries()
}

/// None of `listeners` accepts connections.
pub open spec fn none_running(listeners: Seq<Listener>) -> bool {
    forall|i: int| 0 <= i < listeners.len() ==> !(#[trigger] listeners[i]).is_running()
}

/// Whether one of `binds` names the interface and port of `config`.
fn serves_bind(config: &ListenerSettings, binds: &Vec<(IpAddress, u16)>) -> (r: bool)
    ensures
        r == binds_to(*config, binds@),
{
    let n = binds.len();
    for j in 0..n
        invariant
            n == binds@.len(),
            forall|k: int| 0 <= k < j ==> !(#[trigger] binds@[k].0 == config.interface && binds@[k].1 == config.port),
    {
        if binds[j].0 == config.interface && binds[j].1 == config.port {
            return true;
        }
    }
    false
}

/// The listeners of `listeners` once `host`, known by the index `id`, was
/// registered with them: each listener bound to one of the host's addresses
/// serves it under `hostname:port`; the others are untouched.
fn register_host<P: RoutePath>(listeners: Vec<Listener>, host: &HostImpl<P>, id: usize) -> (r: Vec<Listener>)
    ensures
        r@.len() == listeners@.len(),
        forall|i: int|
            0 <= i < listeners@.len() ==> registered(
                #[trigger] listeners@[i],
                r@[i],
                host.spec_config().hostname@,
                host.spec_config().bind_addresses@,
                id,
            ),
{
    let mut pending = listeners;
    let ghost before = pending@;
    let mut done: Vec<Listener> = Vec::new();
    let n = pending.len();
    while pending.len() > 0
        invariant
            n == before.len(),
            done@.len() + pending@.len() == n,
            pending@ == before.skip(done@.len() as int),
            forall|i: int|
                0 <= i < done@.len() ==> registered(
                    #[trigger] before[i],
                    done@[i],
                    host.spec_config().hostname@,
                    host.spec_config().bind_addresses@,
                    id,
                ),
        decreases pending.len(),
    {
        let mut l = pending.remove(0);
        if serves_bind(l.config(), &host.config().bind_addresses) {
            l.add_host(host, id);
        }
        done.push(l);
        assert(pending@ =~= before.skip(done@.len() as int));
    }
    done
}

/// `std::sync::Arc::try_unwrap`: the value when no other handle on it
/// exists, the handle itself otherwise.
#[verifier::external_body]
fn arc_try_unwrap<T>(a: Arc<T>) -> (r: Result<T, Arc<T>>)
    ensures
        r matches Ok(v) ==> v == *a,
        r matches Err(b) ==> b == a,
{
    Arc::try_unwrap(a)
}

/// Builder for a vetis instance
pub struct VetisBuilder<P: RoutePath> {
    listeners: Vec<Listener>,
    hosts: Vec<HostImpl<P>>,
}

impl<P: RoutePath> VetisBuilder<P> {
    /// The listeners added so far.
    pub closed spec fn spec_listeners(&self) -> Seq<Listener> {
        self.listeners@
    }

    /// The hosts added so far; a host's index is its position.
    pub closed spec fn spec_hosts(&self) -> Seq<HostImpl<P>> {
        self.hosts@
    }

    /// Adds listeners to the server.
    pub fn add_listeners(self, listeners: Vec<Listener>) -> (r: Result<Self, ServerError>)
        ensures
            r matches Ok(b) && b.spec_listeners() == self.spec_listeners() + listeners@ && b.spec_hosts()
                == self.spec_hosts(),
    {
        let VetisBuilder { listeners: mut current, hosts } = self;
        let mut more = listeners;
        current.append(&mut more);
        Ok(VetisBuilder { listeners: current, hosts })
    }

    /// Adds a host to the server: every listener bound to one of the host's
    /// bind addresses serves it under `hostname:port`. Fails when no
    /// listener was added.
    pub fn add_host(self, host: HostImpl<P>) -> (r: Result<Self, ServerError>)
        ensures
            r is Err <==> self.spec_listeners().len() == 0,
            r matches Err(e) ==> e == ServerError::NoListeners,
            r matches Ok(b) ==> b.spec_hosts() == self.spec_hosts().push(host),
            r matches Ok(b) ==> b.spec_listeners().len() == self.spec_listeners().len(),
            r matches Ok(b) ==> forall|i: int|
                0 <= i < self.spec_listeners().len() ==> registered(
                    #[trigger] self.spec_listeners()[i],
                    b.spec_listeners()[i],
                    host.spec_config().hostname@,
                    host.spec_config().bind_addresses@,
                    self.spec_hosts().len() as usize,
                ),
    {
        if self.listeners.len() == 0 {
            return Err(ServerError::NoListeners);
        }
        let VetisBuilder { listeners, mut hosts } = self;
        let id = hosts.len();
        let done = register_host(listeners, &host, id);
        hosts.push(host);
        Ok(VetisBuilder { listeners: done, hosts })
    }

    /// Build a new vetis instance
    pub fn build(self) -> (v: Vetis<P>)
        ensures
            v.spec_listeners() == self.spec_listeners(),
            v.spec_hosts() == self.spec_hosts(),
    {
        Vetis { config: default_server_config(), listeners: self.listeners, hosts: Arc::new(self.hosts) }
    }
}

/// Main server instance that manages hosts and listeners.
pub struct Vetis<P: RoutePath> {
    config: ServerConfig,
    listeners: Vec<Listener>,
    hosts: Arc<Vec<HostImpl<P>>>,
}

impl<P: RoutePath> Vetis<P> {
    /// The server configuration.
    pub closed spec fn spec_config(&self) -> ServerConfig {
        self.config
    }

    /// The listeners of the server.
    pub closed spec fn spec_listeners(&self) -> Seq<Listener> {
        self.listeners@
    }

    /// The hosts of the server; a host's index is its position.
    pub closed spec fn spec_hosts(&self) -> Seq<HostImpl<P>> {
        self.hosts@
    }

    /// Creates a new `Vetis` server instance with the given configuration.
    pub fn new(config: ServerConfig) -> (v: Vetis<P>)
        ensures
            v.spec_config() == config,
            v.spec_listeners() == Seq::<Listener>::empty(),
            v.spec_hosts() == Seq::<HostImpl<P>>::empty(),
    {
        Vetis { config, listeners: Vec::new(), hosts: Arc::new(Vec::new()) }
    }

    /// Create a new vetis instance builder
    pub fn builder() -> (b: VetisBuilder<P>)
        ensures
            b.spec_listeners() == Seq::<Listener>::empty(),
            b.spec_hosts() == Seq::<HostImpl<P>>::empty(),
    {
        VetisBuilder { listeners: Vec::new(), hosts: Vec::new() }
    }

    /// A server with the default configuration that runs `value`.
    pub fn from(value: Vec<Listener>) -> (v: Vetis<P>)
        ensures
            v.spec_listeners() == value@,
            v.spec_hosts() == Seq::<HostImpl<P>>::empty(),
    {
        Vetis { config: default_server_config(), listeners: value, hosts: Arc::new(Vec::new()) }
    }

    /// Returns a reference to the server configuration.
    pub fn config(&self) -> (c: &ServerConfig)
        ensures
            *c == self.spec_config(),
    {
        &self.config
    }

    /// Returns a mutable reference to the server configuration.
    pub fn config_mut(&mut self) -> (c: &mut ServerConfig)
        ensures
            *c == old(self).spec_config(),
            final(self).spec_config() == *final(c),
            final(self).spec_listeners() == old(self).spec_listeners(),
            final(self).spec_hosts() == old(self).spec_hosts(),
    {
        &mut self.config
    }

    /// Reloads the server configuration: the server takes `new_config` as
    /// its configuration; its listeners and hosts are kept.
    pub fn reload(&mut self, new_config: ServerConfig) -> (r: Result<(), ServerError>)
        ensures
            r is Ok,
            final(self).spec_config() == new_config,
            final(self).spec_listeners() == old(self).spec_listeners(),
            final(self).spec_hosts() == old(self).spec_hosts(),
    {
        self.config = new_config;
        Ok(())
    }

    /// The hosts of the server, shared with the tasks that serve connections.
    pub fn hosts(&self) -> (h: Arc<Vec<HostImpl<P>>>)
        ensures
            h@ == self.spec_hosts(),
    {
        self.hosts.clone()
    }

    /// The listeners, for starting them.
    pub fn listeners_mut(&mut self) -> (l: &mut Vec<Listener>)
        ensures
            l@ == old(self).spec_listeners(),
            final(self).spec_listeners() == final(l)@,
            final(self).spec_config() == old(self).spec_config(),
            final(self).spec_hosts() == old(self).spec_hosts(),
    {
        &mut self.listeners
    }

    /// Adds a host to the server: every listener bound to one of the host's
    /// bind addresses serves it under `hostname:port`. Fails when the server
    /// has no listener, or while its hosts are shared with the tasks of a
    /// started server; the server is then left as it is.
    pub fn add_host(&mut self, host: HostImpl<P>) -> (r: Result<(), ServerError>)
        ensures
            old(self).spec_listeners().len() == 0 ==> r == Err::<(), ServerError>(ServerError::NoListeners),
            r matches Err(e) ==> (e == ServerError::NoListeners || e == ServerError::HostsInUse),
            r is Err ==> final(self).spec_listeners() == old(self).spec_listeners() && final(self).spec_hosts()
                == old(self).spec_hosts(),
            r is Ok ==> final(self).spec_hosts() == old(self).spec_hosts().push(host),
            final(self).spec_listeners().len() == old(self).spec_listeners().len(),
            r is Ok ==> forall|i: int|
                0 <= i < old(self).spec_listeners().len() ==> registered(
                    #[trigger] old(self).spec_listeners()[i],
                    final(self).spec_listeners()[i],
                    host.spec_config().hostname@,
                    host.spec_config().bind_addresses@,
                    old(self).spec_hosts().len() as usize,
                ),
            final(self).spec_config() == old(self).spec_config(),
    {
        if self.listeners.len() == 0 {
            return Err(ServerError::NoListeners);
        }
        let mut shared = Arc::new(Vec::new());
        std::mem::swap(&mut shared, &mut self.hosts);
        match arc_try_unwrap(shared) {
            Ok(mut hosts) => {
                let id = hosts.len();
                let mut listeners: Vec<Listener> = Vec::new();
                std::mem::swap(&mut listeners, &mut self.listeners);
                self.listeners = register_host(listeners, &host, id);
                hosts.push(host);
                self.hosts = Arc::new(hosts);
                Ok(())
            },
            Err(shared) => {
                self.hosts = shared;
                Err(ServerError::HostsInUse)
            },
        }
    }

    /// Stops serving the host stored under `hostname` on every listener.
    pub fn remove_host(&mut self, hostname: &str)
        ensures
            final(self).spec_listeners().len() == old(self).spec_listeners().len(),
            forall|i: int|
                0 <= i < old(self).spec_listeners().len() ==> (#[trigger] final(self).spec_listeners()[i]).entries()
                    == old(self).spec_listeners()[i].entries().remove(hostname@)
                    && final(self).spec_listeners()[i].spec_config() == old(self).spec_listeners()[i].spec_config()
                    && final(self).spec_listeners()[i].transport() == old(self).spec_listeners()[i].transport()
                    && final(self).spec_listeners()[i].is_running() == old(self).spec_listeners()[i].is_running(),
            final(self).spec_hosts() == old(self).spec_hosts(),
            final(self).spec_config() == old(self).spec_config(),
    {
        let mut pending: Vec<Listener> = Vec::new();
        std::mem::swap(&mut pending, &mut self.listeners);
        let ghost before = pending@;
        let n = pending.len();
        let mut done: Vec<Listener> = Vec::new();
        while pending.len() > 0
            invariant
                n == before.len(),
                done@.len() + pending@.len() == n,
                pending@ == before.skip(done@.len() as int),
                forall|i: int|
                    0 <= i < done@.len() ==> (#[trigger] done@[i]).entries() == before[i].entries().remove(hostname@)
                        && done@[i].spec_config() == before[i].spec_config() && done@[i].transport()
                        == before[i].transport() && done@[i].is_running() == before[i].is_running(),
            decreases pending.len(),
        {
            let mut l = pending.remove(0);
            l.remove_host(hostname);
            done.push(l);
            assert(pending@ =~= before.skip(done@.len() as int));
        }
        self.listeners = done;
    }

    /// Checks that the server can start: it needs a listener, and a host
    /// that one of its listeners serves.
    pub fn check_start(&self) -> (r: Result<(), ServerError>)
        ensures
            r is Err <==> (self.spec_listeners().len() == 0 || serves_no_host(self.spec_listeners())),
            r matches Err(e) ==> e == (if self.spec_listeners().len() == 0 {
                ServerError::NoListeners
            } else {
                ServerError::NoHosts
            }),
    {
        if self.listeners.len() == 0 {
            return Err(ServerError::NoListeners);
        }
        let n = self.listeners.len();
        for i in 0..n
            invariant
                n == self.listeners@.len(),
                forall|j: int| 0 <= j < i ==> #[trigger] self.listeners@[j].entries() == empty_entries(),
        {
            let count = self.listeners[i].total_hosts();
            if count > 0 {
                assert(!serves_no_host(self.spec_listeners())) by {
                    let l = self.listeners@[i as int];
                    if l.entries() == empty_entries() {
                        assert(l.entries().dom() =~= Set::<Seq<char>>::empty());
                    }
                }
                return Ok(());
            }
            proof {
                let l = self.listeners@[i as int];
                l.entries().dom().lemma_len0_is_empty();
                assert(l.entries() =~= empty_entries());
            }
        }
        Err(ServerError::NoHosts)
    }

    /// Stops the server gracefully: every listener stops. A server none of
    /// whose listeners accepts connections is not running and cannot be
    /// stopped; it is left as it is.
    pub fn stop(&mut self) -> (r: Result<(), ServerError>)
        ensures
            r is Err <==> none_running(old(self).spec_listeners()),
            r matches Err(e) ==> e matches ServerError::Stop(m) && m@ == "Vetis is not running"@,
            r is Err ==> final(self).spec_listeners() == old(self).spec_listeners(),
            final(self).spec_listeners().len() == old(self).spec_listeners().len(),
            r is Ok ==> forall|i: int|
                0 <= i < final(self).spec_listeners().len() ==> !(#[trigger] final(self).spec_listeners()[i]).is_running()
                    && final(self).spec_listeners()[i].entries() == old(self).spec_listeners()[i].entries()
                    && final(self).spec_listeners()[i].spec_config() == old(self).spec_listeners()[i].spec_config(),
            final(self).spec_hosts() == old(self).spec_hosts(),
            final(self).spec_config() == old(self).spec_config(),
    {
        let n = self.listeners.len();
        let mut running = false;
        for i in 0..n
            invariant
                n == self.listeners@.len(),
                !running ==> forall|j: int| 0 <= j < i ==> !(#[trigger] self.listeners@[j]).is_running(),
                running ==> !none_running(self.listeners@),
        {
            if self.listeners[i].is_listening() {
                running = true;
            }
        }
        if !running {
            return Err(ServerError::Stop(String::from_str("Vetis is not running")));
        }
        let mut pending: Vec<Listener> = Vec::new();
        std::mem::swap(&mut pending, &mut self.listeners);
        let ghost before = pending@;
        let mut done: Vec<Listener> = Vec::new();
        while pending.len() > 0
            invariant
                n == before.len(),
                done@.len() + pending@.len() == n,
                pending@ == before.skip(done@.len() as int),
                forall|i: int|
                    0 <= i < done@.len() ==> !(#[trigger] done@[i]).is_running() && done@[i].entries()
                        == before[i].entries() && done@[i].spec_config() == before[i].spec_config(),
            decreases pending.len(),
        {
            let mut l = pending.remove(0);
            l.stop();
            done.push(l);
            assert(pending@ =~= before.skip(done@.len() as int));
        }
        self.listeners = done;
        Ok(())
    }
}

impl<P: RoutePath> Default for Vetis<P> {
    fn default() -> (v: Self)
        ensures
            v.spec_listeners() == Seq::<Listener>::empty(),
            v.spec_hosts() == Seq::<HostImpl<P>>::empty(),
    {
        Vetis { config: default_server_config(), listeners: Vec::new(), hosts: Arc::new(Vec::new()) }
    }
}

} // verus!
