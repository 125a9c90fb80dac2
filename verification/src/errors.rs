//! Errors reported by the server runtime.
use vstd::prelude::*;

verus! {

/// What went wrong while configuring, starting or stopping the server.
#[derive(Debug, PartialEq, Eq)]
pub enum ServerError {
    /// No listener was configured.
    NoListeners,
    /// No listener serves a host.
    NoHosts,
    /// The hosts are shared with the tasks of a started server.
    HostsInUse,
    /// The server could not be stopped.
    Stop(String),
    /// A socket could not be bound.
    Bind(String),
    /// A listener could not bind its socket.
    ListenerBind(String),
    /// A certificate, key or name was refused while building the TLS setup.
    Tls(String),
    /// The TLS configuration could not be initialised.
    StartTls(String),
    /// A connection worker failed.
    Worker(String),
    /// A handler path has an unusable URI.
    Uri(String),
    /// A handler path has no handler.
    Handler(String),
    /// A host interface call received an unusable value.
    Interface(String),
}

} // verus!
