//! Decisions taken for each TCP connection: TLS or plain, and which HTTP
//! version serves it.
use crate::errors::ServerError;
use crate::listener::table::SharedHosts;
use crate::net::{alpn_id, Alpn};
use std::borrow::Cow;
use tokio_rustls::TlsAcceptor;
use tokio_util::sync::CancellationToken;
use vstd::prelude::*;
use vstd::string::*;
use vstd::utf8::valid_utf8;

verus! {

#[verifier::external_type_specification]
#[verifier::external_body]
pub struct ExTlsAcceptor(TlsAcceptor);

/// `String::from_utf8_lossy` borrows its input exactly when the bytes are valid UTF-8.
#[verifier::external_body]
fn lossless_utf8(bytes: &[u8]) -> (r: bool)
    ensures
        r == valid_utf8(bytes@),
{
    match String::from_utf8_lossy(bytes) {
        Cow::Borrowed(_) => true,
        Cow::Owned(_) => false,
    }
}

/// Whether two byte strings are equal.
pub fn same_bytes(a: &[u8], b: &[u8]) -> (r: bool)
    ensures
        r == (a@ == b@),
{
    if a.len() != b.len() {
        return false;
    }
    let n = a.len();
    for i in 0..n
        invariant
            n == a@.len(),
            n == b@.len(),
            forall|j: int| 0 <= j < i ==> a@[j] == b@[j],
    {
        if a[i] != b[i] {
            return false;
        }
    }
    assert(a@ =~= b@);
    true
}

/// How an accepted TCP connection is handled.
#[derive(Debug, PartialEq, Eq, Structural)]
pub enum ConnectionPlan {
    /// The client starts a TLS handshake.
    Tls,
    /// The client speaks plain HTTP and such connections are allowed.
    Plain,
    /// The client speaks plain HTTP and such connections are refused: the connection is closed.
    Close,
}

/// The first two bytes of a TLS record carrying a handshake (content type 22, version 3.x).
pub open spec fn starts_tls_handshake(peeked: [u8; 2]) -> bool {
    peeked@[0] == 0x16 && peeked@[1] == 0x03
}

/// The HTTP service a connection is served with.
#[derive(Debug, PartialEq, Eq, Structural)]
pub enum ServeProtocol {
    /// HTTP/1.1 only.
    Http1,
    /// HTTP/2 only.
    Http2,
    /// HTTP/1.1 or HTTP/2, whichever the client speaks.
    Auto,
    /// A protocol this server does not serve; the connection is dropped.
    Unsupported,
}

/// The service for a negotiated ALPN protocol (`None`: none was negotiated).
pub open spec fn protocol_for(alpn: Option<Seq<u8>>) -> ServeProtocol {
    match alpn {
        None => ServeProtocol::Auto,
        Some(code) => if code == alpn_id(Alpn::Http11) {
            ServeProtocol::Http1
        } else if code == alpn_id(Alpn::H2) {
            ServeProtocol::Http2
        } else {
            ServeProtocol::Unsupported
        },
    }
}

/// Serves one TCP connection.
pub struct TcpWorker {
    acceptor: TlsAcceptor,
    hosts: SharedHosts,
    allow_plain_connections: bool,
    token: CancellationToken,
}

impl TcpWorker {
    /// Plain (non-TLS) connections are served.
    pub closed spec fn allows_plain(&self) -> bool {
        self.allow_plain_connections
    }

    /// The handle on the hosts the worker routes to.
    pub closed spec fn spec_hosts(&self) -> SharedHosts {
        self.hosts
    }

    /// The TLS acceptor for the connection.
    pub closed spec fn spec_acceptor(&self) -> TlsAcceptor {
        self.acceptor
    }

    /// The token whose cancellation stops the worker.
    pub closed spec fn spec_token(&self) -> CancellationToken {
        self.token
    }

    /// Creates a worker.
    pub fn new(acceptor: TlsAcceptor, hosts: SharedHosts, allow_plain_connections: bool, token: CancellationToken) -> (w: Self)
        ensures
            w.allows_plain() == allow_plain_connections,
            w.spec_hosts() == hosts,
            w.spec_acceptor() == acceptor,
            w.spec_token() == token,
    {
        TcpWorker { acceptor, hosts, allow_plain_connections, token }
    }

    /// Decides from the first two bytes the client sent: a TLS handshake is
    /// accepted over TLS; anything else is served as plain HTTP when allowed
    /// and closed otherwise.
    pub fn connection_plan(&self, peeked: [u8; 2]) -> (r: ConnectionPlan)
        ensures
            r == (if starts_tls_handshake(peeked) {
                ConnectionPlan::Tls
            } else if self.allows_plain() {
                ConnectionPlan::Plain
            } else {
                ConnectionPlan::Close
            }),
    {
        if peeked[0] == 0x16 && peeked[1] == 0x03 {
            ConnectionPlan::Tls
        } else if self.allow_plain_connections {
            ConnectionPlan::Plain
        } else {
            ConnectionPlan::Close
        }
    }

    /// The TLS acceptor for the connection.
    pub fn acceptor(&self) -> (a: &TlsAcceptor)
        ensures
            *a == self.spec_acceptor(),
    {
        &self.acceptor
    }

    /// A handle on the host table.
    pub fn hosts_handle(&self) -> (h: SharedHosts)
        ensures
            h == self.spec_hosts(),
    {
        self.hosts.clone()
    }

    /// The token whose cancellation stops the worker.
    pub fn token(&self) -> (t: &CancellationToken)
        ensures
            *t == self.spec_token(),
    {
        &self.token
    }
}

/// Chooses the service for the ALPN protocol negotiated during the TLS
/// handshake: `http/1.1` and `h2` get their own, no negotiation gets
/// automatic detection, other protocols are not served; a protocol name
/// that is not valid UTF-8 is an error.
pub fn protocol_for_alpn(alpn: Option<&[u8]>) -> (r: Result<ServeProtocol, ServerError>)
    ensures
        r is Err <==> (alpn matches Some(code) && !valid_utf8(code@)),
        r matches Err(e) ==> e matches ServerError::Worker(m) && m@ == "Cannot accept connection"@,
        r matches Ok(p) ==> p == protocol_for(match alpn {
            Some(code) => Some(code@),
            None => None,
        }),
{
    match alpn {
        None => Ok(ServeProtocol::Auto),
        Some(code) => {
            if !lossless_utf8(code) {
                return Err(ServerError::Worker(String::from_str("Cannot accept connection")));
            }
            let http11 = Alpn::Http11.id();
            let h2 = Alpn::H2.id();
            if same_bytes(code, http11.as_slice()) {
                Ok(ServeProtocol::Http1)
            } else if same_bytes(code, h2.as_slice()) {
                Ok(ServeProtocol::Http2)
            } else {
                Ok(ServeProtocol::Unsupported)
            }
        },
    }
}

} // verus!
