//! Plain descriptions of network endpoints, HTTP protocol versions, ALPN
//! identifiers and listener settings.
use vstd::prelude::*;

verus! {

/// An IP address: IPv4 as its 32-bit value, IPv6 as its 128-bit value.
#[derive(Debug, PartialEq, Eq, Structural)]
pub enum IpAddress {
    /// An IPv4 address.
    V4(u32),
    /// An IPv6 address.
    V6(u128),
}

impl Clone for IpAddress {
    fn clone(&self) -> (r: Self)
        ensures
            r == *self,
    {
        *self
    }
}

impl Copy for IpAddress {}

/// An HTTP protocol version a listener may speak.
#[derive(Debug, PartialEq, Eq, Structural)]
pub enum HttpVersion {
    /// HTTP/0.9
    Http09,
    /// HTTP/1.0
    Http10,
    /// HTTP/1.1
    Http11,
    /// HTTP/2
    H2,
    /// HTTP/3
    H3,
}

impl Clone for HttpVersion {
    fn clone(&self) -> (r: Self)
        ensures
            r == *self,
    {
        *self
    }
}

impl Copy for HttpVersion {}

/// An application protocol negotiated through TLS ALPN.
#[derive(Debug, PartialEq, Eq, Structural)]
pub enum Alpn {
    /// ACME TLS-ALPN-01 challenges (`acme-tls/1`).
    AcmeTls1,
    /// DNS over HTTPS (`doh`).
    Doh,
    /// DNS over TLS (`dot`).
    Dot,
    /// HTTP/1.0 (`http/1.0`).
    Http10,
    /// HTTP/1.1 (`http/1.1`).
    Http11,
    /// HTTP/2 over TLS (`h2`).
    H2,
    /// HTTP/2 over cleartext (`h2c`).
    H2c,
    /// HTTP/3 (`h3`).
    H3,
    /// DNS over QUIC (`doq`).
    Doq,
}

impl Clone for Alpn {
    fn clone(&self) -> (r: Self)
        ensures
            r == *self,
    {
        *self
    }
}

impl Copy for Alpn {}

/// The protocol identifier of an ALPN protocol, as sent on the wire.
pub open spec fn alpn_id(a: Alpn) -> Seq<u8> {
    match a {
        Alpn::AcmeTls1 => seq![97u8, 99, 109, 101, 45, 116, 108, 115, 47, 49],
        Alpn::Doh => seq![100u8, 111, 104],
        Alpn::Dot => seq![100u8, 111, 116],
        Alpn::Http10 => seq![104u8, 116, 116, 112, 47, 49, 46, 48],
        Alpn::Http11 => seq![104u8, 116, 116, 112, 47, 49, 46, 49],
        Alpn::H2 => seq![104u8, 50],
        Alpn::H2c => seq![104u8, 50, 99],
        Alpn::H3 => seq![104u8, 51],
        Alpn::Doq => seq![100u8, 111, 113],
    }
}

impl Alpn {
    /// The wire identifier of this protocol.
    pub fn id(&self) -> (r: Vec<u8>)
        ensures
            r@ == alpn_id(*self),
    {
        match self {
            Alpn::AcmeTls1 => vec![97u8, 99, 109, 101, 45, 116, 108, 115, 47, 49],
            Alpn::Doh => vec![100u8, 111, 104],
            Alpn::Dot => vec![100u8, 111, 116],
            Alpn::Http10 => vec![104u8, 116, 116, 112, 47, 49, 46, 48],
            Alpn::Http11 => vec![104u8, 116, 116, 112, 47, 49, 46, 49],
            Alpn::H2 => vec![104u8, 50],
            Alpn::H2c => vec![104u8, 50, 99],
            Alpn::H3 => vec![104u8, 51],
            Alpn::Doq => vec![100u8, 111, 113],
        }
    }
}

/// Where and how a listener accepts connections.
#[derive(Debug)]
pub struct ListenerSettings {
    /// The port to listen on; 0 asks the operating system for a free one.
    pub port: u16,
    /// The HTTP versions served; each transport gets its own listener.
    pub protos: Vec<HttpVersion>,
    /// The interface to bind.
    pub interface: IpAddress,
    /// The ALPN protocols offered during TLS negotiation.
    pub alpn_protos: Vec<Alpn>,
    /// Whether connections that do not start a TLS handshake are served.
    pub allow_unsafe_connections: bool,
}

impl Clone for ListenerSettings {
    fn clone(&self) -> (r: Self)
        ensures
            r.port == self.port,
            r.protos@ == self.protos@,
            r.interface == self.interface,
            r.alpn_protos@ == self.alpn_protos@,
            r.allow_unsafe_connections == self.allow_unsafe_connections,
    {
        let r = ListenerSettings {
            port: self.port,
            protos: self.protos.clone(),
            interface: self.interface,
            alpn_protos: self.alpn_protos.clone(),
            allow_unsafe_connections: self.allow_unsafe_connections,
        };
        assert(r.protos@ =~= self.protos@);
        assert(r.alpn_protos@ =~= self.alpn_protos@);
        r
    }
}

} // verus!
