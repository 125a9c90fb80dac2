//! Plain descriptions of virtual hosts and their TLS identities.
use crate::net::IpAddress;
use std::collections::HashMap;
use vstd::prelude::*;

verus! {

/// The certificate material a host presents over TLS (DER encoded).
#[derive(Debug)]
pub struct TlsIdentity {
    /// The host's certificate.
    pub cert: Vec<u8>,
    /// The host's private key.
    pub key: Vec<u8>,
    /// The certificate of the authority that issued `cert`, if it is sent along.
    pub ca_cert: Option<Vec<u8>>,
}

/// How a virtual host is named, bound and served.
#[derive(Debug)]
pub struct HostSettings {
    /// The name requests address the host by.
    pub hostname: String,
    /// The directory status pages are read from.
    pub root_directory: Option<String>,
    /// Headers added to every response of the host, in order.
    pub default_headers: Option<Vec<(String, String)>>,
    /// The TLS identity of the host, when it serves TLS.
    pub security: Option<TlsIdentity>,
    /// Files (relative to `root_directory`) served for given status codes.
    pub status_pages: Option<HashMap<u16, String>>,
    /// The interface and port pairs whose listeners serve the host.
    pub bind_addresses: Vec<(IpAddress, u16)>,
}

} // verus!
