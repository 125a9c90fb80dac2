//! TLS server configuration: one certificate per host name, chosen by SNI.
//!
//! What a listener's configuration holds is first decided as a [`TlsPlan`]:
//! the certificate chain and private key served for each host name, the
//! ALPN protocols offered and the early-data limit. The plan is then turned
//! into a `rustls` configuration, which fails on the first identity `rustls`
//! refuses.
use crate::config::TlsIdentity;
use crate::errors::ServerError;
use crate::host::path::RoutePath;
use crate::host::HostImpl;
use crate::listener::host_key;
use crate::listener::table::{host_entries, table_get, HostTable};
use rustls::pki_types::{CertificateDer, PrivateKeyDer};
use rustls::server::ResolvesServerCertUsingSni;
use rustls::sign::CertifiedKey;
use std::sync::Arc;
use vstd::prelude::*;
use vstd::string::*;

verus! {

#[verifier::external_type_specification]
#[verifier::external_body]
pub struct ExSniResolver(ResolvesServerCertUsingSni);

#[verifier::external_type_specification]
#[verifier::external_body]
pub struct ExTlsServerConfig(rustls::ServerConfig);

/// `rustls::pki_types::PrivateKeyDer::try_from` recognises the DER bytes as a
/// private key: an outer SEQUENCE whose content starts with the INTEGER 1
/// followed by a SEQUENCE (PKCS#8), the INTEGER 0 (PKCS#1) or the INTEGER 1
/// (SEC1). The SEQUENCE's length takes one byte below 128, or `b - 128`
/// further bytes after a first length byte `b`.
pub open spec fn private_key_der_accepted(der: Seq<u8>) -> bool {
    der.len() >= 2 && der[0] == 0x30u8 && {
        let skip: int = if der[1] >= 128 {
            2 + (der[1] - 128)
        } else {
            2
        };
        skip <= der.len() && {
            let body = der.subrange(skip, der.len() as int);
            &&& body.len() >= 3
            &&& body[0] == 0x02u8
            &&& body[1] == 0x01u8
            &&& (body.len() >= 4 && body[3] == 0x30u8) || body[2] == 0x00u8 || body[2] == 0x01u8
        }
    }
}

/// `rustls::sign::CertifiedKey::from_der`, with the `ring` cryptography
/// provider, accepts the certificate chain and the DER private key: the key
/// loads and does not contradict the first certificate.
pub uninterp spec fn certified_key_accepted(chain: Seq<Seq<u8>>, key: Seq<u8>) -> bool;

/// `rustls::server::ResolvesServerCertUsingSni::add` accepts the name for
/// the certificate chain: the name is a DNS name and the first certificate
/// parses and is valid for it.
pub uninterp spec fn sni_name_accepted(name: Seq<char>, chain: Seq<Seq<u8>>) -> bool;

/// `rustls` accepts a key in DER form for the certificate chain, and the
/// name for the chain.
pub open spec fn identity_accepted(name: Seq<char>, chain: Seq<Seq<u8>>, key: Seq<u8>) -> bool {
    certified_key_accepted(chain, key) && sni_name_accepted(name, chain)
}

/// A certificate an SNI resolver serves: the certificate chain and the
/// DER private key it was made from.
pub type ServedCertificate = (Seq<Seq<u8>>, Seq<u8>);

/// The certificates an SNI resolver serves, by host name.
pub uninterp spec fn sni_entries(r: ResolvesServerCertUsingSni) -> Map<Seq<char>, ServedCertificate>;

/// The certificates, by host name, that the SNI resolver of a TLS server
/// configuration serves.
pub uninterp spec fn tls_sni_entries(c: rustls::ServerConfig) -> Map<Seq<char>, ServedCertificate>;

/// The ALPN protocols a TLS server configuration offers, in order.
pub uninterp spec fn tls_alpn(c: rustls::ServerConfig) -> Seq<Seq<u8>>;

/// The early-data limit of a TLS server configuration, in bytes.
pub uninterp spec fn tls_max_early_data(c: rustls::ServerConfig) -> u32;

/// The cryptography provider of a TLS server configuration has the TLS 1.3
/// suite QUIC protects its initial packets with (`TLS13_AES_128_GCM_SHA256`).
pub uninterp spec fn tls_has_quic_initial_suite(c: rustls::ServerConfig) -> bool;

/// ASCII letters made lower case; other characters are kept.
pub open spec fn ascii_lower(s: Seq<char>) -> Seq<char> {
    s.map_values(|c: char| if 'A' <= c && c <= 'Z' { ((c as u32) + 32) as char } else { c })
}

/// The certificates an SNI resolver serves once the identities `ids` were
/// added in order: each under its name in lower case, a later identity
/// replacing an earlier one of the same name.
pub open spec fn sni_map(ids: Seq<(Seq<char>, Seq<Seq<u8>>, Seq<u8>)>) -> Map<Seq<char>, ServedCertificate>
    decreases ids.len(),
{
    if ids.len() == 0 {
        no_certificates()
    } else {
        let last = ids.last();
        sni_map(ids.drop_last()).insert(ascii_lower(last.0), (last.1, last.2))
    }
}

/// No certificate, for any name.
pub open spec fn no_certificates() -> Map<Seq<char>, ServedCertificate> {
    Map::empty()
}

/// `rustls::server::ResolvesServerCertUsingSni::new`: a resolver that knows no certificate.
#[verifier::external_body]
fn new_sni_resolver() -> (r: ResolvesServerCertUsingSni)
    ensures
        sni_entries(r) == no_certificates(),
{
    ResolvesServerCertUsingSni::new()
}

/// `rustls::pki_types::PrivateKeyDer::try_from`: whether the bytes are
/// recognised as a private key.
#[verifier::external_body]
fn private_key_accepted(der: &[u8]) -> (r: bool)
    ensures
        r == private_key_der_accepted(der@),
{
    PrivateKeyDer::try_from(der).is_ok()
}

/// Why an identity could not be added to an SNI resolver.
pub enum IdentityRefusal {
    /// `rustls::sign::CertifiedKey::from_der` refused the chain and key.
    CertifiedKey(String),
    /// `rustls::server::ResolvesServerCertUsingSni::add` refused the name.
    Name(String),
}

/// `rustls::sign::CertifiedKey::from_der` on the chain and key, with the
/// `ring` provider's default configuration, followed by
/// `rustls::server::ResolvesServerCertUsingSni::add` of the certified key
/// under `name`. A certified key holds its chain and key out of sight, so
/// the two calls are made together: that keeps what `add` decides tied to
/// the chain it was given. The result is the refusal, if any; errors are
/// rendered as text.
#[verifier::external_body]
fn add_identity(resolver: &mut ResolvesServerCertUsingSni, name: &str, chain: Vec<Vec<u8>>, key: Vec<u8>) -> (r: Option<IdentityRefusal>)
    requires
        private_key_der_accepted(key@),
    ensures
        r is None <==> identity_accepted(name@, chain.deep_view(), key@),
        r is None ==> sni_name_accepted(name@, chain.deep_view()),
        r matches Some(IdentityRefusal::CertifiedKey(_)) <==> !certified_key_accepted(chain.deep_view(), key@),
        r is None ==> sni_entries(*final(resolver)) == sni_entries(*old(resolver)).insert(ascii_lower(name@), (chain.deep_view(), key@)),
        r is Some ==> sni_entries(*final(resolver)) == sni_entries(*old(resolver)),
{
    let chain: Vec<CertificateDer<'static>> = chain.into_iter().map(CertificateDer::from).collect();
    let key = match PrivateKeyDer::try_from(key) {
        Ok(key) => key,
        Err(e) => return Some(IdentityRefusal::CertifiedKey(e.to_string())),
    };
    match CertifiedKey::from_der(chain, key, &rustls::crypto::ring::default_provider()) {
        Ok(certified) => resolver.add(name, certified).err().map(|e| IdentityRefusal::Name(e.to_string())),
        Err(e) => Some(IdentityRefusal::CertifiedKey(e.to_string())),
    }
}

/// `rustls::ServerConfig::builder_with_provider` with the `ring` provider's
/// default configuration, followed by
/// `with_protocol_versions(rustls::ALL_VERSIONS)`, `with_no_client_auth()`
/// and `with_cert_resolver(resolver)`: a server configuration that enables
/// every TLS version, does not authenticate clients and picks certificates
/// with `resolver`. The intermediate builder states carry a side parameter
/// bounded by a sealed `rustls` trait, so the chain is made in one item.
/// `with_protocol_versions` only fails for a provider without a cipher
/// suite for the versions or without key-exchange groups; the `ring`
/// provider has both for TLS 1.2 and 1.3. The configuration built offers
/// no ALPN protocol and accepts no early data; the `ring` provider has the
/// suite QUIC's initial packets use.
#[verifier::external_body]
fn server_config_with_resolver(resolver: ResolvesServerCertUsingSni) -> (r: Result<rustls::ServerConfig, String>)
    ensures
        r is Ok,
        r matches Ok(c) ==> tls_sni_entries(c) == sni_entries(resolver),
        r matches Ok(c) ==> tls_alpn(c) == Seq::<Seq<u8>>::empty(),
        r matches Ok(c) ==> tls_max_early_data(c) == 0,
        r matches Ok(c) ==> tls_has_quic_initial_suite(c),
{
    let builder = rustls::ServerConfig::builder_with_provider(Arc::new(rustls::crypto::ring::default_provider()))
        .with_protocol_versions(rustls::ALL_VERSIONS)
        .map_err(|e| e.to_string())?;
    Ok(builder.with_no_client_auth().with_cert_resolver(Arc::new(resolver)))
}

/// Sets `rustls::ServerConfig::max_early_data_size`.
#[verifier::external_body]
fn set_max_early_data_size(config: &mut rustls::ServerConfig, size: u32)
    ensures
        tls_max_early_data(*final(config)) == size,
        tls_alpn(*final(config)) == tls_alpn(*old(config)),
        tls_sni_entries(*final(config)) == tls_sni_entries(*old(config)),
        tls_has_quic_initial_suite(*final(config)) == tls_has_quic_initial_suite(*old(config)),
{
    config.max_early_data_size = size;
}

/// Sets `rustls::ServerConfig::alpn_protocols`.
#[verifier::external_body]
fn set_alpn_protocols(config: &mut rustls::ServerConfig, protocols: Vec<Vec<u8>>)
    ensures
        tls_alpn(*final(config)) == protocols.deep_view(),
        tls_max_early_data(*final(config)) == tls_max_early_data(*old(config)),
        tls_sni_entries(*final(config)) == tls_sni_entries(*old(config)),
        tls_has_quic_initial_suite(*final(config)) == tls_has_quic_initial_suite(*old(config)),
{
    config.alpn_protocols = protocols;
}

/// The certificate chain a host presents: its certificate, then the
/// certificate of its authority when one is given.
pub open spec fn chain_of(identity: TlsIdentity) -> Seq<Seq<u8>> {
    match identity.ca_cert {
        Some(ca) => seq![identity.cert@, ca@],
        None => seq![identity.cert@],
    }
}

/// The certificate chain a host presents: its certificate, then the
/// certificate of its authority when one is given.
pub fn certificate_chain(identity: &TlsIdentity) -> (chain: Vec<Vec<u8>>)
    ensures
        chain.deep_view() == chain_of(*identity),
{
    let mut chain: Vec<Vec<u8>> = Vec::new();
    let cert = copy_bytes(&identity.cert);
    assert(cert.deep_view() =~= identity.cert@);
    chain.push(cert);
    if let Some(ca) = &identity.ca_cert {
        let ca_copy = copy_bytes(ca);
        assert(ca_copy.deep_view() =~= ca@);
        chain.push(ca_copy);
    }
    assert(chain.deep_view() =~= chain_of(*identity));
    chain
}

/// A copy of `v`.
fn copy_bytes(v: &Vec<u8>) -> (r: Vec<u8>)
    ensures
        r@ == v@,
{
    let mut r: Vec<u8> = Vec::new();
    let n = v.len();
    for i in 0..n
        invariant
            n == v@.len(),
            r@ == v@.take(i as int),
    {
        r.push(v[i]);
        assert(r@ =~= v@.take(i + 1));
    }
    assert(v@.take(n as int) =~= v@);
    r
}

/// A certificate served to clients that ask for a host name.
pub struct SniIdentity {
    /// The host name.
    pub name: String,
    /// The certificate chain, end-entity certificate first.
    pub chain: Vec<Vec<u8>>,
    /// The DER private key of the end-entity certificate.
    pub key: Vec<u8>,
}

impl View for SniIdentity {
    type V = (Seq<char>, Seq<Seq<u8>>, Seq<u8>);

    open spec fn view(&self) -> (Seq<char>, Seq<Seq<u8>>, Seq<u8>) {
        (self.name@, self.chain.deep_view(), self.key@)
    }
}

/// What a listener's TLS configuration holds.
pub struct TlsPlan {
    /// The certificates served, by host name, in the order they are added.
    pub identities: Vec<SniIdentity>,
    /// The ALPN protocols offered, in order of preference.
    pub alpn_protocols: Vec<Vec<u8>>,
    /// The most early data accepted from a client, in bytes.
    pub max_early_data_size: u32,
}

impl TlsPlan {
    /// The identities of the plan.
    pub open spec fn identities_view(&self) -> Seq<(Seq<char>, Seq<Seq<u8>>, Seq<u8>)> {
        self.identities@.map_values(|i: SniIdentity| i@)
    }
}

/// The host at index `i` of `hosts` is served, in a table of `entries` on
/// `port`, under its key.
pub open spec fn serves<P: RoutePath>(entries: Map<Seq<char>, usize>, port: u16, hosts: Seq<HostImpl<P>>, i: int) -> bool {
    let key = host_key(hosts[i].spec_config().hostname@, port);
    entries.contains_key(key) && entries[key] == i
}

/// The identities of the hosts among the first `n` of `hosts` that a table
/// of `entries` on `port` serves and that have a TLS identity, in order:
/// each host's name, certificate chain and private key.
pub open spec fn served_identities<P: RoutePath>(entries: Map<Seq<char>, usize>, port: u16, hosts: Seq<HostImpl<P>>, n: int) -> Seq<(Seq<char>, Seq<Seq<u8>>, Seq<u8>)>
    decreases n,
{
    if n <= 0 {
        seq![]
    } else {
        let rest = served_identities(entries, port, hosts, n - 1);
        let settings = hosts[n - 1].spec_config();
        if serves(entries, port, hosts, n - 1) && settings.security is Some {
            let identity = settings.security.unwrap();
            rest.push((settings.hostname@, chain_of(identity), identity.key@))
        } else {
            rest
        }
    }
}

/// Why `rustls` refuses an identity.
pub enum TlsRefusal {
    /// The private key is not recognised.
    KeyFormat,
    /// The private key does not load or does not fit the certificate.
    CertifiedKey,
    /// The name is not a DNS name the certificate is valid for.
    Name,
}

/// Why `rustls` refuses the identity `id`, if it does.
pub open spec fn refusal_of(id: (Seq<char>, Seq<Seq<u8>>, Seq<u8>)) -> Option<TlsRefusal> {
    if !private_key_der_accepted(id.2) {
        Some(TlsRefusal::KeyFormat)
    } else if !certified_key_accepted(id.1, id.2) {
        Some(TlsRefusal::CertifiedKey)
    } else if !sni_name_accepted(id.0, id.1) {
        Some(TlsRefusal::Name)
    } else {
        None
    }
}

/// `rustls` accepts every one of the identities.
pub open spec fn all_accepted(ids: Seq<(Seq<char>, Seq<Seq<u8>>, Seq<u8>)>) -> bool {
    forall|i: int| 0 <= i < ids.len() ==> (#[trigger] refusal_of(ids[i])) is None
}

/// `e` reports a refusal of the kind `why`.
pub open spec fn reports(e: ServerError, why: TlsRefusal) -> bool {
    match e {
        ServerError::Tls(m) => match why {
            TlsRefusal::KeyFormat => m@ == "Failed to parse private key"@,
            TlsRefusal::CertifiedKey => "Failed to create certified key: "@.is_prefix_of(m@),
            TlsRefusal::Name => true,
        },
        _ => false,
    }
}

/// `e` reports the first of the identities that `rustls` refuses.
pub open spec fn reports_first_refusal(ids: Seq<(Seq<char>, Seq<Seq<u8>>, Seq<u8>)>, e: ServerError) -> bool {
    exists|i: int|
        0 <= i < ids.len() && all_accepted(ids.take(i)) && (#[trigger] refusal_of(ids[i])) is Some
            && reports(e, refusal_of(ids[i]).unwrap())
}

/// `c` serves the certificates of `ids` by their names, offers `alpn` and
/// has the early-data limit `early`, and QUIC can use it.
pub open spec fn configured(c: rustls::ServerConfig, ids: Seq<(Seq<char>, Seq<Seq<u8>>, Seq<u8>)>, alpn: Seq<Seq<u8>>, early: u32) -> bool {
    &&& tls_sni_entries(c) == sni_map(ids)
    &&& tls_alpn(c) == alpn
    &&& tls_max_early_data(c) == early
    &&& tls_has_quic_initial_suite(c)
}

/// Builds the TLS server configuration shared by a listener's hosts.
pub struct TlsFactory {}

impl TlsFactory {
    /// The TLS plan of a listener on `port` whose host table is `served`:
    /// every host of `hosts` the table serves and that has a TLS identity
    /// gets its certificate chain served for its host name, in host order;
    /// `alpn_protocols` are offered, and early data is not limited.
    pub fn plan<P: RoutePath>(served: &HostTable, port: u16, hosts: &Vec<HostImpl<P>>, alpn_protocols: Vec<Vec<u8>>) -> (p: TlsPlan)
        ensures
            p.identities_view() == served_identities(host_entries(*served), port, hosts@, hosts@.len() as int),
            p.alpn_protocols.deep_view() == alpn_protocols.deep_view(),
            p.max_early_data_size == u32::MAX,
    {
        let mut identities: Vec<SniIdentity> = Vec::new();
        let n = hosts.len();
        for i in 0..n
            invariant
                n == hosts@.len(),
                identities@.map_values(|x: SniIdentity| x@) == served_identities(host_entries(*served), port, hosts@, i as int),
        {
            let ghost before = identities@;
            let host = &hosts[i];
            let mut key = String::from_str(host.config().hostname.as_str());
            key.append(":");
            crate::text::push_decimal(&mut key, port);
            proof {
                reveal_strlit(":");
            }
            assert(key@ =~= host_key(hosts@[i as int].spec_config().hostname@, port));
            let is_served = match table_get(served, key.as_str()) {
                Some(id) => id == i,
                None => false,
            };
            if is_served {
                if let Some(security) = &host.config().security {
                    let identity = SniIdentity {
                        name: String::from_str(host.config().hostname.as_str()),
                        chain: certificate_chain(security),
                        key: copy_bytes(&security.key),
                    };
                    identities.push(identity);
                    assert(identities@.map_values(|x: SniIdentity| x@) =~= before.map_values(|x: SniIdentity| x@).push(
                        identity@,
                    ));
                }
            }
            assert(identities@.map_values(|x: SniIdentity| x@) =~= served_identities(host_entries(*served), port, hosts@, i + 1));
        }
        TlsPlan { identities, alpn_protocols, max_early_data_size: u32::MAX }
    }

    /// Turns a plan into a `rustls` server configuration: each identity's
    /// certificate chain is served for its name, every TLS version is
    /// enabled, clients are not authenticated, and the plan's ALPN
    /// protocols and early-data limit are set. It fails on the first
    /// identity `rustls` refuses.
    pub fn build(plan: TlsPlan) -> (r: Result<rustls::ServerConfig, ServerError>)
        ensures
            r is Ok <==> all_accepted(plan.identities_view()),
            r matches Ok(c) ==> configured(
                c,
                plan.identities_view(),
                plan.alpn_protocols.deep_view(),
                plan.max_early_data_size,
            ),
            r matches Err(e) ==> reports_first_refusal(plan.identities_view(), e),
    {
        let ghost ids = plan.identities_view();
        let TlsPlan { identities, alpn_protocols, max_early_data_size } = plan;
        let ghost all = identities@;
        let mut resolver = new_sni_resolver();
        let mut pending = identities;
        let n = pending.len();
        let mut i: usize = 0;
        while pending.len() > 0
            invariant
                n == all.len(),
                ids == all.map_values(|x: SniIdentity| x@),
                ids == plan.identities_view(),
                i + pending@.len() == n,
                pending@ == all.skip(i as int),
                all_accepted(ids.take(i as int)),
                sni_entries(resolver) == sni_map(ids.take(i as int)),
            decreases pending.len(),
        {
            let identity = pending.remove(0);
            assert(identity == all[i as int]);
            assert(ids[i as int] == identity@);
            if !private_key_accepted(identity.key.as_slice()) {
                let e = ServerError::Tls(String::from_str("Failed to parse private key"));
                proof {
                    assert(refusal_of(ids[i as int]) == Some(TlsRefusal::KeyFormat));
                    assert(!all_accepted(ids));
                    assert(reports(e, TlsRefusal::KeyFormat));
                    assert(reports_first_refusal(ids, e));
                }
                return Err(e);
            }
            let SniIdentity { name, chain, key } = identity;
            match add_identity(&mut resolver, name.as_str(), chain, key) {
                None => {
                    assert(refusal_of(ids[i as int]) is None);
                },
                Some(IdentityRefusal::CertifiedKey(m)) => {
                    let mut msg = String::from_str("Failed to create certified key: ");
                    msg.append(m.as_str());
                    let e = ServerError::Tls(msg);
                    proof {
                        reveal_strlit("Failed to create certified key: ");
                        assert(refusal_of(ids[i as int]) == Some(TlsRefusal::CertifiedKey));
                        assert(!all_accepted(ids));
                        assert("Failed to create certified key: "@.is_prefix_of(msg@));
                        assert(reports(e, TlsRefusal::CertifiedKey));
                        assert(reports_first_refusal(ids, e));
                    }
                    return Err(e);
                },
                Some(IdentityRefusal::Name(m)) => {
                    let e = ServerError::Tls(m);
                    proof {
                        assert(refusal_of(ids[i as int]) == Some(TlsRefusal::Name));
                        assert(!all_accepted(ids));
                        assert(reports(e, TlsRefusal::Name));
                        assert(reports_first_refusal(ids, e));
                    }
                    return Err(e);
                },
            }
            assert(ids.take(i + 1) =~= ids.take(i as int).push(ids[i as int]));
            assert(ids.take(i + 1).drop_last() =~= ids.take(i as int));
            i = i + 1;
            assert(pending@ =~= all.skip(i as int));
        }
        assert(ids.take(n as int) =~= ids);
        let mut tls_config = match server_config_with_resolver(resolver) {
            Ok(c) => c,
            Err(e) => {
                return Err(ServerError::StartTls(e));
            },
        };
        set_max_early_data_size(&mut tls_config, max_early_data_size);
        set_alpn_protocols(&mut tls_config, alpn_protocols);
        Ok(tls_config)
    }

    /// Builds the TLS configuration of a listener on `port` whose host table
    /// is `served`, offering `alpn_protocols`: the configuration of the
    /// listener's plan. It fails on the first served identity `rustls`
    /// refuses.
    pub fn create_tls_config<P: RoutePath>(served: &HostTable, port: u16, hosts: &Vec<HostImpl<P>>, alpn_protocols: Vec<Vec<u8>>) -> (r: Result<Option<rustls::ServerConfig>, ServerError>)
        ensures
            r is Ok <==> all_accepted(served_identities(host_entries(*served), port, hosts@, hosts@.len() as int)),
            r matches Ok(c) ==> c is Some,
            r matches Ok(Some(c)) ==> configured(
                c,
                served_identities(host_entries(*served), port, hosts@, hosts@.len() as int),
                alpn_protocols.deep_view(),
                u32::MAX,
            ),
            r matches Err(e) ==> reports_first_refusal(
                served_identities(host_entries(*served), port, hosts@, hosts@.len() as int),
                e,
            ),
    {
        let plan = Self::plan(served, port, hosts, alpn_protocols);
        match Self::build(plan) {
            Ok(c) => Ok(Some(c)),
            Err(e) => Err(e),
        }
    }
}

} // verus!
