use vetis_tokio::config::{HostSettings, TlsIdentity};
use vetis_tokio::errors::ServerError;
use vetis_tokio::host::path::HandlerPath;
use vetis_tokio::host::HostImpl;
use vetis_tokio::listener::udp::UdpListener;
use vetis_tokio::net::{Alpn, HttpVersion, IpAddress, ListenerSettings};
use vetis_tokio::tls::{certificate_chain, SniIdentity, TlsFactory, TlsPlan};

type Handler = fn() -> &'static str;

fn udp() -> UdpListener {
    UdpListener::new(ListenerSettings {
        port: 443,
        protos: vec![HttpVersion::H3],
        interface: IpAddress::V4(0),
        alpn_protos: vec![Alpn::H3],
        allow_unsafe_connections: false,
    })
}

fn host(key: Vec<u8>) -> HostImpl<HandlerPath<Handler>> {
    HostImpl::new(HostSettings {
        hostname: "localhost".to_string(),
        root_directory: None,
        default_headers: None,
        security: Some(TlsIdentity { cert: vec![1, 2, 3], key, ca_cert: None }),
        status_pages: None,
        bind_addresses: vec![],
    })
}

#[test]
fn chain_lists_certificate_then_authority() {
    let with_ca = TlsIdentity { cert: vec![1], key: vec![2], ca_cert: Some(vec![3, 4]) };
    assert_eq!(certificate_chain(&with_ca), vec![vec![1], vec![3, 4]]);
    let without = TlsIdentity { cert: vec![5], key: vec![6], ca_cert: None };
    assert_eq!(certificate_chain(&without), vec![vec![5]]);
}

#[test]
fn no_hosts_still_configures_tls() {
    let hosts: Vec<HostImpl<HandlerPath<Handler>>> = vec![];
    let config = TlsFactory::create_tls_config(&papaya::HashMap::new(), 443, &hosts, vec![b"h3".to_vec()]).unwrap().unwrap();
    assert_eq!(config.max_early_data_size, u32::MAX);
    assert_eq!(config.alpn_protocols, vec![b"h3".to_vec()]);
}

#[test]
fn unserved_hosts_are_ignored() {
    let hosts = vec![host(vec![0, 0, 0])];
    assert!(TlsFactory::create_tls_config(&papaya::HashMap::new(), 443, &hosts, vec![]).is_ok());
}

#[test]
fn unreadable_key_is_refused() {
    let mut l = udp();
    let hosts = vec![host(vec![0, 0, 0])];
    l.add_host(&hosts[0], 0);
    assert_eq!(
        l.quic_config(&hosts).err(),
        Some(ServerError::Tls("Failed to parse private key".to_string()))
    );
}

#[test]
fn quic_config_without_hosts() {
    let hosts: Vec<HostImpl<HandlerPath<Handler>>> = vec![];
    assert!(udp().quic_config(&hosts).is_ok());
}

#[test]
fn plan_serves_each_served_identity_under_its_host_name() {
    let mut l = udp();
    let hosts = vec![host(vec![9, 9]), host(vec![7])];
    l.add_host(&hosts[1], 1);
    let plan = l.tls_plan(&hosts);
    assert_eq!(plan.identities.len(), 1);
    assert_eq!(plan.identities[0].name, "localhost");
    assert_eq!(plan.identities[0].chain, vec![vec![1, 2, 3]]);
    assert_eq!(plan.identities[0].key, vec![7]);
    assert_eq!(plan.alpn_protocols, vec![b"h3".to_vec()]);
    assert_eq!(plan.max_early_data_size, u32::MAX);
}

#[test]
fn mismatched_key_is_refused_as_certified_key() {
    // An outer SEQUENCE holding the INTEGER 0: recognised as a PKCS#1
    // private key, but it does not load.
    let key = vec![0x30, 0x03, 0x02, 0x01, 0x00];
    let plan = TlsPlan {
        identities: vec![SniIdentity { name: "localhost".to_string(), chain: vec![vec![1, 2, 3]], key }],
        alpn_protocols: vec![],
        max_early_data_size: u32::MAX,
    };
    match TlsFactory::build(plan) {
        Err(ServerError::Tls(m)) => assert!(m.starts_with("Failed to create certified key: "), "unexpected message {}", m),
        _ => panic!("a key that does not load must be refused"),
    }
}

#[test]
fn key_formats_are_told_apart() {
    let plan = |key: Vec<u8>| TlsPlan {
        identities: vec![SniIdentity { name: "localhost".to_string(), chain: vec![vec![1, 2, 3]], key }],
        alpn_protocols: vec![],
        max_early_data_size: u32::MAX,
    };
    // Long-form length, then the INTEGER 1: a SEC1 key that does not load.
    match TlsFactory::build(plan(vec![0x30, 0x81, 0x03, 0x02, 0x01, 0x01])) {
        Err(ServerError::Tls(m)) => assert!(m.starts_with("Failed to create certified key: ")),
        _ => panic!("a key that does not load must be refused"),
    }
    // The INTEGER 2 is no key version.
    assert_eq!(
        TlsFactory::build(plan(vec![0x30, 0x03, 0x02, 0x01, 0x02])).err(),
        Some(ServerError::Tls("Failed to parse private key".to_string()))
    );
    // No identity: the configuration is built.
    let empty = TlsPlan { identities: vec![], alpn_protocols: vec![b"h2".to_vec()], max_early_data_size: u32::MAX };
    let config = TlsFactory::build(empty).unwrap();
    assert_eq!(config.alpn_protocols, vec![b"h2".to_vec()]);
    assert_eq!(config.max_early_data_size, u32::MAX);
}
