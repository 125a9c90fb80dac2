use vetis_tokio::config::HostSettings;
use vetis_tokio::host::path::HandlerPath;
use vetis_tokio::host::HostImpl;
use vetis_tokio::listener::tcp::TcpListener;
use vetis_tokio::listener::{build_listeners, offered_alpn_protocols, Listener, Transport};
use vetis_tokio::net::{Alpn, HttpVersion, IpAddress, ListenerSettings};

type Handler = fn() -> &'static str;

fn settings(protos: Vec<HttpVersion>, alpn: Vec<Alpn>) -> ListenerSettings {
    ListenerSettings {
        port: 8443,
        protos,
        interface: IpAddress::V6(0),
        alpn_protos: alpn,
        allow_unsafe_connections: true,
    }
}

fn host(name: &str) -> HostImpl<HandlerPath<Handler>> {
    HostImpl::new(HostSettings {
        hostname: name.to_string(),
        root_directory: None,
        default_headers: None,
        security: None,
        status_pages: None,
        bind_addresses: vec![(IpAddress::V6(0), 8443)],
    })
}

#[test]
fn listeners_follow_protocols() {
    let listeners = build_listeners(settings(
        vec![HttpVersion::Http11, HttpVersion::H3, HttpVersion::Http10, HttpVersion::H2, HttpVersion::Http09],
        vec![],
    ));
    assert_eq!(listeners.len(), 3);
    assert!(matches!(listeners[0], Listener::Tcp(_)));
    assert!(matches!(listeners[1], Listener::Udp(_)));
    assert!(matches!(listeners[2], Listener::Tcp(_)));
    for l in &listeners {
        assert_eq!(l.total_hosts(), 0);
        assert_eq!(l.config().port, 8443);
        assert_eq!(l.config().interface, IpAddress::V6(0));
    }
}

#[test]
fn no_listener_for_old_versions() {
    assert!(build_listeners(settings(vec![HttpVersion::Http10, HttpVersion::Http09], vec![])).is_empty());
}

#[test]
fn hosts_are_keyed_by_name_and_port() {
    let mut l = TcpListener::new(settings(vec![HttpVersion::Http11], vec![]));
    l.add_host(&host("example.com"), 7);
    assert_eq!(l.total_hosts(), 1);
    assert_eq!(l.host_for("example.com:8443"), Some(7));
    assert_eq!(l.host_for("example.com"), None);
}

#[test]
fn remove_undoes_add() {
    let mut l = TcpListener::new(settings(vec![HttpVersion::Http11], vec![]));
    l.add_host(&host("a.example"), 0);
    l.add_host(&host("b.example"), 1);
    l.remove_host("b.example:8443");
    assert_eq!(l.total_hosts(), 1);
    assert_eq!(l.host_for("b.example:8443"), None);
    assert_eq!(l.host_for("a.example:8443"), Some(0));
    l.remove_host("nothing");
    assert_eq!(l.total_hosts(), 1);
}

#[test]
fn port_zero_needs_reservation() {
    let l = TcpListener::new(ListenerSettings { port: 0, ..settings(vec![], vec![]) });
    assert!(l.needs_port_reservation());
    let l = TcpListener::new(settings(vec![], vec![]));
    assert!(!l.needs_port_reservation());
}

#[test]
fn hosts_handle_is_a_snapshot() {
    let mut l = TcpListener::new(settings(vec![HttpVersion::Http11], vec![]));
    let before = l.hosts_handle();
    l.add_host(&host("late.example"), 3);
    let after = l.hosts_handle();
    assert_eq!(before.lookup("late.example:8443"), None);
    assert_eq!(before.len(), 0);
    assert_eq!(after.lookup("late.example:8443"), Some(3));
    assert_eq!(after.len(), 1);
    assert_eq!(after.clone().lookup("late.example:8443"), Some(3));
}

#[test]
fn stop_is_idempotent() {
    let mut listeners = build_listeners(settings(vec![HttpVersion::H2], vec![]));
    listeners[0].stop();
    listeners[0].stop();
    assert_eq!(listeners[0].total_hosts(), 0);
}

#[test]
fn alpn_offered_per_transport() {
    let config = settings(
        vec![HttpVersion::Http11, HttpVersion::H3],
        vec![Alpn::H3, Alpn::Http11, Alpn::Doq, Alpn::H2, Alpn::Http10, Alpn::AcmeTls1],
    );
    assert_eq!(
        offered_alpn_protocols(&config, Transport::Tcp),
        vec![b"http/1.1".to_vec(), b"h2".to_vec(), b"acme-tls/1".to_vec()]
    );
    assert_eq!(offered_alpn_protocols(&config, Transport::Udp), vec![b"h3".to_vec(), b"doq".to_vec()]);
}
