use vetis_tokio::worker::udp::{after_route, ResponsePlan};
use std::sync::Arc;
use vetis_tokio::errors::ServerError;
use vetis_tokio::host::path::HandlerPath;
use vetis_tokio::listener::tcp::TcpListener;
use vetis_tokio::net::{HttpVersion, IpAddress, ListenerSettings};
use vetis_tokio::worker::tcp::{protocol_for_alpn, same_bytes, ConnectionPlan, ServeProtocol, TcpWorker};
use vetis_tokio::worker::udp::{decide_with, default_headers_to_apply, route_failure_reply, Builder, HttpService, ServiceDecision, UdpWorker};

type Handler = fn() -> &'static str;

fn listener() -> TcpListener {
    TcpListener::new(ListenerSettings {
        port: 65000,
        protos: vec![HttpVersion::Http11],
        interface: IpAddress::V4(0),
        alpn_protos: vec![],
        allow_unsafe_connections: false,
    })
}

fn acceptor() -> tokio_rustls::TlsAcceptor {
    let hosts: Vec<vetis_tokio::host::HostImpl<HandlerPath<Handler>>> = vec![];
    let l = listener();
    let config = l.tls_config(&hosts).unwrap().unwrap();
    tokio_rustls::TlsAcceptor::from(Arc::new(config))
}

#[test]
fn tls_handshake_is_detected() {
    let l = listener();
    let worker = TcpWorker::new(acceptor(), l.hosts_handle(), false, tokio_util::sync::CancellationToken::new());
    assert_eq!(worker.connection_plan([0x16, 0x03]), ConnectionPlan::Tls);
    assert_eq!(worker.connection_plan([b'G', b'E']), ConnectionPlan::Close);
    assert_eq!(worker.connection_plan([0x16, 0x01]), ConnectionPlan::Close);
}

#[test]
fn plain_connections_when_allowed() {
    let l = listener();
    let worker = TcpWorker::new(acceptor(), l.hosts_handle(), true, tokio_util::sync::CancellationToken::new());
    assert_eq!(worker.connection_plan([b'G', b'E']), ConnectionPlan::Plain);
    assert_eq!(worker.connection_plan([0x16, 0x03]), ConnectionPlan::Tls);
}

#[test]
fn alpn_selects_the_service() {
    assert_eq!(protocol_for_alpn(None), Ok(ServeProtocol::Auto));
    assert_eq!(protocol_for_alpn(Some(b"http/1.1")), Ok(ServeProtocol::Http1));
    assert_eq!(protocol_for_alpn(Some(b"h2")), Ok(ServeProtocol::Http2));
    assert_eq!(protocol_for_alpn(Some(b"h3")), Ok(ServeProtocol::Unsupported));
    assert_eq!(
        protocol_for_alpn(Some(&[0xff, 0xfe])),
        Err(ServerError::Worker("Cannot accept connection".to_string()))
    );
}

#[test]
fn byte_comparison() {
    assert!(same_bytes(b"abc", b"abc"));
    assert!(!same_bytes(b"abc", b"abd"));
    assert!(!same_bytes(b"ab", b"abc"));
}

#[test]
fn requests_are_routed_by_authority() {
    let mut l = listener();
    let host = vetis_tokio::host::HostImpl::<HandlerPath<Handler>>::new(vetis_tokio::config::HostSettings {
        hostname: "localhost".to_string(),
        root_directory: None,
        default_headers: None,
        security: None,
        status_pages: None,
        bind_addresses: vec![],
    });
    l.add_host(&host, 4);
    let service = HttpService::new(l.hosts_handle(), (IpAddress::V4(0x7f000001), 5000));
    assert_eq!(service.decide(Some("localhost:65000")), ServiceDecision::Route { host: 4 });
    assert_eq!(
        service.decide(Some("other:65000")),
        ServiceDecision::Reply { status: 400, text: "Host not found".to_string() }
    );
    assert_eq!(
        service.decide(None),
        ServiceDecision::Reply { status: 400, text: "No hostname found in request".to_string() }
    );
    assert_eq!(service.client_addr(), (IpAddress::V4(0x7f000001), 5000));
}

#[test]
fn route_failure_is_internal_error() {
    assert_eq!(route_failure_reply(), ServiceDecision::Reply { status: 500, text: "Internal server error".to_string() });
}

#[test]
fn invalid_default_headers_are_skipped() {
    let defaults = Some(vec![
        ("X-Frame-Options".to_string(), "DENY".to_string()),
        ("bad name".to_string(), "v".to_string()),
        ("X-Bad-Value".to_string(), "a\nb".to_string()),
        ("X-Tab".to_string(), "a\tb".to_string()),
    ]);
    assert_eq!(
        default_headers_to_apply(&defaults),
        vec![
            ("X-Frame-Options".to_string(), "DENY".to_string()),
            ("X-Tab".to_string(), "a\tb".to_string()),
        ]
    );
    assert!(default_headers_to_apply(&None).is_empty());
}

#[test]
fn workers_share_the_host_table() {
    let mut l = listener();
    let host = vetis_tokio::host::HostImpl::<HandlerPath<Handler>>::new(vetis_tokio::config::HostSettings {
        hostname: "h".to_string(),
        root_directory: None,
        default_headers: None,
        security: None,
        status_pages: None,
        bind_addresses: vec![],
    });
    l.add_host(&host, 0);
    let worker = UdpWorker::new(l.hosts_handle(), tokio_util::sync::CancellationToken::new());
    assert_eq!(worker.hosts_handle().len(), 1);
    let _ = Builder::new();
}

#[test]
fn decisions_follow_the_lookup() {
    assert_eq!(decide_with(Some("a:1"), Some(7)), ServiceDecision::Route { host: 7 });
    assert_eq!(
        decide_with(Some("a:1"), None),
        ServiceDecision::Reply { status: 400, text: "Host not found".to_string() }
    );
    assert_eq!(
        decide_with(None, Some(7)),
        ServiceDecision::Reply { status: 400, text: "No hostname found in request".to_string() }
    );
}

#[test]
fn dispatched_workers_follow_the_listener() {
    let plain = TcpListener::new(ListenerSettings {
        port: 65001,
        protos: vec![HttpVersion::Http11],
        interface: IpAddress::V4(0),
        alpn_protos: vec![],
        allow_unsafe_connections: true,
    });
    let dispatcher = vetis_tokio::listener::tcp::ConnectionDispatcher::new(
        plain.hosts_handle(),
        plain.config().clone(),
        tokio_util::sync::CancellationToken::new(),
    );
    assert_eq!(dispatcher.config().port, 65001);
    assert_eq!(dispatcher.worker(acceptor()).connection_plan([b'G', b'E']), ConnectionPlan::Plain);

    let strict = listener();
    let dispatcher = vetis_tokio::listener::tcp::ConnectionDispatcher::new(
        strict.hosts_handle(),
        strict.config().clone(),
        tokio_util::sync::CancellationToken::new(),
    );
    assert_eq!(dispatcher.worker(acceptor()).connection_plan([b'G', b'E']), ConnectionPlan::Close);
}

#[test]
fn quic_workers_share_the_listener_table() {
    let mut l = vetis_tokio::listener::udp::UdpListener::new(ListenerSettings {
        port: 443,
        protos: vec![HttpVersion::H3],
        interface: IpAddress::V4(0),
        alpn_protos: vec![],
        allow_unsafe_connections: false,
    });
    let token = tokio_util::sync::CancellationToken::new();
    let host = vetis_tokio::host::HostImpl::<HandlerPath<Handler>>::new(vetis_tokio::config::HostSettings {
        hostname: "q".to_string(),
        root_directory: None,
        default_headers: None,
        security: None,
        status_pages: None,
        bind_addresses: vec![],
    });
    l.add_host(&host, 0);
    let dispatcher = vetis_tokio::listener::udp::ConnectionDispatcher::new(l.hosts_handle(), token.clone());
    let worker = dispatcher.worker();
    assert_eq!(worker.hosts_handle().lookup("q:443"), Some(0));
    token.cancel();
    assert!(worker.token().is_cancelled());
}

#[test]
fn routed_requests_are_always_answered() {
    let defaults = Some(vec![
        ("X-Frame-Options".to_string(), "DENY".to_string()),
        ("bad name".to_string(), "v".to_string()),
    ]);
    assert_eq!(
        after_route(false, &defaults),
        ResponsePlan::Reply { status: 500, text: "Internal server error".to_string() }
    );
    assert_eq!(
        after_route(true, &defaults),
        ResponsePlan::Respond { headers: vec![("X-Frame-Options".to_string(), "DENY".to_string())] }
    );
    assert_eq!(after_route(true, &None), ResponsePlan::Respond { headers: vec![] });
}

#[test]
fn header_names_follow_the_token_characters() {
    let long = "a".repeat(70000);
    let defaults = Some(vec![
        ("x-ok_~|`^".to_string(), "1".to_string()),
        ("".to_string(), "2".to_string()),
        ("x(y)".to_string(), "3".to_string()),
        (long, "4".to_string()),
    ]);
    assert_eq!(default_headers_to_apply(&defaults), vec![("x-ok_~|`^".to_string(), "1".to_string())]);
}
