use vetis_tokio::config::HostSettings;
use vetis_tokio::errors::ServerError;
use vetis_tokio::host::path::HandlerPath;
use vetis_tokio::host::HostImpl;
use vetis_tokio::listener::build_listeners;
use vetis_tokio::net::{HttpVersion, IpAddress, ListenerSettings};
use vetis_tokio::rt::Vetis;

type Handler = fn() -> &'static str;

fn hello() -> &'static str {
    "Hello, World!"
}

fn create_listener() -> ListenerSettings {
    ListenerSettings {
        port: 8080,
        protos: vec![HttpVersion::Http11],
        interface: IpAddress::V4(0),
        alpn_protos: vec![],
        allow_unsafe_connections: false,
    }
}

fn vetis_server_config() -> vetis::server::ServerConfig {
    vetis::server::ServerConfig::builder()
        .add_listener(
            vetis::listener::ListenerConfig::builder()
                .port(8080)
                .protos(vec![http::Version::HTTP_11])
                .interface("0.0.0.0".parse().unwrap())
                .build()
                .unwrap(),
        )
        .add_host(vetis::host::HostConfig::default())
        .build()
        .unwrap()
}

fn host_settings(hostname: &str) -> HostSettings {
    HostSettings {
        hostname: hostname.to_string(),
        root_directory: Some("src/tests".to_string()),
        default_headers: None,
        security: None,
        status_pages: None,
        bind_addresses: vec![(IpAddress::V4(0), 8080)],
    }
}

fn vhost(hostname: &str) -> HostImpl<HandlerPath<Handler>> {
    let mut vhost = HostImpl::new(host_settings(hostname));
    let handler_path = HandlerPath::builder().uri("/").handler(hello as Handler).build().unwrap();
    vhost.add_path(handler_path);
    vhost
}

#[test]
fn test_vetis_new() {
    let server: Vetis<HandlerPath<Handler>> = Vetis::new(vetis_server_config());
    assert_eq!(server.config().listeners().len(), 1);
}

#[test]
fn test_vetis_config() {
    let server: Vetis<HandlerPath<Handler>> = Vetis::new(vetis_server_config());
    assert_eq!(server.config().listeners().len(), 1);
}

#[test]
fn test_vetis_add_host() {
    let server = Vetis::builder()
        .add_listeners(build_listeners(create_listener()))
        .unwrap()
        .add_host(vhost("localhost"))
        .unwrap();
    let server = server.build();
    let mut server = server;
    assert_eq!(server.listeners_mut().first().unwrap().total_hosts(), 1);
}

#[test]
fn test_vetis_start_no_hosts() {
    let server: Vetis<HandlerPath<Handler>> = Vetis::default();
    let result = server.check_start();
    assert!(result.is_err());
}

#[test]
fn test_vetis_hosts() {
    let mut server = Vetis::builder()
        .add_listeners(build_listeners(create_listener()))
        .unwrap()
        .add_host(vhost("localhost"))
        .unwrap()
        .build();
    assert_eq!(server.listeners_mut().first().unwrap().total_hosts(), 1);
}

#[test]
fn test_vetis_add_multiple_hosts() {
    let mut server = Vetis::builder().add_listeners(build_listeners(create_listener())).unwrap();
    for i in 0..3 {
        server = server.add_host(vhost(&format!("host{}", i))).unwrap();
    }
    let mut server = server.build();
    assert_eq!(server.listeners_mut().first().unwrap().total_hosts(), 3);
}

#[test]
fn add_host_without_listeners_is_refused() {
    let builder = Vetis::<HandlerPath<Handler>>::builder();
    let result = builder.add_host(vhost("localhost"));
    assert!(matches!(result, Err(ServerError::NoListeners)));
}

#[test]
fn add_host_serves_only_matching_listeners() {
    let other = ListenerSettings { port: 9090, ..create_listener() };
    let mut server = Vetis::builder()
        .add_listeners(build_listeners(create_listener()))
        .unwrap()
        .add_listeners(build_listeners(other))
        .unwrap()
        .add_host(vhost("localhost"))
        .unwrap()
        .build();
    let listeners = server.listeners_mut();
    assert_eq!(listeners.len(), 2);
    assert_eq!(listeners[0].total_hosts(), 1);
    assert_eq!(listeners[1].total_hosts(), 0);
    match &listeners[0] {
        vetis_tokio::listener::Listener::Tcp(l) => {
            assert_eq!(l.host_for("localhost:8080"), Some(0));
            assert_eq!(l.host_for("localhost:9090"), None);
        }
        _ => panic!("expected a TCP listener"),
    }
}

#[test]
fn hosts_are_indexed_in_order() {
    let server = Vetis::builder()
        .add_listeners(build_listeners(create_listener()))
        .unwrap()
        .add_host(vhost("a.example"))
        .unwrap()
        .add_host(vhost("b.example"))
        .unwrap()
        .build();
    let hosts = server.hosts();
    assert_eq!(hosts.len(), 2);
    assert_eq!(hosts[0].config().hostname, "a.example");
    assert_eq!(hosts[1].config().hostname, "b.example");
}

#[test]
fn same_name_again_replaces_the_host() {
    let mut server = Vetis::builder()
        .add_listeners(build_listeners(create_listener()))
        .unwrap()
        .add_host(vhost("localhost"))
        .unwrap()
        .add_host(vhost("localhost"))
        .unwrap()
        .build();
    let listeners = server.listeners_mut();
    assert_eq!(listeners[0].total_hosts(), 1);
    match &listeners[0] {
        vetis_tokio::listener::Listener::Tcp(l) => assert_eq!(l.host_for("localhost:8080"), Some(1)),
        _ => panic!("expected a TCP listener"),
    }
}

#[test]
fn stop_without_listeners_fails() {
    let mut server: Vetis<HandlerPath<Handler>> = Vetis::default();
    assert_eq!(server.stop(), Err(ServerError::Stop("Vetis is not running".to_string())));
}

#[test]
fn start_without_hosts_fails() {
    let server: Vetis<HandlerPath<Handler>> = Vetis::from(build_listeners(create_listener()));
    assert_eq!(server.check_start(), Err(ServerError::NoHosts));
    let server = Vetis::builder()
        .add_listeners(build_listeners(create_listener()))
        .unwrap()
        .add_host(vhost("localhost"))
        .unwrap()
        .build();
    assert_eq!(server.check_start(), Ok(()));
}

#[test]
fn stop_when_not_running_fails() {
    let mut server: Vetis<HandlerPath<Handler>> = Vetis::from(build_listeners(create_listener()));
    assert_eq!(server.stop(), Err(ServerError::Stop("Vetis is not running".to_string())));
}

#[test]
fn stop_while_running_succeeds() {
    let mut server: Vetis<HandlerPath<Handler>> = Vetis::from(build_listeners(create_listener()));
    let token = tokio_util::sync::CancellationToken::new();
    match &mut server.listeners_mut()[0] {
        vetis_tokio::listener::Listener::Tcp(l) => l.mark_listening(token.clone()),
        _ => panic!("expected a TCP listener"),
    }
    assert!(server.listeners_mut()[0].is_listening());
    assert_eq!(server.stop(), Ok(()));
    assert!(token.is_cancelled());
    assert!(!server.listeners_mut()[0].is_listening());
    assert_eq!(server.stop(), Err(ServerError::Stop("Vetis is not running".to_string())));
}

#[test]
fn reload_takes_the_new_configuration() {
    let mut server: Vetis<HandlerPath<Handler>> = Vetis::new(vetis_server_config());
    assert!(server.reload(vetis::server::ServerConfig::default()).is_ok());
    assert_eq!(server.config().listeners().len(), 0);
    assert_eq!(server.config_mut().hosts().len(), 0);
}

#[test]
fn server_level_hosts_can_be_added_and_removed() {
    let mut empty: Vetis<HandlerPath<Handler>> = Vetis::new(vetis_server_config());
    assert_eq!(empty.add_host(vhost("localhost")), Err(ServerError::NoListeners));

    let mut server: Vetis<HandlerPath<Handler>> = Vetis::from(build_listeners(create_listener()));
    assert_eq!(server.add_host(vhost("localhost")), Ok(()));
    assert_eq!(server.listeners_mut()[0].total_hosts(), 1);
    assert_eq!(server.check_start(), Ok(()));

    let shared = server.hosts();
    assert_eq!(server.add_host(vhost("other")), Err(ServerError::HostsInUse));
    assert_eq!(shared.len(), 1);
    drop(shared);
    assert_eq!(server.add_host(vhost("other")), Ok(()));
    assert_eq!(server.listeners_mut()[0].total_hosts(), 2);

    server.remove_host("other:8080");
    assert_eq!(server.listeners_mut()[0].total_hosts(), 1);
    assert_eq!(server.hosts().len(), 2);
}
