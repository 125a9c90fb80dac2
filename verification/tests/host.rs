use http_body_util::BodyExt;
use hyper_body_utils::HttpBody;
use std::collections::HashMap;
use vetis_tokio::config::HostSettings;
use vetis_tokio::errors::ServerError;
use vetis_tokio::host::path::{HandlerPath, RoutePath};
use vetis_tokio::host::status::{failure_status, handler_error_status, HandlerFailure};
use vetis_tokio::host::{HostImpl, RoutePlan};
use vetis::errors::{FileError, HostError, VetisError};

type Handler = fn() -> &'static str;

fn greet() -> &'static str {
    "Hello, world!"
}

fn settings() -> HostSettings {
    HostSettings {
        hostname: "localhost".to_string(),
        root_directory: Some("src/tests".to_string()),
        default_headers: None,
        security: None,
        status_pages: None,
        bind_addresses: vec![],
    }
}

fn path(uri: &str) -> HandlerPath<Handler> {
    HandlerPath::builder().uri(uri).handler(greet as Handler).build().unwrap()
}

#[test]
fn test_add_host() {
    let mut host = HostImpl::new(settings());
    host.add_path(path("/"));
    assert_eq!(host.config().hostname, "localhost");
}

#[test]
fn test_handle_request() {
    let mut host = HostImpl::new(settings());
    host.add_path(
        HandlerPath::builder()
            .uri("/")
            .handler(vetis::host::handler_fn(|_request| async move {
                Ok(vetis::Response::builder().status(http::StatusCode::OK).text("Hello, world!"))
            }))
            .build()
            .unwrap(),
    );
    assert_eq!(host.config().hostname, "localhost");

    let body = HttpBody::from_text("Hello, world!");
    let request = http::Request::builder().uri("/").body(body).unwrap();
    let (parts, body) = request.into_parts();
    let request = vetis::Request::from_parts(parts, body);

    let index = match host.route_plan(request.uri().path()) {
        RoutePlan::Dispatch { path, target } => {
            assert_eq!(target, "");
            path
        }
        other => panic!("unexpected route {:?}", other),
    };
    let runtime = tokio::runtime::Runtime::new().unwrap();
    let response = runtime.block_on((host.paths()[index].handler())(request)).unwrap();
    let (parts, body) = response.into_inner().into_parts();
    assert_eq!(parts.status, http::StatusCode::OK);
    let bytes = runtime.block_on(body.collect()).unwrap().to_bytes();
    assert_eq!(bytes.as_ref(), b"Hello, world!");
}

#[test]
fn builder_defaults_to_root_uri() {
    let built = HandlerPath::builder().handler(greet as Handler).build().unwrap();
    assert_eq!(built.uri(), "/");
}

#[test]
fn empty_uri_is_refused() {
    let result = HandlerPath::builder().uri("").handler(greet as Handler).build();
    assert_eq!(result.err(), Some(ServerError::Uri("URI cannot be empty".to_string())));
}

#[test]
fn missing_handler_is_refused() {
    let result = HandlerPath::<Handler>::builder().uri("/hello").build();
    assert_eq!(result.err(), Some(ServerError::Handler("Handler must be set".to_string())));
}

#[test]
fn dotdot_paths_are_forbidden() {
    let mut host = HostImpl::new(settings());
    host.add_path(path("/"));
    assert_eq!(host.route_plan("../etc/passwd"), RoutePlan::Forbidden);
    assert_eq!(host.route_plan(".."), RoutePlan::Forbidden);
}

#[test]
fn unrouted_paths_are_not_found() {
    let mut host = HostImpl::new(settings());
    host.add_path(path("/api"));
    assert_eq!(host.route_plan("/static/app.js"), RoutePlan::NotFound);
    assert_eq!(host.route_plan(".x"), RoutePlan::NotFound);
}

#[test]
fn longest_prefix_is_chosen() {
    let mut host = HostImpl::new(settings());
    host.add_path(path("/"));
    host.add_path(path("/api"));
    host.add_path(path("/api/v1"));
    assert_eq!(
        host.route_plan("/api/v1/users"),
        RoutePlan::Dispatch { path: 2, target: "/users".to_string() }
    );
    assert_eq!(host.route_plan("/api/v2"), RoutePlan::Dispatch { path: 1, target: "/v2".to_string() });
    assert_eq!(host.route_plan("/index.html"), RoutePlan::Dispatch { path: 0, target: "index.html".to_string() });
}

#[test]
fn routing_handles_non_ascii_paths() {
    let mut host = HostImpl::new(settings());
    host.add_path(path("/caf\u{e9}"));
    assert_eq!(
        host.route_plan("/caf\u{e9}/men\u{fc}"),
        RoutePlan::Dispatch { path: 0, target: "/men\u{fc}".to_string() }
    );
    assert_eq!(host.route_plan("/cafe"), RoutePlan::NotFound);
}

#[test]
fn same_uri_replaces_the_path() {
    let mut host = HostImpl::new(settings());
    host.add_path(path("/a"));
    host.add_path(path("/b"));
    host.add_path(path("/a"));
    assert_eq!(host.paths().len(), 2);
    assert_eq!(host.route_plan("/a"), RoutePlan::Dispatch { path: 0, target: String::new() });
}

#[test]
fn invalid_status_code_is_refused() {
    let host: HostImpl<HandlerPath<Handler>> = HostImpl::new(settings());
    assert_eq!(host.status_page_plan(99).err(), Some(ServerError::Interface("Invalid status code".to_string())));
    assert!(host.status_page_plan(1000).is_err());
}

#[test]
fn status_text_is_the_reason_phrase() {
    let host: HostImpl<HandlerPath<Handler>> = HostImpl::new(settings());
    let plan = host.status_page_plan(404).unwrap();
    assert_eq!(plan.status, 404);
    assert_eq!(plan.reason, "Not Found");
    assert_eq!(plan.page, None);
    let plan = host.status_page_plan(599).unwrap();
    assert_eq!(plan.reason, "Unknown status code");
}

#[test]
fn status_page_file_is_used_when_configured() {
    let mut pages = HashMap::new();
    pages.insert(404u16, "404.html".to_string());
    let host: HostImpl<HandlerPath<Handler>> =
        HostImpl::new(HostSettings { status_pages: Some(pages), ..settings() });
    let plan = host.status_page_plan(404).unwrap();
    assert_eq!(plan.page, Some(("src/tests".to_string(), "404.html".to_string())));
    assert_eq!(host.status_page_plan(500).unwrap().page, None);
}

#[test]
fn status_page_needs_a_root_directory() {
    let mut pages = HashMap::new();
    pages.insert(404u16, "404.html".to_string());
    let host: HostImpl<HandlerPath<Handler>> =
        HostImpl::new(HostSettings { status_pages: Some(pages), root_directory: None, ..settings() });
    assert_eq!(host.status_page_plan(404).unwrap().page, None);
}

#[test]
fn handler_failures_map_to_status_pages() {
    assert_eq!(failure_status(HandlerFailure::FileNotFound), Some(404));
    assert_eq!(failure_status(HandlerFailure::Proxy), Some(502));
    assert_eq!(failure_status(HandlerFailure::Auth), Some(401));
    assert_eq!(failure_status(HandlerFailure::Other), None);
}

#[test]
fn handler_errors_are_classified() {
    assert_eq!(handler_error_status(&VetisError::Host(HostError::File(FileError::NotFound))), Some(404));
    assert_eq!(handler_error_status(&VetisError::Host(HostError::Proxy("down".to_string()))), Some(502));
    assert_eq!(handler_error_status(&VetisError::Host(HostError::Auth("no".to_string()))), Some(401));
    assert_eq!(handler_error_status(&VetisError::Handler("boom".to_string())), None);
    assert_eq!(handler_error_status(&VetisError::Host(HostError::File(FileError::InvalidRange))), None);
}

#[test]
fn added_path_serves_its_own_uri() {
    let mut host = HostImpl::new(settings());
    host.add_path(path("/"));
    host.add_path(path("/api"));
    host.add_path(path("/api/v1"));
    let RoutePlan::Dispatch { path: index, target } = host.route_plan("/api/v1") else {
        panic!("the path's own URI is not routed");
    };
    assert_eq!(target, "");
    assert_eq!(host.paths()[index].uri(), "/api/v1");
}
