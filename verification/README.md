# vetis_tokio

A very tiny HTTP server on the Tokio runtime: virtual hosts with prefix
routing, listeners per transport (TCP for HTTP/1.1 and HTTP/2, QUIC for
HTTP/3), TLS with one certificate per host name, and status pages.

The decisions the server takes are written in Verus and proved against
their contracts; the sockets, the async tasks and the file reads run around
them.

## Layout

- `src/` — the verified library.
  - `host/` — virtual hosts: the routing table (`routes.rs`, over a
    `radix_trie` trie), handler paths (`path.rs`), status codes and the
    status page a failed handler is answered with (`status.rs`), and the
    routing and status-page decisions (`mod.rs`).
  - `listener/` — the listeners of each transport and the table of hosts
    they serve (`table.rs`, over a `papaya` concurrent map, with the
    snapshots of it that connection tasks read), which listeners
    a configuration builds, and the ALPN protocols each transport offers.
  - `worker/` — per-connection decisions: TLS or plain, which HTTP service
    serves a negotiated protocol, which host a request goes to, and which
    default headers are added to its response.
  - `tls.rs` — the TLS plan of a listener (the certificate chain and key
    served for each host name, the ALPN protocols, the early-data limit)
    and the `rustls` server configuration built from it.
  - `rt.rs` — the server and its builder: registering hosts with the
    listeners bound to their addresses, starting and stopping.
  - `properties.rs` — laws relating several operations (routing is
    deterministic and prefers the longest prefix, what registering and
    removing a host does to a listener's table, which protocols each
    transport offers).
  - `net.rs`, `config.rs`, `text.rs`, `errors.rs`, `runtime.rs` — plain
    descriptions of addresses, protocols and settings, text helpers, errors,
    and runtime handles.
- `app/` — the `vetis` program: configuration file, logging, the Tokio
  runtime, sockets, TLS handshakes, HTTP/1.1, HTTP/2 and HTTP/3 connections,
  and status page files.
- `tests/` — tests of the library on concrete values.
