//! HTTP/3 connection handling: choosing the host of a request and the
//! headers added to its response.
use crate::listener::table::SharedHosts;
use crate::net::IpAddress;
use tokio_util::sync::CancellationToken;
use vstd::prelude::*;
use vstd::string::*;
use vstd::utf8::encode_utf8;

verus! {

/// A byte `http::HeaderName` accepts in a name: a token character of
/// HTTP (letters, digits and ``!#$%&'*+-.^_`|~``).
pub open spec fn header_name_byte(b: u8) -> bool {
    ||| b == 33
    ||| 35 <= b <= 39
    ||| b == 42 || b == 43 || b == 45 || b == 46
    ||| 48 <= b <= 57
    ||| 65 <= b <= 90
    ||| 94 <= b <= 122
    ||| b == 124 || b == 126
}

/// `http::HeaderName::from_bytes` accepts the bytes as a header name: from
/// 1 to 65535 bytes, each a token character.
pub open spec fn header_name_accepted(name: Seq<u8>) -> bool {
    &&& 1 <= name.len() <= 65535
    &&& forall|i: int| 0 <= i < name.len() ==> header_name_byte(#[trigger] name[i])
}

/// A byte `http::HeaderValue` accepts: visible ASCII and any byte above it
/// except DEL, or a horizontal tab.
pub open spec fn header_value_byte(b: u8) -> bool {
    (b >= 32 && b != 127) || b == 9
}

/// `http::HeaderValue::from_str` accepts the text as a header value.
pub open spec fn header_value_accepted(value: Seq<char>) -> bool {
    forall|i: int| 0 <= i < encode_utf8(value).len() ==> header_value_byte(#[trigger] encode_utf8(value)[i])
}

/// `http::HeaderName::from_bytes` on the UTF-8 bytes of `name` succeeds.
#[verifier::external_body]
fn header_name_valid(name: &str) -> (r: bool)
    ensures
        r == header_name_accepted(encode_utf8(name@)),
{
    http::HeaderName::from_bytes(name.as_bytes()).is_ok()
}

/// `http::HeaderValue::from_str` succeeds.
#[verifier::external_body]
fn header_value_valid(value: &str) -> (r: bool)
    ensures
        r == header_value_accepted(value@),
{
    http::HeaderValue::from_str(value).is_ok()
}

/// Serves HTTP/3 connections accepted by a QUIC endpoint.
pub struct Builder {}

impl Builder {
    /// Creates a connection builder.
    pub fn new() -> (b: Self)
        ensures
            b == (Builder {}),
    {
        Builder {}
    }
}

/// Serves one QUIC connection.
pub struct UdpWorker {
    hosts: SharedHosts,
    token: CancellationToken,
}

impl UdpWorker {
    /// The handle on the hosts the worker routes to.
    pub closed spec fn spec_hosts(&self) -> SharedHosts {
        self.hosts
    }

    /// The token whose cancellation stops the worker.
    pub closed spec fn spec_token(&self) -> CancellationToken {
        self.token
    }

    /// Creates a worker.
    pub fn new(hosts: SharedHosts, token: CancellationToken) -> (w: Self)
        ensures
            w.spec_hosts() == hosts,
            w.spec_token() == token,
    {
        UdpWorker { hosts, token }
    }

    /// A handle on the host table.
    pub fn hosts_handle(&self) -> (h: SharedHosts)
        ensures
            h == self.spec_hosts(),
    {
        self.hosts.clone()
    }

    /// The token whose cancellation stops the worker.
    pub fn token(&self) -> (t: &CancellationToken)
        ensures
            *t == self.spec_token(),
    {
        &self.token
    }
}

/// What to do with a request.
#[derive(Debug, PartialEq, Eq)]
pub enum ServiceDecision {
    /// Answer at once with this status and text.
    Reply { status: u16, text: String },
    /// Route the request through the host with this index.
    Route { host: usize },
}

/// What to do with a request, with the reply's text as characters.
pub enum ServiceDecisionView {
    /// Answer at once with this status and text.
    Reply { status: u16, text: Seq<char> },
    /// Route the request through the host with this index.
    Route { host: usize },
}

impl View for ServiceDecision {
    type V = ServiceDecisionView;

    open spec fn view(&self) -> ServiceDecisionView {
        match self {
            ServiceDecision::Reply { status, text } => ServiceDecisionView::Reply { status: *status, text: text@ },
            ServiceDecision::Route { host } => ServiceDecisionView::Route { host: *host },
        }
    }
}

/// `d` answers at once with `status` and `text`.
pub open spec fn replies(d: ServiceDecision, status: u16, text: Seq<char>) -> bool {
    match d {
        ServiceDecision::Reply { status: s, text: t } => s == status && t@ == text,
        ServiceDecision::Route { .. } => false,
    }
}

/// What is done with a request whose authority is `authority`, with the
/// hosts `entries`.
pub open spec fn decision_for(authority: Option<Seq<char>>, entries: Map<Seq<char>, usize>) -> ServiceDecisionView {
    match authority {
        None => ServiceDecisionView::Reply { status: 400, text: "No hostname found in request"@ },
        Some(a) => if entries.contains_key(a) {
            ServiceDecisionView::Route { host: entries[a] }
        } else {
            ServiceDecisionView::Reply { status: 400, text: "Host not found"@ }
        },
    }
}

/// Decides what to do with a request given its authority (`host:port`) and
/// the host the table holds under it: a request without authority, or for
/// an authority no host is served under, is answered 400 at once.
pub fn decide_with(authority: Option<&str>, found: Option<usize>) -> (r: ServiceDecision)
    ensures
        authority is None ==> replies(r, 400, "No hostname found in request"@),
        authority is Some && found is None ==> replies(r, 400, "Host not found"@),
        authority is Some && found is Some ==> r == (ServiceDecision::Route { host: found.unwrap() }),
{
    match authority {
        None => ServiceDecision::Reply {
            status: 400,
            text: String::from_str("No hostname found in request"),
        },
        Some(_) => match found {
            Some(host) => ServiceDecision::Route { host },
            None => ServiceDecision::Reply { status: 400, text: String::from_str("Host not found") },
        },
    }
}

/// Processes HTTP/3 client requests for the hosts of a listener.
pub struct HttpService {
    hosts: SharedHosts,
    client_addr: (IpAddress, u16),
}

impl HttpService {
    /// The snapshot of the host table requests are routed with.
    pub closed spec fn spec_hosts(&self) -> SharedHosts {
        self.hosts
    }

    /// The address of the client.
    pub closed spec fn spec_client_addr(&self) -> (IpAddress, u16) {
        self.client_addr
    }

    /// Create a new HttpService
    pub fn new(hosts: SharedHosts, client_addr: (IpAddress, u16)) -> (s: Self)
        ensures
            s.spec_hosts() == hosts,
            s.spec_client_addr() == client_addr,
    {
        HttpService { hosts, client_addr }
    }

    /// The address of the client, for the access log.
    pub fn client_addr(&self) -> (a: (IpAddress, u16))
        ensures
            a == self.spec_client_addr(),
    {
        self.client_addr
    }

    /// Chooses the host of a request from its authority (`host:port`), looked
    /// up in the snapshot of the listener's table: a request without
    /// authority, or for an authority no host is served under, is answered
    /// 400 at once.
    pub fn decide(&self, authority: Option<&str>) -> (r: ServiceDecision)
        ensures
            r@ == decision_for(
                match authority {
                    Some(a) => Some(a@),
                    None => None,
                },
                self.spec_hosts().entries(),
            ),
    {
        match authority {
            None => decide_with(None, None),
            Some(a) => {
                let found = self.hosts.lookup(a);
                decide_with(Some(a), found)
            },
        }
    }
}

/// The answer to a request whose host failed to route it: 500.
pub fn route_failure_reply() -> (r: ServiceDecision)
    ensures
        replies(r, 500, "Internal server error"@),
{
    ServiceDecision::Reply { status: 500, text: String::from_str("Internal server error") }
}

/// The default headers `http` accepts, in order.
pub open spec fn accepted_headers(h: Seq<(String, String)>) -> Seq<(Seq<char>, Seq<char>)>
    decreases h.len(),
{
    if h.len() == 0 {
        seq![]
    } else {
        let rest = accepted_headers(h.drop_last());
        let (k, v) = h.last();
        if header_name_accepted(encode_utf8(k@)) && header_value_accepted(v@) {
            rest.push((k@, v@))
        } else {
            rest
        }
    }
}

/// The text of each header pair.
pub open spec fn header_texts(h: Seq<(String, String)>) -> Seq<(Seq<char>, Seq<char>)> {
    h.map_values(|p: (String, String)| (p.0@, p.1@))
}

/// The default headers of a host to add to a response, in order: pairs with
/// an invalid name or value are skipped.
pub fn default_headers_to_apply(defaults: &Option<Vec<(String, String)>>) -> (r: Vec<(String, String)>)
    ensures
        header_texts(r@) == (match defaults {
            Some(h) => accepted_headers(h@),
            None => Seq::empty(),
        }),
{
    let mut out: Vec<(String, String)> = Vec::new();
    match defaults {
        None => {
            assert(header_texts(out@) =~= Seq::<(Seq<char>, Seq<char>)>::empty());
            out
        },
        Some(h) => {
            let n = h.len();
            for i in 0..n
                invariant
                    n == h@.len(),
                    header_texts(out@) == accepted_headers(h@.take(i as int)),
            {
                let (k, v) = &h[i];
                assert(h@.take(i + 1).drop_last() =~= h@.take(i as int));
                if header_name_valid(k.as_str()) && header_value_valid(v.as_str()) {
                    let ghost before = out@;
                    out.push((k.clone(), v.clone()));
                    assert(header_texts(out@) =~= header_texts(before).push((k@, v@)));
                }
            }
            assert(h@.take(n as int) =~= h@);
            out
        },
    }
}

/// What a request is answered with once its host has routed it.
#[derive(Debug, PartialEq, Eq)]
pub enum ResponsePlan {
    /// Answer with this status and text in place of the host's response.
    Reply { status: u16, text: String },
    /// Send the host's response with these headers added, in order.
    Respond { headers: Vec<(String, String)> },
}

/// The answer to a request once its host has routed it: when routing
/// failed, 500 with "Internal server error"; otherwise the host's response
/// with the host's default headers that `http` accepts. Either way the
/// request is answered.
pub fn after_route(routed: bool, defaults: &Option<Vec<(String, String)>>) -> (r: ResponsePlan)
    ensures
        !routed ==> (r matches ResponsePlan::Reply { status, text } && status == 500 && text@
            == "Internal server error"@),
        routed ==> (r matches ResponsePlan::Respond { headers } && header_texts(headers@) == (match defaults {
            Some(h) => accepted_headers(h@),
            None => Seq::empty(),
        })),
{
    if routed {
        ResponsePlan::Respond { headers: default_headers_to_apply(defaults) }
    } else {
        ResponsePlan::Reply { status: 500, text: String::from_str("Internal server error") }
    }
}

} // verus!
