//! Virtual hosts: path routing and status pages.
pub mod path;
pub mod routes;
pub mod status;

use crate::config::HostSettings;
use crate::net::IpAddress;
use crate::errors::ServerError;
use crate::host::path::RoutePath;
use crate::host::routes::{no_routes, route_entries, routes_ancestor, routes_get, routes_insert, routes_new};
use crate::host::status::{canonical_reason, canonical_reason_phrase, status_code_valid};
use crate::text::{byte_prefix, lemma_byte_prefix_iff_prefix, lemma_prefix_lengths};
use vstd::prelude::*;
use vstd::string::*;

verus! {

broadcast use vstd::std_specs::hash::group_hash_axioms;

/// The URI path climbs above the root (it starts with `..`).
pub open spec fn starts_with_dotdot(s: Seq<char>) -> bool {
    s.len() >= 2 && s[0] == '.' && s[1] == '.'
}

/// Where a request for a URI path goes.
#[derive(Debug, PartialEq, Eq)]
pub enum RoutePlan {
    /// The path is refused (403).
    Forbidden,
    /// No path of the host serves it (404).
    NotFound,
    /// The path at index `path` serves it; `target` is what follows the path's prefix.
    Dispatch { path: usize, target: String },
}

/// What to answer a status code with.
#[derive(Debug, PartialEq, Eq)]
pub struct StatusPagePlan {
    /// The status code of the answer.
    pub status: u16,
    /// The text answered when no status page file is served.
    pub reason: String,
    /// The status page file to serve, as the root directory and the file name in it.
    pub page: Option<(String, String)>,
}

/// The text answered for a status code without a page file.
pub open spec fn reason_text(status: u16) -> Seq<char> {
    match canonical_reason_phrase(status) {
        Some(phrase) => phrase,
        None => "Unknown status code"@,
    }
}

/// Settings that stand in for a host's own while its paths are rebuilt.
fn placeholder_settings() -> (s: HostSettings)
    ensures
        s.hostname@ == Seq::<char>::empty(),
        s.root_directory is None,
        s.default_headers is None,
        s.security is None,
        s.status_pages is None,
        s.bind_addresses@ == Seq::<(IpAddress, u16)>::empty(),
{
    HostSettings {
        hostname: String::new(),
        root_directory: None,
        default_headers: None,
        security: None,
        status_pages: None,
        bind_addresses: Vec::new(),
    }
}

/// A virtual host: its settings and the paths it routes requests to.
pub struct HostImpl<P: RoutePath> {
    config: HostSettings,
    paths: Vec<P>,
    routes: radix_trie::Trie<String, usize>,
}

impl<P: RoutePath> HostImpl<P> {
    /// Every route prefix leads to a path with that very prefix.
    #[verifier::type_invariant]
    pub closed spec fn routes_consistent(&self) -> bool {
        forall|k: Seq<char>|
            #[trigger] route_entries(self.routes).contains_key(k) ==> route_entries(self.routes)[k]
                < self.paths.len() && self.paths@[route_entries(self.routes)[k] as int].uri_view()
                == k
    }

    /// The host's settings.
    pub closed spec fn spec_config(&self) -> HostSettings {
        self.config
    }

    /// The host's paths.
    pub closed spec fn spec_paths(&self) -> Seq<P> {
        self.paths@
    }

    /// The routing table: each URI prefix and the index of the path it leads to.
    pub closed spec fn route_map(&self) -> Map<Seq<char>, usize> {
        route_entries(self.routes)
    }

    /// The path at `path` serves the URI path `q`: its prefix is the longest
    /// routed prefix of `q`, and `target` is the rest of `q`.
    pub open spec fn dispatches(&self, q: Seq<char>, path: usize, target: Seq<char>) -> bool {
        let k = self.spec_paths()[path as int].uri_view();
        &&& path < self.spec_paths().len()
        &&& self.route_map().contains_key(k)
        &&& self.route_map()[k] == path
        &&& k.is_prefix_of(q)
        &&& forall|k2: Seq<char>|
            #[trigger] self.route_map().contains_key(k2) && k2.is_prefix_of(q) ==> k2.len() <= k.len()
        &&& target == q.skip(k.len() as int)
    }

    /// Some routed prefix is a prefix of `q`.
    pub open spec fn has_route(&self, q: Seq<char>) -> bool {
        exists|k: Seq<char>| #[trigger] self.route_map().contains_key(k) && k.is_prefix_of(q)
    }

    /// Creates a virtual host with no path.
    pub fn new(host_config: HostSettings) -> (h: Self)
        ensures
            h.spec_config() == host_config,
            h.spec_paths() == Seq::<P>::empty(),
            h.route_map() == no_routes(),
            h.routes_consistent(),
    {
        let h = HostImpl { config: host_config, paths: Vec::new(), routes: routes_new() };
        proof {
            use_type_invariant(&h);
        }
        h
    }

    /// The host's settings.
    pub fn config(&self) -> (c: &HostSettings)
        ensures
            *c == self.spec_config(),
    {
        &self.config
    }

    /// The host's paths, indexed as in the routing table.
    pub fn paths(&self) -> (p: &Vec<P>)
        ensures
            p@ == self.spec_paths(),
    {
        &self.paths
    }

    /// Adds a path; a path already routed under the same URI is replaced.
    pub fn add_path(&mut self, path: P)
        ensures
            final(self).spec_config() == old(self).spec_config(),
            final(self).routes_consistent(),
            old(self).route_map().contains_key(path.uri_view()) ==> {
                let i = old(self).route_map()[path.uri_view()];
                &&& final(self).route_map() == old(self).route_map()
                &&& final(self).spec_paths() == old(self).spec_paths().update(i as int, path)
            },
            !old(self).route_map().contains_key(path.uri_view()) ==> {
                &&& final(self).route_map() == old(self).route_map().insert(
                    path.uri_view(),
                    old(self).spec_paths().len() as usize,
                )
                &&& final(self).spec_paths() == old(self).spec_paths().push(path)
            },
    {
        proof {
            use_type_invariant(&*self);
        }
        let mut taken = HostImpl { config: placeholder_settings(), paths: Vec::new(), routes: routes_new() };
        std::mem::swap(self, &mut taken);
        let HostImpl { config, mut paths, mut routes } = taken;
        let uri = String::from_str(path.uri());
        match routes_get(&routes, uri.as_str()) {
            Some(i) => {
                paths.set(i, path);
            },
            None => {
                let i = paths.len();
                paths.push(path);
                routes_insert(&mut routes, uri, i);
            },
        }
        *self = HostImpl { config, paths, routes };
        proof {
            use_type_invariant(&*self);
        }
    }

    /// Decides where a request for `uri_path` goes: paths starting with `..`
    /// are forbidden; otherwise the path with the longest routed prefix of
    /// `uri_path` serves it, and none serves it when no routed prefix fits.
    pub fn route_plan(&self, uri_path: &str) -> (r: RoutePlan)
        ensures
            r is Forbidden <==> starts_with_dotdot(uri_path@),
            r is NotFound <==> !starts_with_dotdot(uri_path@) && !self.has_route(uri_path@),
            r matches RoutePlan::Dispatch { path, target } ==> self.dispatches(uri_path@, path, target@),
    {
        proof {
            use_type_invariant(self);
        }
        let n = uri_path.unicode_len();
        if n >= 2 && uri_path.get_char(0) == '.' && uri_path.get_char(1) == '.' {
            return RoutePlan::Forbidden;
        }
        let q = Ghost(uri_path@);
        match routes_ancestor(&self.routes, uri_path) {
            None => {
                proof {
                    assert forall|k: Seq<char>| #[trigger]
                        self.route_map().contains_key(k) && k.is_prefix_of(q@) implies false by {
                        lemma_byte_prefix_iff_prefix(k, q@);
                    }
                }
                RoutePlan::NotFound
            },
            Some(i) => {
                let ghost k = choose|k: Seq<char>|
                    route_entries(self.routes).contains_key(k) && byte_prefix(k, q@)
                        && route_entries(self.routes)[k] == i && (forall|k2: Seq<char>|
                        route_entries(self.routes).contains_key(k2) && byte_prefix(k2, q@)
                            ==> vstd::utf8::encode_utf8(k2).len() <= vstd::utf8::encode_utf8(k).len());
                proof {
                    lemma_byte_prefix_iff_prefix(k, q@);
                    assert(self.route_map().contains_key(k) && k.is_prefix_of(q@));
                    assert(self.has_route(q@));
                    assert forall|k2: Seq<char>| #[trigger]
                        self.route_map().contains_key(k2) && k2.is_prefix_of(q@) implies k2.len()
                        <= k.len() by {
                        lemma_byte_prefix_iff_prefix(k2, q@);
                        lemma_prefix_lengths(k, k2, q@);
                    }
                }
                let klen = self.paths[i].uri().unicode_len();
                let target = uri_path.substring_char(klen, n);
                let target = String::from_str(target);
                proof {
                    assert(target@ =~= q@.skip(k.len() as int));
                }
                RoutePlan::Dispatch { path: i, target }
            },
        }
    }

    /// Decides how to answer with `status`: codes outside 100..=999 are
    /// refused; otherwise the answer is the host's status page file for the
    /// code when it has one and a root directory, and the code's reason
    /// phrase (or "Unknown status code") as text.
    pub fn status_page_plan(&self, status: u16) -> (r: Result<StatusPagePlan, ServerError>)
        ensures
            r is Err <==> !(100 <= status && status <= 999),
            r matches Err(e) ==> e matches ServerError::Interface(m) && m@ == "Invalid status code"@,
            r matches Ok(plan) ==> plan.status == status && plan.reason@ == reason_text(status),
            r matches Ok(plan) ==> (plan.page is Some <==> (self.spec_config().status_pages is Some
                && self.spec_config().status_pages.unwrap()@.contains_key(status)
                && self.spec_config().root_directory is Some)),
            r matches Ok(plan) ==> (plan.page matches Some(
                page,
            ) ==> page.0@ == self.spec_config().root_directory.unwrap()@ && page.1@
                == self.spec_config().status_pages.unwrap()@[status]@),
    {
        if !status_code_valid(status) {
            return Err(ServerError::Interface(String::from_str("Invalid status code")));
        }
        let reason = match canonical_reason(status) {
            Some(phrase) => String::from_str(phrase),
            None => String::from_str("Unknown status code"),
        };
        let mut page: Option<(String, String)> = None;
        if let Some(status_pages) = &self.config.status_pages {
            if let Some(file) = status_pages.get(&status) {
                if let Some(dir) = &self.config.root_directory {
                    page = Some((dir.clone(), file.clone()));
                }
            }
        }
        Ok(StatusPagePlan { status, reason, page })
    }
}

/// A routed prefix leads to a path of the host that has that very prefix.
pub proof fn route_leads_to_its_path<P: RoutePath>(h: HostImpl<P>, k: Seq<char>)
    requires
        h.routes_consistent(),
        h.route_map().contains_key(k),
    ensures
        h.route_map()[k] < h.spec_paths().len(),
        h.spec_paths()[h.route_map()[k] as int].uri_view() == k,
{
}

/// The number of paths of a host fits in a `usize`.
pub proof fn path_count_fits<P: RoutePath>(h: HostImpl<P>)
    ensures
        h.spec_paths().len() <= usize::MAX,
{
    assert(h.paths.len() == h.paths@.len());
}

/// A prefix that is routed serves itself: a request for exactly the prefix
/// of a path goes to that path, with nothing left over.
pub proof fn routed_prefix_reaches_its_path<P: RoutePath>(h: HostImpl<P>, u: Seq<char>)
    requires
        h.routes_consistent(),
        h.route_map().contains_key(u),
        !starts_with_dotdot(u),
    ensures
        h.has_route(u),
        h.dispatches(u, h.route_map()[u], Seq::empty()),
{
    assert(u.is_prefix_of(u));
    assert(u.skip(u.len() as int) =~= Seq::<char>::empty());
}

} // verus!
