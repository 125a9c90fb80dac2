//! Paths a host routes requests to.
use crate::errors::ServerError;
use vstd::prelude::*;
use vstd::string::*;

verus! {

/// Something a host can route requests to: it is reached through its URI prefix.
pub trait RoutePath {
    /// The URI prefix of the path.
    spec fn uri_view(&self) -> Seq<char>;

    /// The URI prefix of the path.
    fn uri(&self) -> (r: &str)
        ensures
            r@ == self.uri_view(),
    ;
}

/// Builder for handler path
pub struct HandlerPathBuilder<H> {
    uri: String,
    handler: Option<H>,
}

impl<H> HandlerPathBuilder<H> {
    /// The URI the built path will have.
    pub closed spec fn spec_uri(&self) -> Seq<char> {
        self.uri@
    }

    /// The handler the built path will call, if one was set.
    pub closed spec fn spec_handler(&self) -> Option<H> {
        self.handler
    }

    /// Sets the URI of the handler path.
    pub fn uri(self, uri: &str) -> (r: Self)
        ensures
            r.spec_uri() == uri@,
            r.spec_handler() == self.spec_handler(),
    {
        HandlerPathBuilder { uri: String::from_str(uri), handler: self.handler }
    }

    /// Sets the handler function.
    pub fn handler(self, handler: H) -> (r: Self)
        ensures
            r.spec_uri() == self.spec_uri(),
            r.spec_handler() == Some(handler),
    {
        HandlerPathBuilder { uri: self.uri, handler: Some(handler) }
    }

    /// Builds the handler path: the URI must not be empty and a handler must be set.
    pub fn build(self) -> (r: Result<HandlerPath<H>, ServerError>)
        ensures
            self.spec_uri().len() == 0 <==> r matches Err(ServerError::Uri(_)),
            r matches Err(ServerError::Uri(m)) ==> m@ == "URI cannot be empty"@,
            (self.spec_uri().len() > 0 && self.spec_handler() is None) <==> r matches Err(
                ServerError::Handler(_),
            ),
            r matches Err(ServerError::Handler(m)) ==> m@ == "Handler must be set"@,
            r is Ok <==> (self.spec_uri().len() > 0 && self.spec_handler() is Some),
            r matches Ok(p) ==> p.uri_view() == self.spec_uri() && self.spec_handler() == Some(
                p.spec_handler(),
            ),
    {
        if self.uri.unicode_len() == 0 {
            return Err(ServerError::Uri(String::from_str("URI cannot be empty")));
        }
        match self.handler {
            Some(handler) => Ok(HandlerPath { uri: self.uri, handler }),
            None => Err(ServerError::Handler(String::from_str("Handler must be set"))),
        }
    }
}

/// A path that answers requests with a handler function.
pub struct HandlerPath<H> {
    uri: String,
    handler: H,
}

impl<H> HandlerPath<H> {
    /// The handler the path calls.
    pub closed spec fn spec_handler(&self) -> H {
        self.handler
    }

    /// Starts building a handler path; its URI is `/` until set.
    pub fn builder() -> (b: HandlerPathBuilder<H>)
        ensures
            b.spec_uri() == "/"@,
            b.spec_handler() is None,
    {
        HandlerPathBuilder { uri: String::from_str("/"), handler: None }
    }

    /// The handler the path calls.
    pub fn handler(&self) -> (h: &H)
        ensures
            *h == self.spec_handler(),
    {
        &self.handler
    }
}

impl<H> RoutePath for HandlerPath<H> {
    closed spec fn uri_view(&self) -> Seq<char> {
        self.uri@
    }

    fn uri(&self) -> (r: &str) {
        self.uri.as_str()
    }
}

} // verus!
