//! HTTP status codes: validity, reason phrases, and the status a failed
//! handler is answered with.
use vetis::errors::{ConfigError, FileError, HandlerError, HostError, ListenerError, StartError, VetisError};
use vstd::prelude::*;

verus! {

/// The standard reason phrase `http` knows for a status code, if any.
pub uninterp spec fn canonical_reason_phrase(code: u16) -> Option<Seq<char>>;

/// `http::StatusCode::from_u16` succeeds exactly on the codes 100 to 999.
#[verifier::external_body]
pub(crate) fn status_code_valid(code: u16) -> (r: bool)
    ensures
        r == (100 <= code && code <= 999),
{
    http::StatusCode::from_u16(code).is_ok()
}

/// `http::StatusCode::canonical_reason` of the status code `code`.
#[verifier::external_body]
pub(crate) fn canonical_reason(code: u16) -> (r: Option<&'static str>)
    requires
        100 <= code <= 999,
    ensures
        r is Some <==> canonical_reason_phrase(code) is Some,
        r matches Some(s) ==> canonical_reason_phrase(code) == Some(s@),
{
    match http::StatusCode::from_u16(code) {
        Ok(status) => status.canonical_reason(),
        Err(_) => None,
    }
}

#[verifier::external_type_specification]
pub struct ExVetisError(VetisError);

#[verifier::external_type_specification]
pub struct ExConfigError(ConfigError);

#[verifier::external_type_specification]
pub struct ExStartError(StartError);

#[verifier::external_type_specification]
pub struct ExListenerError(ListenerError);

#[verifier::external_type_specification]
pub struct ExHostError(HostError);

#[verifier::external_type_specification]
pub struct ExHandlerError(HandlerError);

#[verifier::external_type_specification]
pub struct ExFileError(FileError);

/// How a path's handler failed, as far as choosing a status page goes.
#[derive(Debug, PartialEq, Eq, Structural)]
pub enum HandlerFailure {
    /// The requested file does not exist.
    FileNotFound,
    /// The upstream of a proxy failed.
    Proxy,
    /// The request was not authenticated.
    Auth,
    /// Any other failure.
    Other,
}

/// The kind of failure a handler error is, as far as choosing a status page goes.
pub open spec fn failure_of(e: VetisError) -> HandlerFailure {
    match e {
        VetisError::Host(HostError::File(FileError::NotFound)) => HandlerFailure::FileNotFound,
        VetisError::Host(HostError::Proxy(_)) => HandlerFailure::Proxy,
        VetisError::Host(HostError::Auth(_)) => HandlerFailure::Auth,
        _ => HandlerFailure::Other,
    }
}

/// The kind of failure a handler error is.
pub fn classify_handler_error(e: &VetisError) -> (f: HandlerFailure)
    ensures
        f == failure_of(*e),
{
    match e {
        VetisError::Host(HostError::File(FileError::NotFound)) => HandlerFailure::FileNotFound,
        VetisError::Host(HostError::Proxy(_)) => HandlerFailure::Proxy,
        VetisError::Host(HostError::Auth(_)) => HandlerFailure::Auth,
        _ => HandlerFailure::Other,
    }
}

/// The status page served in place of a failed handler's answer; `None`
/// when the failure is passed on to the caller.
pub open spec fn failure_status_spec(f: HandlerFailure) -> Option<u16> {
    match f {
        HandlerFailure::FileNotFound => Some(404u16),
        HandlerFailure::Proxy => Some(502u16),
        HandlerFailure::Auth => Some(401u16),
        HandlerFailure::Other => None,
    }
}

/// The status page served in place of a failed handler's answer.
pub fn failure_status(f: HandlerFailure) -> (r: Option<u16>)
    ensures
        r == failure_status_spec(f),
{
    match f {
        HandlerFailure::FileNotFound => Some(404),
        HandlerFailure::Proxy => Some(502),
        HandlerFailure::Auth => Some(401),
        HandlerFailure::Other => None,
    }
}

/// The status page served in place of the answer of a handler that failed
/// with `e`: not found (404), bad gateway (502), unauthorized (401), or
/// `None` when the error is passed on.
pub fn handler_error_status(e: &VetisError) -> (r: Option<u16>)
    ensures
        r == failure_status_spec(failure_of(*e)),
{
    failure_status(classify_handler_error(e))
}

} // verus!
