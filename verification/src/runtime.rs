//! Runtime handles that listeners keep between starting and stopping.
use vstd::prelude::*;

verus! {

#[verifier::external_type_specification]
#[verifier::external_body]
pub struct ExCancellationToken(tokio_util::sync::CancellationToken);

#[verifier::external_type_specification]
#[verifier::external_body]
pub struct ExTokioTcpSocket(tokio::net::TcpSocket);

#[verifier::external_type_specification]
#[verifier::external_body]
pub struct ExQuicEndpoint(quinn::Endpoint);

/// `tokio_util::sync::CancellationToken::cancel`: signals every task that
/// waits on the token (or on one of its children) to stop.
#[verifier::external_body]
pub(crate) fn cancel_token(token: &tokio_util::sync::CancellationToken) {
    token.cancel();
}

/// `tokio_util::sync::CancellationToken::child_token`: a token that is
/// cancelled whenever `token` is (and may also be cancelled on its own).
#[verifier::external_body]
pub(crate) fn child_token(token: &tokio_util::sync::CancellationToken) -> tokio_util::sync::CancellationToken {
    token.child_token()
}

} // verus!
