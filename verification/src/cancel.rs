//! The cancellation signal that a manager raises when it shuts down.
use tokio_util::sync::CancellationToken;
use vstd::prelude::*;

verus! {

/// `tokio_util::sync::CancellationToken`, carried through as an opaque value.
#[verifier::external_type_specification]
#[verifier::external_body]
pub struct ExCancellationToken(tokio_util::sync::CancellationToken);

/// Whether cancellation has been requested through `token`, which
/// `CancellationToken::is_cancelled` then reports for good: a token is never
/// taken back out of the cancelled state.
pub uninterp spec fn cancel_requested(token: CancellationToken) -> bool;

/// `CancellationToken::new` makes a token in the non-cancelled state.
pub assume_specification[ CancellationToken::new ]() -> (token: CancellationToken)
    ensures
        !cancel_requested(token),
;

/// `CancellationToken::cancel`: when the call returns, the token is
/// cancelled. The token is taken by `&mut` here so that its state before and
/// after the call can be told apart.
#[verifier::external_body]
pub(crate) fn request_cancel(token: &mut CancellationToken)
    ensures
        cancel_requested(*final(token)),
{
    token.cancel()
}

} // verus!
