//! Cooperative cancellation, polled at traversal checkpoints.
//!
//! The token comes from the `cancellation` crate; other threads may mark it
//! as canceled at any moment, so a poll's outcome depends on more than its
//! arguments and nothing is promised of it.  Every traversal states what
//! holds of its result whatever the polls returned.

use vstd::prelude::*;

verus! {

#[verifier::external_type_specification]
#[verifier::external_body]
pub struct ExCancellationToken(cancellation::CancellationToken);

/// Relies on `cancellation::CancellationToken::is_canceled`: reads a shared
/// atomic flag that another thread may set at any time, so no two polls need
/// agree and nothing can be stated of the result.
#[verifier::external_body]
pub(crate) fn poll_canceled(token: &cancellation::CancellationToken) -> bool {
    token.is_canceled()
}

} // verus!
