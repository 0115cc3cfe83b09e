//! The confirmation workflow.
//!
//! Visiting a confirmation link resolves the token to a subscriber and
//! promotes that subscriber to `confirmed`. A token that cannot be
//! resolved — whether it never existed or the lookup itself failed — is
//! reported to the client as an invalid token; only a failure of the
//! promotion itself is a server error. Re-confirming an already
//! confirmed subscriber succeeds: the promotion is idempotent.

use crate::domain::SubscriberId;
use crate::errors::ErrorChain;
use vstd::prelude::*;

verus! {

/// The query parameter of a confirmation request.
pub struct Token {
    pub token: String,
}

/// What can go wrong while confirming a subscription.
pub enum ConfirmError {
    /// The token could not be resolved to a subscriber; the reason keeps
    /// the rendered lookup failure. Reported as a client error.
    InvalidToken(String),
    /// The promotion to `confirmed` failed; the chain preserves every
    /// wrapped cause for the logs.
    UnexpectedError(ErrorChain),
}

impl ConfirmError {
    /// The cause chain of an unexpected error is never empty.
    pub open spec fn wf(&self) -> bool {
        self matches ConfirmError::UnexpectedError(chain) ==> chain.wf()
    }

    /// The response status the error maps to.
    pub open spec fn spec_status_code(&self) -> u16 {
        match self {
            ConfirmError::InvalidToken(_) => 400,
            ConfirmError::UnexpectedError(_) => 500,
        }
    }

    /// Maps the error to a response status: an unresolvable token is
    /// answered as a client error, anything else as a server error.
    pub fn status_code(&self) -> (status: u16)
        ensures
            status == self.spec_status_code(),
            self is InvalidToken <==> status == 400,
            self is UnexpectedError <==> status == 500,
    {
        match self {
            ConfirmError::InvalidToken(_) => 400,
            ConfirmError::UnexpectedError(_) => 500,
        }
    }
}

/// An action the embedding application must perform for the
/// confirmation workflow.
pub enum ConfirmAction {
    /// Look the token up and hand back the subscriber id it maps to.
    ResolveToken { token: String },
    /// Set the subscriber's status to `confirmed`, unconditionally; a
    /// subscriber already confirmed stays confirmed.
    MarkConfirmed { id: SubscriberId },
    /// Answer the client with this status; the workflow is over.
    Respond { status: u16 },
}

/// Where the confirmation workflow stands.
pub enum ConfirmState {
    /// Awaiting the outcome of `ResolveToken`.
    Resolving,
    /// Awaiting the outcome of `MarkConfirmed`.
    Updating { id: SubscriberId },
    /// The workflow is over.
    Finished { result: Result<(), ConfirmError> },
}

/// Starts the workflow for one confirmation request: the token is
/// handed to the store for resolution.
pub fn confirm_begin(token: Token) -> (r: (ConfirmState, ConfirmAction))
    ensures
        r.0 == ConfirmState::Resolving,
        r.1 matches ConfirmAction::ResolveToken { token: t } && t@ == token.token@,
{
    (ConfirmState::Resolving, ConfirmAction::ResolveToken { token: token.token })
}

/// Consumes the outcome of the token lookup. A resolved id is promoted
/// next; any lookup failure — unknown token or store failure alike —
/// finishes the workflow as an invalid token, answered as a client
/// error.
pub fn confirm_resolved(state: ConfirmState, outcome: Result<SubscriberId, String>) -> (r: (
    ConfirmState,
    ConfirmAction,
))
    requires
        state is Resolving,
    ensures
        outcome matches Ok(id) ==> (r.0 == (ConfirmState::Updating { id }) && r.1 == (
        ConfirmAction::MarkConfirmed { id })),
        outcome matches Err(m) ==> (r.0 matches ConfirmState::Finished { result }
            && result matches Err(e) && e matches ConfirmError::InvalidToken(reason) && reason@
            == m@ && r.1 == (ConfirmAction::Respond { status: 400u16 })),
{
    match outcome {
        Ok(id) => (ConfirmState::Updating { id }, ConfirmAction::MarkConfirmed { id }),
        Err(m) => {
            let state = ConfirmState::Finished { result: Err(ConfirmError::InvalidToken(m)) };
            (state, ConfirmAction::Respond { status: 400 })
        },
    }
}

/// Consumes the outcome of the promotion. Success finishes the workflow
/// with a plain success response — also when the subscriber was already
/// confirmed, which the unconditional update treats the same; a failure
/// is wrapped with its step context and answered as a server error.
pub fn confirm_updated(state: ConfirmState, outcome: Result<(), String>) -> (r: (
    ConfirmState,
    ConfirmAction,
))
    requires
        state is Updating,
    ensures
        outcome is Ok ==> (r.0 == (ConfirmState::Finished { result: Ok(()) }) && r.1 == (
        ConfirmAction::Respond { status: 200u16 })),
        outcome matches Err(m) ==> (r.0 matches ConfirmState::Finished { result }
            && result matches Err(e) && e matches ConfirmError::UnexpectedError(chain) && chain@
            == seq!["Failed to update subscriber"@, m@] && r.1 == (ConfirmAction::Respond {
            status: 500u16,
        })),
{
    match outcome {
        Ok(_) => (
            ConfirmState::Finished { result: Ok(()) },
            ConfirmAction::Respond { status: 200 },
        ),
        Err(m) => {
            let chain = ErrorChain::new(m).context(String::from_str(
                "Failed to update subscriber",
            ));
            proof {
                assert(chain@ =~= seq!["Failed to update subscriber"@, outcome->Err_0@]);
            }
            let state = ConfirmState::Finished { result: Err(ConfirmError::UnexpectedError(chain)) };
            (state, ConfirmAction::Respond { status: 500 })
        },
    }
}

} // verus!
