//! The subscription workflow.
//!
//! Handling one subscription request is a short protocol with the
//! persistence and notification collaborators: validate the input, open
//! a transaction, insert the pending subscriber, store the confirmation
//! token, commit, then send the confirmation message. Each step can
//! fail, and any failure halts the workflow at that point.
//!
//! The decisions live here as a verified state machine: from a state and
//! the outcome of the last action it yields the next state and the next
//! action. The embedding application performs the actions (the database
//! writes, the outbound send) and feeds the outcomes back. Validation
//! happens before any action is issued, the subscriber insert and the
//! token store are issued only inside the one transaction, and the
//! commit is issued only after both have succeeded.

use crate::domain::email_ok;
use crate::domain::spec_trim;
use crate::domain::valid_name_input;
use crate::domain::NewSubscriber;
use crate::domain::SubscriberEmail;
use crate::domain::SubscriberId;
use crate::domain::SubscriberName;
use crate::email::confirmation_email;
use crate::email::is_confirmation_email;
use crate::email::EmailMessage;
use crate::errors::ErrorChain;
use crate::token::generate_subscription_token;
use crate::token::valid_token;
use vstd::prelude::*;

verus! {

/// The raw form fields of a subscription request, as decoded at the
/// HTTP boundary.
pub struct FormData {
    pub name: String,
    pub email: String,
}

impl NewSubscriber {
    /// Validates raw form data into a new subscriber. The email address
    /// is checked first, then the name; the first rejection is returned.
    pub fn try_from(form: FormData) -> (r: Result<NewSubscriber, String>)
        ensures
            r is Ok <==> email_ok(form.email@) && valid_name_input(form.name@),
            r matches Ok(s) ==> s.email@ == form.email@ && s.name@ == spec_trim(form.name@)
                && s.wf(),
            !email_ok(form.email@) ==> (r matches Err(m) && m@ == "Invalid email: "@
                + form.email@),
            email_ok(form.email@) && !valid_name_input(form.name@) ==> (r matches Err(m) && m@
                == form.name@ + " is not a valid subscriber name."@),
    {
        let FormData { name, email } = form;
        let email = match SubscriberEmail::parse(email) {
            Ok(e) => e,
            Err(m) => {
                return Err(m);
            },
        };
        let name = match SubscriberName::parse(name) {
            Ok(n) => n,
            Err(m) => {
                return Err(m);
            },
        };
        Ok(NewSubscriber { name, email })
    }
}

/// A failure of the token-store step. It is distinguished from other
/// database failures so that a token-specific diagnostic joins the
/// cause chain, though it surfaces to the client identically.
pub struct StoreTokenError {
    cause: String,
}

impl View for StoreTokenError {
    type V = Seq<char>;

    closed spec fn view(&self) -> Seq<char> {
        self.cause@
    }
}

impl StoreTokenError {
    /// Wraps the rendered database error behind a token-store failure.
    pub fn new(cause: String) -> (r: StoreTokenError)
        ensures
            r@ == cause@,
    {
        StoreTokenError { cause }
    }

    /// The diagnostic attached to every token-store failure.
    pub fn message() -> (m: String)
        ensures
            m@
                == "A database error was encountered while trying to store a subscription token."@,
    {
        String::from_str(
            "A database error was encountered while trying to store a subscription token.",
        )
    }

    /// The failure as a cause chain: the token-store diagnostic on top
    /// of the underlying database error.
    pub fn into_chain(self) -> (r: ErrorChain)
        ensures
            r@
                == seq![
                "A database error was encountered while trying to store a subscription token."@,
                self@,
            ],
            r.wf(),
    {
        let r = ErrorChain::new(self.cause).context(Self::message());
        proof {
            assert(r@ =~= seq![
                "A database error was encountered while trying to store a subscription token."@,
                self@,
            ]);
        }
        r
    }
}

/// What can go wrong while handling a subscription request: the client
/// sent invalid data, or a collaborator failed.
pub enum SubscribeError {
    /// The submitted form data was rejected by validation; the reason
    /// names the offending field. Client-caused.
    ValidationError(String),
    /// A collaborator failed after validation; the chain preserves every
    /// wrapped cause for the logs and leaks nothing to the client.
    UnexpectedError(ErrorChain),
}

impl SubscribeError {
    /// The cause chain of an unexpected error is never empty.
    pub open spec fn wf(&self) -> bool {
        self matches SubscribeError::UnexpectedError(chain) ==> chain.wf()
    }

    /// The response status the error maps to.
    pub open spec fn spec_status_code(&self) -> u16 {
        match self {
            SubscribeError::ValidationError(_) => 400,
            SubscribeError::UnexpectedError(_) => 500,
        }
    }

    /// Maps the error to a response status: a validation failure is the
    /// client's fault, anything else is a server error.
    pub fn status_code(&self) -> (status: u16)
        ensures
            status == self.spec_status_code(),
            self is ValidationError <==> status == 400,
            self is UnexpectedError <==> status == 500,
    {
        match self {
            SubscribeError::ValidationError(_) => 400,
            SubscribeError::UnexpectedError(_) => 500,
        }
    }
}

/// Everything the workflow carries between steps: the validated
/// subscriber, the generated identifier and token, and the base URL the
/// confirmation link will embed.
pub struct PendingSubscription {
    pub subscriber: NewSubscriber,
    pub id: SubscriberId,
    pub token: String,
    pub base_url: String,
}

impl PendingSubscription {
    /// The subscriber was validated and the token is well-formed.
    pub open spec fn wf(&self) -> bool {
        self.subscriber.wf() && valid_token(self.token@)
    }
}

/// An action the embedding application must perform for the workflow.
/// The database actions between `OpenTransaction` and `Commit` belong to
/// the one transaction opened for this request.
pub enum SubscribeAction {
    /// Open a database transaction.
    OpenTransaction,
    /// Insert the subscriber row, with status `pending_confirmation` and
    /// the insertion time, inside the open transaction.
    InsertSubscriber { id: SubscriberId, name: String, email: String },
    /// Insert the token row mapping the token to the subscriber, inside
    /// the open transaction.
    StoreToken { id: SubscriberId, token: String },
    /// Commit the open transaction.
    Commit,
    /// Send the confirmation message. The subscriber is durably pending
    /// by now, whatever this action's outcome.
    SendEmail { message: EmailMessage },
    /// Answer the client with this status; the workflow is over.
    Respond { status: u16 },
}

/// Where the workflow stands: which action it awaits the outcome of, or
/// the result it finished with.
pub enum SubscribeState {
    /// Awaiting the outcome of `OpenTransaction`.
    OpeningTransaction { pending: PendingSubscription },
    /// Awaiting the outcome of `InsertSubscriber`.
    Inserting { pending: PendingSubscription },
    /// Awaiting the outcome of `StoreToken`.
    StoringToken { pending: PendingSubscription },
    /// Awaiting the outcome of `Commit`.
    Committing { pending: PendingSubscription },
    /// Awaiting the outcome of `SendEmail`.
    Sending { pending: PendingSubscription },
    /// The workflow is over; only `Respond` is ever issued again.
    Finished { result: Result<(), SubscribeError> },
}

impl SubscribeState {
    /// The data carried between steps is well-formed throughout.
    pub open spec fn wf(&self) -> bool {
        match self {
            SubscribeState::OpeningTransaction { pending } => pending.wf(),
            SubscribeState::Inserting { pending } => pending.wf(),
            SubscribeState::StoringToken { pending } => pending.wf(),
            SubscribeState::Committing { pending } => pending.wf(),
            SubscribeState::Sending { pending } => pending.wf(),
            SubscribeState::Finished { result } => result matches Err(e) ==> e.wf(),
        }
    }
}

/// The status a finished workflow answers with.
pub open spec fn spec_response_status(result: Result<(), SubscribeError>) -> u16 {
    match result {
        Ok(_) => 200,
        Err(e) => e.spec_status_code(),
    }
}

/// The workflow halted with an unexpected error carrying exactly these
/// messages, and answers with a server error.
pub open spec fn subscribe_failure(
    next: SubscribeState,
    action: SubscribeAction,
    messages: Seq<Seq<char>>,
) -> bool {
    &&& next matches SubscribeState::Finished { result } && result matches Err(e)
        && e matches SubscribeError::UnexpectedError(chain) && chain@ == messages
    &&& action == (SubscribeAction::Respond { status: 500u16 })
}

/// The transition relation of the subscription workflow: from the state
/// and the outcome of the awaited action to the next state and the next
/// action. A failure of any step halts the workflow with a cause chain
/// naming the step; success advances it. The `Finished` state is
/// absorbing.
pub open spec fn subscribe_transition(
    state: SubscribeState,
    outcome: Result<(), String>,
    next: SubscribeState,
    action: SubscribeAction,
) -> bool {
    match state {
        SubscribeState::OpeningTransaction { pending } => match outcome {
            Ok(_) => {
                &&& next == (SubscribeState::Inserting { pending })
                &&& action matches SubscribeAction::InsertSubscriber { id, name, email }
                    && id == pending.id && name@ == pending.subscriber.name@ && email@
                    == pending.subscriber.email@
            },
            Err(m) => subscribe_failure(
                next,
                action,
                seq!["Failed to acquire a Postgres connection from the pool"@, m@],
            ),
        },
        SubscribeState::Inserting { pending } => match outcome {
            Ok(_) => {
                &&& next == (SubscribeState::StoringToken { pending })
                &&& action matches SubscribeAction::StoreToken { id, token } && id == pending.id
                    && token@ == pending.token@
            },
            Err(m) => subscribe_failure(
                next,
                action,
                seq!["Failed to insert new subscriber in the database."@, m@],
            ),
        },
        SubscribeState::StoringToken { pending } => match outcome {
            Ok(_) => {
                &&& next == (SubscribeState::Committing { pending })
                &&& action == SubscribeAction::Commit
            },
            Err(m) => subscribe_failure(
                next,
                action,
                seq![
                    "Failed to store the confirmation token for a new subscriber."@,
                    "A database error was encountered while trying to store a subscription token."@,
                    m@,
                ],
            ),
        },
        SubscribeState::Committing { pending } => match outcome {
            Ok(_) => {
                &&& next == (SubscribeState::Sending { pending })
                &&& action matches SubscribeAction::SendEmail { message }
                    && is_confirmation_email(
                    message,
                    pending.subscriber.email@,
                    pending.base_url@,
                    pending.token@,
                )
            },
            Err(m) => subscribe_failure(
                next,
                action,
                seq!["Failed to commit SQL transaction to store a new subscriber."@, m@],
            ),
        },
        SubscribeState::Sending { pending } => match outcome {
            Ok(_) => {
                &&& next == (SubscribeState::Finished { result: Ok(()) })
                &&& action == (SubscribeAction::Respond { status: 200u16 })
            },
            Err(m) => subscribe_failure(
                next,
                action,
                seq!["Failed to send a confirmation email."@, m@],
            ),
        },
        SubscribeState::Finished { result } => {
            &&& next == (SubscribeState::Finished { result })
            &&& action == (SubscribeAction::Respond { status: spec_response_status(result) })
        },
    }
}

/// Starts the workflow for one subscription request. Invalid form data
/// finishes the workflow at once with a client error and no action other
/// than the response is ever issued for it; valid data yields a fresh
/// identifier and token and asks for a transaction.
pub fn subscribe_begin(form: FormData, base_url: String) -> (r: (SubscribeState, SubscribeAction))
    ensures
        r.0.wf(),
        email_ok(form.email@) && valid_name_input(form.name@) ==> (r.0 matches
        SubscribeState::OpeningTransaction { pending }
            && pending.subscriber.email@ == form.email@
            && pending.subscriber.name@ == spec_trim(form.name@)
            && pending.base_url@ == base_url@
            && valid_token(pending.token@)
            && r.1 == SubscribeAction::OpenTransaction),
        !(email_ok(form.email@) && valid_name_input(form.name@)) ==> (r.0 matches
        SubscribeState::Finished { result }
            && result matches Err(e)
            && e matches SubscribeError::ValidationError(m)
            && (!email_ok(form.email@) ==> m@ == "Invalid email: "@ + form.email@)
            && (email_ok(form.email@) ==> m@ == form.name@
                + " is not a valid subscriber name."@)
            && r.1 == (SubscribeAction::Respond { status: 400u16 })),
{
    let subscriber = match NewSubscriber::try_from(form) {
        Ok(s) => s,
        Err(m) => {
            let state = SubscribeState::Finished {
                result: Err(SubscribeError::ValidationError(m)),
            };
            return (state, SubscribeAction::Respond { status: 400 });
        },
    };
    let pending = PendingSubscription {
        subscriber,
        id: SubscriberId::generate(),
        token: generate_subscription_token(),
        base_url,
    };
    (SubscribeState::OpeningTransaction { pending }, SubscribeAction::OpenTransaction)
}

/// Advances the workflow by one step: consumes the outcome of the action
/// the state awaits and yields the next state and action, as
/// `subscribe_transition` describes.
pub fn subscribe_step(state: SubscribeState, outcome: Result<(), String>) -> (r: (
    SubscribeState,
    SubscribeAction,
))
    requires
        state.wf(),
    ensures
        subscribe_transition(state, outcome, r.0, r.1),
        r.0.wf(),
{
    match state {
        SubscribeState::OpeningTransaction { pending } => match outcome {
            Ok(_) => {
                let name = pending.subscriber.name.as_str().to_owned();
                let email = pending.subscriber.email.as_str().to_owned();
                let action = SubscribeAction::InsertSubscriber { id: pending.id, name, email };
                (SubscribeState::Inserting { pending }, action)
            },
            Err(m) => fail_with(
                m,
                "Failed to acquire a Postgres connection from the pool",
            ),
        },
        SubscribeState::Inserting { pending } => match outcome {
            Ok(_) => {
                let token = pending.token.clone();
                let action = SubscribeAction::StoreToken { id: pending.id, token };
                (SubscribeState::StoringToken { pending }, action)
            },
            Err(m) => fail_with(m, "Failed to insert new subscriber in the database."),
        },
        SubscribeState::StoringToken { pending } => match outcome {
            Ok(_) => (SubscribeState::Committing { pending }, SubscribeAction::Commit),
            Err(m) => {
                let chain = StoreTokenError::new(m).into_chain().context(
                    String::from_str(
                        "Failed to store the confirmation token for a new subscriber.",
                    ),
                );
                proof {
                    assert(chain@ =~= seq![
                        "Failed to store the confirmation token for a new subscriber."@,
                        "A database error was encountered while trying to store a subscription token."@,
                        outcome->Err_0@,
                    ]);
                }
                let state = SubscribeState::Finished {
                    result: Err(SubscribeError::UnexpectedError(chain)),
                };
                (state, SubscribeAction::Respond { status: 500 })
            },
        },
        SubscribeState::Committing { pending } => match outcome {
            Ok(_) => {
                let message = confirmation_email(
                    &pending.subscriber.email,
                    pending.base_url.as_str(),
                    pending.token.as_str(),
                );
                let action = SubscribeAction::SendEmail { message };
                (SubscribeState::Sending { pending }, action)
            },
            Err(m) => fail_with(
                m,
                "Failed to commit SQL transaction to store a new subscriber.",
            ),
        },
        SubscribeState::Sending { pending } => match outcome {
            Ok(_) => {
                let state = SubscribeState::Finished { result: Ok(()) };
                (state, SubscribeAction::Respond { status: 200 })
            },
            Err(m) => fail_with(m, "Failed to send a confirmation email."),
        },
        SubscribeState::Finished { result } => {
            let status = match &result {
                Ok(_) => 200,
                Err(e) => e.status_code(),
            };
            (SubscribeState::Finished { result }, SubscribeAction::Respond { status })
        },
    }
}

/// Halts the workflow with the underlying failure wrapped in the given
/// step context, and a server-error response.
fn fail_with(cause: String, context: &str) -> (r: (SubscribeState, SubscribeAction))
    ensures
        subscribe_failure(r.0, r.1, seq![context@, cause@]),
        r.0.wf(),
{
    let chain = ErrorChain::new(cause).context(context.to_owned());
    proof {
        assert(chain@ =~= seq![context@, cause@]);
    }
    let state = SubscribeState::Finished { result: Err(SubscribeError::UnexpectedError(chain)) };
    (state, SubscribeAction::Respond { status: 500 })
}

/// The workflow asks for a commit only once both the subscriber insert
/// and the token store have succeeded: the one transition that issues
/// `Commit` starts from the state awaiting the token-store outcome, on
/// success. Together with the transition order this keeps the
/// subscriber row and the token row atomic: neither is visible unless
/// both writes succeeded inside the one transaction.
pub proof fn lemma_commit_only_after_both_writes(
    state: SubscribeState,
    outcome: Result<(), String>,
    next: SubscribeState,
    action: SubscribeAction,
)
    requires
        subscribe_transition(state, outcome, next, action),
        action == SubscribeAction::Commit,
    ensures
        state is StoringToken,
        outcome is Ok,
        next is Committing,
{
}

/// One token serves one request: the token the workflow asks the store
/// to persist is exactly the token the confirmation link embeds, for
/// whichever pending record the two steps carry.
pub proof fn lemma_stored_token_is_mailed_token(
    pending: PendingSubscription,
    store_next: SubscribeState,
    store_action: SubscribeAction,
    send_next: SubscribeState,
    send_action: SubscribeAction,
)
    requires
        subscribe_transition(
            SubscribeState::Inserting { pending },
            Ok(()),
            store_next,
            store_action,
        ),
        subscribe_transition(
            SubscribeState::Committing { pending },
            Ok(()),
            send_next,
            send_action,
        ),
    ensures
        store_action matches SubscribeAction::StoreToken { token, .. } ==> token@
            == pending.token@,
        send_action matches SubscribeAction::SendEmail { message } ==> message.html_body@
            == crate::email::spec_html_body(
            crate::email::spec_confirmation_link(pending.base_url@, pending.token@),
        ),
{
}

/// A finished workflow only ever answers again: no database or
/// notification action can follow the final response.
pub proof fn lemma_finished_is_absorbing(
    result: Result<(), SubscribeError>,
    outcome: Result<(), String>,
    next: SubscribeState,
    action: SubscribeAction,
)
    requires
        subscribe_transition(SubscribeState::Finished { result }, outcome, next, action),
    ensures
        next == (SubscribeState::Finished { result }),
        action is Respond,
{
}

/// The confirmation message is handed to the notifier only after the
/// transaction has committed: the subscriber is durably pending before
/// any send is attempted, whatever the send's outcome.
pub proof fn lemma_send_only_after_commit(
    state: SubscribeState,
    outcome: Result<(), String>,
    next: SubscribeState,
    action: SubscribeAction,
)
    requires
        subscribe_transition(state, outcome, next, action),
        action is SendEmail,
    ensures
        state is Committing,
        outcome is Ok,
{
}

} // verus!
