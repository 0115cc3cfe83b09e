use newsletter::confirm_begin;
use newsletter::confirm_resolved;
use newsletter::confirm_updated;
use newsletter::error_chain_fmt;
use newsletter::subscribe_begin;
use newsletter::subscribe_step;
use newsletter::ConfirmAction;
use newsletter::EmailMessage;
use newsletter::FormData;
use newsletter::SubscribeAction;
use newsletter::SubscribeError;
use newsletter::SubscribeState;
use newsletter::SubscriberId;
use newsletter::Token;

/// One persisted subscriber row.
struct Row {
    id: u128,
    name: String,
    email: String,
    status: String,
}

/// An in-memory stand-in for the subscriber store, with staged writes
/// that become visible only on commit.
struct TestStore {
    rows: Vec<Row>,
    tokens: Vec<(String, u128)>,
    staged_rows: Vec<Row>,
    staged_tokens: Vec<(String, u128)>,
}

impl TestStore {
    fn new() -> TestStore {
        TestStore { rows: Vec::new(), tokens: Vec::new(), staged_rows: Vec::new(), staged_tokens: Vec::new() }
    }

    fn commit(&mut self) {
        self.rows.append(&mut self.staged_rows);
        self.tokens.append(&mut self.staged_tokens);
    }

    fn rollback(&mut self) {
        self.staged_rows.clear();
        self.staged_tokens.clear();
    }

    fn resolve(&self, token: &str) -> Result<u128, String> {
        self.tokens
            .iter()
            .find(|(t, _)| t == token)
            .map(|(_, id)| *id)
            .ok_or_else(|| "no rows returned by a query that expected to return at least one row".to_string())
    }

    fn mark_confirmed(&mut self, id: u128) {
        // An unconditional update: zero matched rows is still a success.
        for row in self.rows.iter_mut() {
            if row.id == id {
                row.status = "confirmed".to_string();
            }
        }
    }
}

/// Drives the subscription workflow against the test store, performing
/// each requested action and feeding its outcome back, until the
/// workflow responds. Returns the response status and the final state.
fn run_subscription(
    store: &mut TestStore,
    name: &str,
    email: &str,
    base_url: &str,
    fail_store_token: bool,
    fail_send: bool,
    sent: &mut Vec<EmailMessage>,
) -> (u16, SubscribeState) {
    let form = FormData { name: name.to_string(), email: email.to_string() };
    let (mut state, mut action) = subscribe_begin(form, base_url.to_string());
    loop {
        let outcome: Result<(), String> = match action {
            SubscribeAction::OpenTransaction => Ok(()),
            SubscribeAction::InsertSubscriber { id, name, email } => {
                store.staged_rows.push(Row {
                    id: id.inner(),
                    name,
                    email,
                    status: "pending_confirmation".to_string(),
                });
                Ok(())
            }
            SubscribeAction::StoreToken { id, token } => {
                if fail_store_token {
                    store.rollback();
                    Err("constraint violation".to_string())
                } else {
                    store.staged_tokens.push((token, id.inner()));
                    Ok(())
                }
            }
            SubscribeAction::Commit => {
                store.commit();
                Ok(())
            }
            SubscribeAction::SendEmail { message } => {
                if fail_send {
                    Err("the collaborator returned 500".to_string())
                } else {
                    sent.push(message);
                    Ok(())
                }
            }
            SubscribeAction::Respond { status } => {
                store.rollback();
                return (status, state);
            }
        };
        let next = subscribe_step(state, outcome);
        state = next.0;
        action = next.1;
    }
}

/// Drives the confirmation workflow against the test store.
fn run_confirmation(store: &mut TestStore, token: &str) -> u16 {
    let (state, action) = confirm_begin(Token { token: token.to_string() });
    let token = match action {
        ConfirmAction::ResolveToken { token } => token,
        _ => panic!("the confirmation workflow must resolve the token first"),
    };
    let outcome = store.resolve(&token).map(SubscriberId::new);
    let (state, action) = confirm_resolved(state, outcome);
    let id = match action {
        ConfirmAction::MarkConfirmed { id } => id,
        ConfirmAction::Respond { status } => return status,
        _ => panic!("resolution must be followed by the promotion or a response"),
    };
    store.mark_confirmed(id.inner());
    let (_, action) = confirm_updated(state, Ok(()));
    match action {
        ConfirmAction::Respond { status } => status,
        _ => panic!("the promotion outcome must be answered"),
    }
}

#[test]
fn subscribe_returns_200_and_stores_pending_subscriber() {
    let mut store = TestStore::new();
    let mut sent = Vec::new();
    let (status, _) = run_subscription(
        &mut store,
        "le guin",
        "ursula_le_guin@gmail.com",
        "http://127.0.0.1:8000",
        false,
        false,
        &mut sent,
    );

    assert_eq!(status, 200);
    assert_eq!(store.rows.len(), 1);
    assert_eq!(store.rows[0].name, "le guin");
    assert_eq!(store.rows[0].email, "ursula_le_guin@gmail.com");
    assert_eq!(store.rows[0].status, "pending_confirmation");
    assert_eq!(store.tokens.len(), 1);
    assert_eq!(store.tokens[0].1, store.rows[0].id);

    assert_eq!(sent.len(), 1);
    let message = &sent[0];
    assert_eq!(message.to, "ursula_le_guin@gmail.com");
    assert_eq!(message.subject, "Welcome!");
    let link = format!(
        "http://127.0.0.1:8000/subscriptions/confirm?token={}",
        store.tokens[0].0
    );
    assert!(message.html_body.contains(&link));
    assert!(message.text_body.contains(&link));
}

#[test]
fn subscribe_returns_400_when_fields_are_invalid() {
    let cases = vec![
        ("", "ursula_le_guin@gmail.com", "empty name"),
        ("Ursula", "", "empty email"),
        ("Ursula", "definitely-not-an-email", "invalid email"),
        ("", "", "empty name and email"),
    ];
    for (name, email, description) in cases {
        let mut store = TestStore::new();
        let mut sent = Vec::new();
        let (status, _) =
            run_subscription(&mut store, name, email, "http://127.0.0.1:8000", false, false, &mut sent);
        assert_eq!(status, 400, "got no 400 for {}", description);
        assert_eq!(store.rows.len(), 0, "a row appeared for {}", description);
        assert_eq!(store.tokens.len(), 0, "a token appeared for {}", description);
        assert_eq!(sent.len(), 0, "a message was sent for {}", description);
    }
}

#[test]
fn failed_token_store_leaves_no_row_behind() {
    let mut store = TestStore::new();
    let mut sent = Vec::new();
    let (status, _) = run_subscription(
        &mut store,
        "le guin",
        "ursula_le_guin@gmail.com",
        "http://127.0.0.1:8000",
        true,
        false,
        &mut sent,
    );
    assert_eq!(status, 500);
    // The transaction never committed: nothing became visible.
    assert_eq!(store.rows.len(), 0);
    assert_eq!(store.tokens.len(), 0);
    assert_eq!(sent.len(), 0);
}

#[test]
fn confirmation_with_issued_token_confirms_and_repeats() {
    let mut store = TestStore::new();
    let mut sent = Vec::new();
    let (status, _) = run_subscription(
        &mut store,
        "le guin",
        "ursula_le_guin@gmail.com",
        "http://127.0.0.1:8000",
        false,
        false,
        &mut sent,
    );
    assert_eq!(status, 200);
    let token = store.tokens[0].0.clone();

    assert_eq!(run_confirmation(&mut store, &token), 200);
    assert_eq!(store.rows[0].status, "confirmed");

    // Confirming again is an idempotent success.
    assert_eq!(run_confirmation(&mut store, &token), 200);
    assert_eq!(store.rows[0].status, "confirmed");
}

#[test]
fn confirmation_with_unknown_token_returns_400() {
    let mut store = TestStore::new();
    assert_eq!(run_confirmation(&mut store, "garbage"), 400);
}

#[test]
fn failed_send_returns_500_but_keeps_the_committed_row() {
    let mut store = TestStore::new();
    let mut sent = Vec::new();
    let (status, state) = run_subscription(
        &mut store,
        "le guin",
        "ursula_le_guin@gmail.com",
        "http://127.0.0.1:8000",
        false,
        true,
        &mut sent,
    );
    assert_eq!(status, 500);
    // The subscriber was committed before the send was attempted.
    assert_eq!(store.rows.len(), 1);
    assert_eq!(store.rows[0].status, "pending_confirmation");
    assert_eq!(store.tokens.len(), 1);
    assert_eq!(sent.len(), 0);

    let result = match state {
        SubscribeState::Finished { result } => result,
        _ => panic!("the workflow must have finished"),
    };
    let chain = match result {
        Err(SubscribeError::UnexpectedError(chain)) => chain,
        _ => panic!("a failed send is an unexpected error"),
    };
    assert_eq!(
        error_chain_fmt(&chain),
        "Failed to send a confirmation email.\n\n\
         Caused by:\n\tthe collaborator returned 500\n"
    );
}

#[test]
fn validation_error_reports_the_offending_field() {
    let form = FormData { name: "le guin".to_string(), email: "qwer.com".to_string() };
    let (state, action) = subscribe_begin(form, "http://127.0.0.1:8000".to_string());
    assert!(matches!(action, SubscribeAction::Respond { status: 400 }));
    let result = match state {
        SubscribeState::Finished { result } => result,
        _ => panic!("invalid form data must finish the workflow at once"),
    };
    match result {
        Err(SubscribeError::ValidationError(reason)) => {
            assert_eq!(reason, "Invalid email: qwer.com");
        }
        _ => panic!("invalid form data is a validation error"),
    }
}

#[test]
fn subscribe_error_status_codes() {
    let validation = SubscribeError::ValidationError("bad".to_string());
    assert_eq!(validation.status_code(), 400);
    let unexpected =
        SubscribeError::UnexpectedError(newsletter::ErrorChain::new("boom".to_string()));
    assert_eq!(unexpected.status_code(), 500);
}

#[test]
fn confirm_error_status_codes() {
    let invalid = newsletter::ConfirmError::InvalidToken("nope".to_string());
    assert_eq!(invalid.status_code(), 400);
    let unexpected =
        newsletter::ConfirmError::UnexpectedError(newsletter::ErrorChain::new("boom".to_string()));
    assert_eq!(unexpected.status_code(), 500);
}
