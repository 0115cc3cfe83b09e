use newsletter::ErrorChain;
use newsletter::SubscriberEmail;
use newsletter::SubscriberId;
use newsletter::SubscriberName;
use newsletter::{error_chain_fmt, StoreTokenError};

#[test]
fn empty_string_is_rejected() {
    let email = "".to_string();
    assert!(SubscriberEmail::parse(email).is_err());
}

#[test]
fn email_symbol_mussing_rejected() {
    let email = "qwer.com".to_string();
    assert!(SubscriberEmail::parse(email).is_err());
}

#[test]
fn subject_missing_rejected() {
    let email = "@gmail.com".to_string();
    assert!(SubscriberEmail::parse(email).is_err());
}

#[test]
fn domain_missing_is_rejected() {
    assert!(SubscriberEmail::parse("ursula@".to_string()).is_err());
}

#[test]
fn valid_emails_are_accepted_unchanged() {
    let cases = vec![
        "ursula_le_guin@gmail.com",
        "a@b.com",
        "first.last@sub.domain.org",
    ];
    for raw in cases {
        let parsed = SubscriberEmail::parse(raw.to_string())
            .unwrap_or_else(|_| panic!("{} should be accepted", raw));
        assert_eq!(parsed.as_str(), raw);
    }
}

#[test]
fn invalid_email_message_names_the_address() {
    let err = SubscriberEmail::parse("definitely-not-an-email".to_string()).unwrap_err();
    assert_eq!(err, "Invalid email: definitely-not-an-email");
}

#[test]
fn empty_name_is_rejected() {
    assert!(SubscriberName::parse("".to_string()).is_err());
}

#[test]
fn whitespace_only_name_is_rejected() {
    assert!(SubscriberName::parse("   \t\n  ".to_string()).is_err());
}

#[test]
fn overlong_name_is_rejected() {
    let name: String = std::iter::repeat('a').take(257).collect();
    assert!(SubscriberName::parse(name).is_err());
}

#[test]
fn name_at_the_length_cap_is_accepted() {
    let name: String = std::iter::repeat('a').take(256).collect();
    assert!(SubscriberName::parse(name).is_ok());
}

#[test]
fn names_with_forbidden_characters_are_rejected() {
    for c in ['/', '(', ')', '"', '<', '>', '\\', '{', '}'] {
        let name = format!("Ursula {} Le Guin", c);
        assert!(SubscriberName::parse(name).is_err(), "{} should be rejected", c);
    }
}

#[test]
fn valid_name_is_accepted() {
    assert!(SubscriberName::parse("Ursula Le Guin".to_string()).is_ok());
}

#[test]
fn accepted_name_is_trimmed() {
    let parsed = SubscriberName::parse("  le guin\n".to_string()).unwrap();
    assert_eq!(parsed.as_str(), "le guin");
}

#[test]
fn invalid_name_message_names_the_input() {
    let err = SubscriberName::parse("O(o)".to_string()).unwrap_err();
    assert_eq!(err, "O(o) is not a valid subscriber name.");
}

#[test]
fn subscriber_id_round_trips_its_bits() {
    let id = SubscriberId::new(0x1234_5678_9abc_def0_1122_3344_5566_7788u128);
    assert_eq!(id.inner(), 0x1234_5678_9abc_def0_1122_3344_5566_7788u128);
}

#[test]
fn generated_subscriber_ids_are_fresh_values() {
    let a = SubscriberId::generate();
    let b = SubscriberId::generate();
    // Equality is astronomically unlikely for two random 128-bit draws.
    assert_ne!(a.inner(), b.inner());
}

#[test]
fn error_chain_renders_every_cause() {
    let chain = ErrorChain::new("connection reset".to_string())
        .context("Failed to execute query".to_string())
        .context("Failed to insert new subscriber in the database.".to_string());
    let rendered = error_chain_fmt(&chain);
    assert_eq!(
        rendered,
        "Failed to insert new subscriber in the database.\n\n\
         Caused by:\n\tFailed to execute query\n\
         Caused by:\n\tconnection reset\n"
    );
}

#[test]
fn error_chain_without_causes_renders_the_message_alone() {
    let chain = ErrorChain::new("boom".to_string());
    assert_eq!(error_chain_fmt(&chain), "boom\n\n");
}

#[test]
fn store_token_error_adds_its_diagnostic() {
    let chain = StoreTokenError::new("connection reset".to_string()).into_chain();
    assert_eq!(
        error_chain_fmt(&chain),
        "A database error was encountered while trying to store a subscription token.\n\n\
         Caused by:\n\tconnection reset\n"
    );
}
