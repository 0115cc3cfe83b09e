use newsletter::generate_subscription_token;
use newsletter::EmailClientSettings;
use newsletter::Environment;

#[test]
fn token_is_25_alphanumeric_characters() {
    for _ in 0..50 {
        let token = generate_subscription_token();
        assert_eq!(token.chars().count(), 25);
        assert!(token.chars().all(|c| c.is_ascii_alphanumeric()));
    }
}

#[test]
fn environment_names_parse_ignoring_case() {
    assert!(matches!(Environment::try_from("local".to_string()), Ok(Environment::Local)));
    assert!(matches!(Environment::try_from("LOCAL".to_string()), Ok(Environment::Local)));
    assert!(matches!(
        Environment::try_from("Production".to_string()),
        Ok(Environment::Production)
    ));
}

#[test]
fn unknown_environment_is_rejected_by_name() {
    let err = Environment::try_from("Staging".to_string()).unwrap_err();
    assert_eq!(
        err,
        "staging is not a supported environment. Use either `local` or `production`."
    );
}

#[test]
fn environment_as_str_gives_the_canonical_name() {
    assert_eq!(Environment::Local.as_str(), "local");
    assert_eq!(Environment::Production.as_str(), "production");
}

#[test]
fn sender_settings_validate_the_address() {
    let good = EmailClientSettings {
        base_url: "http://mail.example".to_string(),
        sender_email: "newsletter@example.com".to_string(),
        timeout_seconds: 2,
    };
    assert_eq!(good.sender().unwrap().as_str(), "newsletter@example.com");
    assert_eq!(good.timeout(), std::time::Duration::from_secs(2));

    let bad = EmailClientSettings {
        base_url: "http://mail.example".to_string(),
        sender_email: "not-an-address".to_string(),
        timeout_seconds: 2,
    };
    assert_eq!(bad.sender().unwrap_err(), "Invalid email: not-an-address");
}
