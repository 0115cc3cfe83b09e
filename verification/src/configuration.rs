//! The settings the service is configured with.
//!
//! Reading configuration files and environment variables is the
//! embedding application's business; the types here are the plain
//! values the core works with, together with the validation they
//! carry: the sender address must pass email validation, and the
//! running environment is named by one of two known strings.

use crate::domain::email_ok;
use crate::domain::SubscriberEmail;
use crate::text::spec_lower;
use crate::text::to_lowercase_ascii;
use vstd::prelude::*;

verus! {

/// Where the tracing collector listens.
pub struct JaegerSettings {
    pub address: String,
    pub port: u16,
}

/// Where the HTTP server listens, and the base URL confirmation links
/// embed.
pub struct ApplicationSettings {
    pub address: String,
    pub port: u16,
    pub base_url: String,
}

/// How the outbound message client is set up: the endpoint it posts to,
/// the sender address, and the request timeout.
pub struct EmailClientSettings {
    pub base_url: String,
    pub sender_email: String,
    pub timeout_seconds: u64,
}

impl EmailClientSettings {
    /// Validates the configured sender address; succeeds exactly when it
    /// passes email validation, and keeps it unchanged.
    pub fn sender(&self) -> (r: Result<SubscriberEmail, String>)
        ensures
            r is Ok <==> email_ok(self.sender_email@),
            r matches Ok(e) ==> e@ == self.sender_email@ && e.wf(),
            r matches Err(m) ==> m@ == "Invalid email: "@ + self.sender_email@,
    {
        SubscriberEmail::parse(self.sender_email.clone())
    }

    /// Relies on `std::time::Duration::from_secs`: the configured
    /// timeout as a duration of that many whole seconds.
    #[verifier::external_body]
    pub fn timeout(&self) -> std::time::Duration {
        std::time::Duration::from_secs(self.timeout_seconds)
    }
}

/// The base URL the application is reached under; confirmation links
/// embed it.
pub struct ApplicationBaseUrl(pub String);

/// The possible runtime environments of the application.
#[derive(Debug)]
pub enum Environment {
    Local,
    Production,
}

impl Environment {
    /// The canonical name of the environment.
    pub fn as_str(&self) -> (r: &'static str)
        ensures
            self is Local ==> r@ == "local"@,
            self is Production ==> r@ == "production"@,
    {
        match self {
            Environment::Local => "local",
            Environment::Production => "production",
        }
    }

    /// Reads an environment from its name, ignoring ASCII case; any
    /// other name is rejected, named in lowercase.
    pub fn try_from(s: String) -> (r: Result<Environment, String>)
        ensures
            spec_lower(s@) == "local"@ ==> r == Ok::<Environment, String>(Environment::Local),
            spec_lower(s@) == "production"@ ==> r == Ok::<Environment, String>(
                Environment::Production,
            ),
            spec_lower(s@) != "local"@ && spec_lower(s@) != "production"@ ==> (r matches Err(m)
                && m@ == spec_lower(s@)
                + " is not a supported environment. Use either `local` or `production`."@),
    {
        proof {
            // The two names differ in length, which no branch can
            // otherwise see.
            reveal_strlit("local");
            reveal_strlit("production");
            assert("local"@.len() == 5);
            assert("production"@.len() == 10);
        }
        let lowered = to_lowercase_ascii(s.as_str());
        if lowered == String::from_str("local") {
            Ok(Environment::Local)
        } else if lowered == String::from_str("production") {
            Ok(Environment::Production)
        } else {
            let mut m = lowered;
            m.append(" is not a supported environment. Use either `local` or `production`.");
            Err(m)
        }
    }
}

} // verus!
