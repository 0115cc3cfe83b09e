//! The validated email address of a subscriber.
//!
//! The address grammar is the one enforced by the `validator` crate's
//! HTML5-style email check; it is far too large to restate, so it is
//! named by `email_ok` and the check is performed by the library behind
//! a trusted wrapper. A parsed address keeps the raw string unchanged.

use vstd::prelude::*;
use validator::ValidateEmail;

verus! {

/// Whether a string is a well-formed email address, as decided by the
/// `validator` crate's HTML5-style grammar check. The result depends on
/// the characters of the string alone.
pub uninterp spec fn email_ok(s: Seq<char>) -> bool;

/// Relies on `validator::ValidateEmail::validate_email` for `&str`: a
/// deterministic grammar check over the characters of the string. Its
/// source rejects outright an empty string, a string without `@`, and a
/// string whose part before the last `@` (the local part) or after it
/// (the domain part) is empty or starts with a character its character
/// classes exclude; `@` itself is excluded from the local part, so a
/// string beginning or ending with `@` is always rejected.
#[verifier::external_body]
fn check_email(s: &str) -> (r: bool)
    ensures
        r == email_ok(s@),
        s@.len() == 0 ==> !r,
        !s@.contains('@') ==> !r,
        s@.len() > 0 && s@[0] == '@' ==> !r,
        s@.len() > 0 && s@.last() == '@' ==> !r,
{
    s.validate_email()
}

/// The email address of a subscriber: a string accepted by the email
/// grammar check, kept exactly as it was submitted.
#[derive(Debug)]
pub struct SubscriberEmail {
    email: String,
}

impl View for SubscriberEmail {
    type V = Seq<char>;

    closed spec fn view(&self) -> Seq<char> {
        self.email@
    }
}

impl SubscriberEmail {
    /// Every constructed address satisfies the grammar check.
    pub open spec fn wf(&self) -> bool {
        email_ok(self@)
    }

    /// Validates a raw email address. Succeeds exactly on strings the
    /// email grammar accepts, and keeps the accepted string unchanged;
    /// in particular an empty string, a string without `@`, and a string
    /// with nothing before or after its last `@` are rejected.
    pub fn parse(email: String) -> (r: Result<SubscriberEmail, String>)
        ensures
            r is Ok <==> email_ok(email@),
            r matches Ok(e) ==> e@ == email@ && e.wf(),
            r matches Err(m) ==> m@ == "Invalid email: "@ + email@,
            email@.len() == 0 ==> r is Err,
            !email@.contains('@') ==> r is Err,
            email@.len() > 0 && email@[0] == '@' ==> r is Err,
            email@.len() > 0 && email@.last() == '@' ==> r is Err,
    {
        if check_email(email.as_str()) {
            Ok(SubscriberEmail { email })
        } else {
            let mut m = String::from_str("Invalid email: ");
            m.append(email.as_str());
            Err(m)
        }
    }

    /// The address as a string slice, for storage and transmission.
    pub fn as_str(&self) -> (r: &str)
        ensures
            r@ == self@,
    {
        self.email.as_str()
    }
}

} // verus!
