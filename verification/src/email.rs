//! The outgoing confirmation message.
//!
//! The notifier collaborator sends a message with a recipient, a
//! subject and two body variants; this module builds the one message the
//! service ever sends: a welcome note carrying the confirmation link
//! that embeds the application's base URL and the subscription token.

use crate::domain::SubscriberEmail;
use vstd::prelude::*;

verus! {

/// One outbound confirmation message: the fields handed to the
/// message-sending collaborator, besides the sender it supplies itself.
pub struct EmailMessage {
    pub to: String,
    pub subject: String,
    pub html_body: String,
    pub text_body: String,
}

/// The confirmation link for a token: the base URL followed by the
/// confirmation path and the token as a query parameter.
pub open spec fn spec_confirmation_link(base_url: Seq<char>, token: Seq<char>) -> Seq<char> {
    base_url + "/subscriptions/confirm?token="@ + token
}

/// The HTML body of the confirmation message.
pub open spec fn spec_html_body(link: Seq<char>) -> Seq<char> {
    "Welcome to our newsletter!<br />Click <a href=\""@ + link
        + "\">here</a> to confirm your subscription."@
}

/// The plain-text body of the confirmation message.
pub open spec fn spec_text_body(link: Seq<char>) -> Seq<char> {
    "Welcome to our newsletter!\nVisit "@ + link + " to confirm your subscription."@
}

/// Whether a message is the confirmation message for the given
/// recipient, base URL and token.
pub open spec fn is_confirmation_email(
    m: EmailMessage,
    recipient: Seq<char>,
    base_url: Seq<char>,
    token: Seq<char>,
) -> bool {
    &&& m.to@ == recipient
    &&& m.subject@ == "Welcome!"@
    &&& m.html_body@ == spec_html_body(spec_confirmation_link(base_url, token))
    &&& m.text_body@ == spec_text_body(spec_confirmation_link(base_url, token))
}

/// Builds the confirmation message for a new subscriber: both bodies
/// carry the link to `/subscriptions/confirm` on the given base URL with
/// the token as its query parameter.
pub fn confirmation_email(recipient: &SubscriberEmail, base_url: &str, token: &str) -> (m:
    EmailMessage)
    ensures
        is_confirmation_email(m, recipient@, base_url@, token@),
{
    let mut link = String::from_str(base_url);
    link.append("/subscriptions/confirm?token=");
    link.append(token);
    proof {
        assert(link@ =~= spec_confirmation_link(base_url@, token@));
    }
    let mut html_body = String::from_str("Welcome to our newsletter!<br />Click <a href=\"");
    html_body.append(link.as_str());
    html_body.append("\">here</a> to confirm your subscription.");
    let mut text_body = String::from_str("Welcome to our newsletter!\nVisit ");
    text_body.append(link.as_str());
    text_body.append(" to confirm your subscription.");
    proof {
        assert(html_body@ =~= spec_html_body(link@));
        assert(text_body@ =~= spec_text_body(link@));
    }
    EmailMessage {
        to: recipient.as_str().to_owned(),
        subject: String::from_str("Welcome!"),
        html_body,
        text_body,
    }
}

} // verus!
