//! Core of a double opt-in newsletter subscription service.
//!
//! A client submits a name and an email address; the service validates them,
//! persists a pending subscriber together with a single-use confirmation
//! token, and sends a confirmation link. When the link is visited the
//! subscriber is promoted from `pending_confirmation` to `confirmed`.
//!
//! This crate holds the verified core: validated value objects, token
//! issuance, the two workflow state machines (subscription and
//! confirmation), the outgoing confirmation message, and the error
//! taxonomy that maps internal failures to response status codes.
//! Database access, the outbound HTTP transport and server plumbing are
//! collaborators driven by the embedding application.

mod configuration;
mod confirmation;
mod domain;
mod email;
mod errors;
mod subscription;
mod text;
mod token;

pub use configuration::ApplicationBaseUrl;
pub use configuration::ApplicationSettings;
pub use configuration::EmailClientSettings;
pub use configuration::Environment;
pub use configuration::JaegerSettings;

pub use confirmation::confirm_begin;
pub use confirmation::confirm_resolved;
pub use confirmation::confirm_updated;
pub use confirmation::ConfirmAction;
pub use confirmation::ConfirmError;
pub use confirmation::ConfirmState;
pub use confirmation::Token;
pub use domain::email_ok;
pub use domain::is_forbidden_char;
pub use domain::is_space;
pub use domain::spec_trim;
pub use domain::valid_name_input;
pub use domain::NewSubscriber;
pub use domain::SubscriberEmail;
pub use domain::SubscriberId;
pub use domain::SubscriberName;
pub use domain::NAME_LENGTH_CAP;
pub use email::confirmation_email;
pub use email::is_confirmation_email;
pub use email::spec_confirmation_link;
pub use email::spec_html_body;
pub use email::spec_text_body;
pub use email::EmailMessage;
pub use errors::error_chain_fmt;
pub use errors::spec_cause_line;
pub use errors::spec_cause_lines;
pub use errors::spec_chain_rendering;
pub use errors::ErrorChain;
pub use subscription::lemma_commit_only_after_both_writes;
pub use subscription::lemma_finished_is_absorbing;
pub use subscription::lemma_send_only_after_commit;
pub use subscription::lemma_stored_token_is_mailed_token;
pub use subscription::spec_response_status;
pub use subscription::subscribe_begin;
pub use subscription::subscribe_failure;
pub use subscription::subscribe_step;
pub use subscription::subscribe_transition;
pub use subscription::FormData;
pub use subscription::PendingSubscription;
pub use subscription::StoreTokenError;
pub use subscription::SubscribeAction;
pub use subscription::SubscribeError;
pub use subscription::SubscribeState;
pub use token::generate_subscription_token;
pub use token::is_token_char;
pub use token::valid_token;
pub use token::TOKEN_LENGTH;
