//! Validated value objects of the subscription service.

mod new_subscriber;
mod subscriber_email;
mod subscriber_id;
mod subscriber_name;

pub use new_subscriber::NewSubscriber;
pub use subscriber_email::email_ok;
pub use subscriber_email::SubscriberEmail;
pub use subscriber_id::SubscriberId;
pub use subscriber_name::is_forbidden_char;
pub use subscriber_name::is_space;
pub use subscriber_name::spec_trim;
pub use subscriber_name::valid_name_input;
pub use subscriber_name::SubscriberName;
pub use subscriber_name::NAME_LENGTH_CAP;
