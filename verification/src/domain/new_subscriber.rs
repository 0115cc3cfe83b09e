//! A validated subscriber-to-be.

use crate::domain::subscriber_email::SubscriberEmail;
use crate::domain::subscriber_name::SubscriberName;
use vstd::prelude::*;

verus! {

/// The validated name and email address of a new subscriber. It exists
/// only while a subscription request is handled; the store persists its
/// fields, never the composite.
#[derive(Debug)]
pub struct NewSubscriber {
    pub name: SubscriberName,
    pub email: SubscriberEmail,
}

impl NewSubscriber {
    /// Both components were accepted by their validators.
    pub open spec fn wf(&self) -> bool {
        self.name.wf() && self.email.wf()
    }
}

} // verus!
