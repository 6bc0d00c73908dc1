//! A subscriber: a validated address together with a validated name.

use crate::domain::subscriber_email::SubscriberEmail;
use crate::domain::subscriber_name::SubscriberName;
use vstd::prelude::*;

verus! {

/// A subscriber as the contracts see one: the two texts.
pub struct SubscriberView {
    pub email: Seq<char>,
    pub name: Seq<char>,
}

/// A subscriber about to be stored. Both parts have passed validation, so
/// no value of this type is invalid.
#[derive(Debug)]
pub struct NewSubscriber {
    pub email: SubscriberEmail,
    pub name: SubscriberName,
}

impl View for NewSubscriber {
    type V = SubscriberView;

    open spec fn view(&self) -> SubscriberView {
        SubscriberView { email: self.email@, name: self.name@ }
    }
}

} // verus!
