//! A validated name and email, ready to be stored.

use crate::domain::subscriber_email::{email_grammar_accepts, SubscriberEmail};
use crate::domain::subscriber_name::{is_valid_name, SubscriberName};
use vstd::prelude::*;

verus! {

/// A validated name and email: the only form in which identity data reaches a store.
#[derive(Debug)]
pub struct NewSubscriber {
    pub name: SubscriberName,
    pub email: SubscriberEmail,
}

/// Both fields of a subscription request.
pub open spec fn subscription_accepted(name: Seq<char>, email: Seq<char>) -> bool {
    is_valid_name(name) && email_grammar_accepts(email)
}

impl NewSubscriber {
    /// Validates a raw name and email; the name is checked first.
    pub fn parse(name: String, email: String) -> (r: Result<NewSubscriber, String>)
        ensures
            r is Ok <==> subscription_accepted(name@, email@),
            r matches Ok(s) ==> s.name@ == name@ && s.email@ == email@,
    {
        let name = SubscriberName::parse(name)?;
        let email = SubscriberEmail::parse(email)?;
        Ok(NewSubscriber { name, email })
    }
}

} // verus!
