//! Confirmation: the steps from a token in a link to a confirmed subscriber.

use crate::routes::Response;
use crate::store::StoreError;
use vstd::prelude::*;

verus! {

/// The query of a confirmation request.
#[derive(Debug)]
pub struct Parameters {
    subscription_token: String,
}

impl Parameters {
    pub fn new(subscription_token: String) -> (r: Parameters)
        ensures
            r@ == subscription_token@,
    {
        Parameters { subscription_token }
    }

    /// The token the request carries.
    pub fn subscription_token(&self) -> (r: &str)
        ensures
            r@ == self@,
    {
        self.subscription_token.as_str()
    }
}

impl View for Parameters {
    type V = Seq<char>;

    closed spec fn view(&self) -> Seq<char> {
        self.subscription_token@
    }
}

/// What a confirmation asks the outside world to do next.
#[derive(Debug, PartialEq, Eq)]
pub enum ConfirmAction {
    /// Find the subscriber the token was issued to.
    Lookup(String),
    /// Mark the subscriber confirmed.
    Confirm(u128),
    Respond(Response),
}

/// The first step of a confirmation: a request without the token's parameter is
/// malformed; otherwise the token is looked up.
pub fn start_confirmation(parameters: Option<Parameters>) -> (r: ConfirmAction)
    ensures
        parameters is None ==> r == ConfirmAction::Respond(Response::BadRequest),
        parameters matches Some(p) ==> r matches ConfirmAction::Lookup(t) && t@ == p@,
{
    match parameters {
        None => ConfirmAction::Respond(Response::BadRequest),
        Some(p) => ConfirmAction::Lookup(p.subscription_token),
    }
}

/// The step after the lookup: an unknown token is unauthorized, a known one has its
/// subscriber confirmed.
pub fn after_lookup(found: Result<Option<u128>, StoreError>) -> (r: ConfirmAction)
    ensures
        found is Err ==> r == ConfirmAction::Respond(Response::InternalServerError),
        found == Ok::<Option<u128>, StoreError>(None) ==> r == ConfirmAction::Respond(
            Response::Unauthorized,
        ),
        found matches Ok(Some(id)) ==> r == ConfirmAction::Confirm(id),
{
    match found {
        Err(_) => ConfirmAction::Respond(Response::InternalServerError),
        Ok(None) => ConfirmAction::Respond(Response::Unauthorized),
        Ok(Some(id)) => ConfirmAction::Confirm(id),
    }
}

/// The response once the subscriber store answered; confirming a confirmed
/// subscriber is a success like any other.
pub fn after_confirm(updated: Result<(), StoreError>) -> (r: Response)
    ensures
        updated is Ok ==> r == Response::Accepted,
        updated is Err ==> r == Response::InternalServerError,
{
    match updated {
        Ok(()) => Response::Accepted,
        Err(_) => Response::InternalServerError,
    }
}

} // verus!
