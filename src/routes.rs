//! The decisions behind the two requests, registration and confirmation, and the
//! responses they end in.

pub mod subscriptions;
pub mod subscriptions_confirm;

use vstd::prelude::*;

verus! {

/// What the caller of a registration or a confirmation is told.
#[derive(Clone, Copy, Debug, PartialEq, Eq, Structural)]
pub enum Response {
    Accepted,
    BadRequest,
    Unauthorized,
    InternalServerError,
}

impl Response {
    /// The HTTP status code that carries the response.
    pub fn status_code(&self) -> (r: u16)
        ensures
            *self == Response::Accepted ==> r == 200,
            *self == Response::BadRequest ==> r == 400,
            *self == Response::Unauthorized ==> r == 401,
            *self == Response::InternalServerError ==> r == 500,
    {
        match self {
            Response::Accepted => 200,
            Response::BadRequest => 400,
            Response::Unauthorized => 401,
            Response::InternalServerError => 500,
        }
    }
}

} // verus!
