//! What the library says to the email delivery service: the endpoint, the message,
//! and the one way delivery can fail.

use crate::domain::SubscriberEmail;
use vstd::prelude::*;

verus! {

/// The email delivery service did not accept a message: it answered with an error
/// status, or did not answer in time.
#[derive(Clone, Copy, Debug, PartialEq, Eq, Structural)]
pub struct GatewayError;

pub open spec fn send_email_url_text(base_url: Seq<char>) -> Seq<char> {
    base_url + "/v3/smtp/email"@
}

/// The endpoint of the delivery service that accepts a message.
pub fn send_email_url(base_url: &str) -> (r: String)
    ensures
        r@ == send_email_url_text(base_url@),
{
    let mut url = String::from_str(base_url);
    url.append("/v3/smtp/email");
    url
}

/// A message for the delivery service.
#[derive(Debug)]
pub struct EmailMessage {
    pub recipient: SubscriberEmail,
    pub subject: String,
    pub html_content: String,
}

} // verus!
