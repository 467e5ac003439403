//! Registration: the form, confirmation tokens and links, and the state machine that
//! orders validation, persistence, token issuance and notification.

use crate::domain::{NewSubscriber, SubscriberEmail};
use crate::domain::new_subscriber::subscription_accepted;
use crate::email_client::{EmailMessage, GatewayError};
use crate::routes::Response;
use crate::store::StoreError;
use crate::text::push_char;
use rand::Rng;
use vstd::prelude::*;

verus! {

/// The length of a confirmation token.
pub const TOKEN_LENGTH: usize = 25;

pub open spec fn is_token_char(c: char) -> bool {
    ('a' <= c && c <= 'z') || ('A' <= c && c <= 'Z') || ('0' <= c && c <= '9')
}

/// 25 ASCII letters and digits.
pub open spec fn is_subscription_token(t: Seq<char>) -> bool {
    t.len() == TOKEN_LENGTH && forall|i: int| 0 <= i < t.len() ==> is_token_char(#[trigger] t[i])
}

pub open spec fn confirmation_link_text(base_url: Seq<char>, token: Seq<char>) -> Seq<char> {
    base_url + "/subscriptions/confirm?subscription_token="@ + token
}

pub open spec fn confirmation_body_text(link: Seq<char>) -> Seq<char> {
    "Welcome to our newsletter!<br />Click <a href=\""@ + link
        + "\">here</a> to confirm your subscription."@
}

/// Relies on `rand::thread_rng` and the `Alphanumeric` distribution, which samples an
/// ASCII letter or digit.
#[verifier::external_body]
fn random_alphanumeric() -> (r: u8)
    ensures
        is_token_char(r as char),
{
    rand::thread_rng().sample(rand::distributions::Alphanumeric)
}

/// A fresh confirmation token, drawn at random; it is not checked against the issued ones.
pub fn generate_subscription_token() -> (r: String)
    ensures
        is_subscription_token(r@),
{
    let mut token = String::new();
    let mut i: usize = 0;
    while i < TOKEN_LENGTH
        invariant
            i <= TOKEN_LENGTH,
            token@.len() == i,
            forall|j: int| 0 <= j < i ==> is_token_char(#[trigger] token@[j]),
        decreases TOKEN_LENGTH - i,
    {
        let c = random_alphanumeric();
        push_char(&mut token, c as char);
        i = i + 1;
    }
    token
}

/// The link that confirms the subscription `token` was issued for.
pub fn confirmation_link(base_url: &str, token: &str) -> (r: String)
    ensures
        r@ == confirmation_link_text(base_url@, token@),
{
    let mut link = String::from_str(base_url);
    link.append("/subscriptions/confirm?subscription_token=");
    link.append(token);
    link
}

/// The welcome message that carries a confirmation link.
pub fn confirmation_body(link: &str) -> (r: String)
    ensures
        r@ == confirmation_body_text(link@),
{
    let mut body = String::from_str("Welcome to our newsletter!<br />Click <a href=\"");
    body.append(link);
    body.append("\">here</a> to confirm your subscription.");
    body
}

/// The confirmation message for `recipient`, linking to `base_url` with `token`.
pub fn confirmation_email(recipient: SubscriberEmail, base_url: &str, token: &str) -> (r: EmailMessage)
    ensures
        r.recipient@ == recipient@,
        r.subject@ == "Welcome!"@,
        r.html_content@ == confirmation_body_text(confirmation_link_text(base_url@, token@)),
{
    let link = confirmation_link(base_url, token);
    EmailMessage {
        recipient,
        subject: String::from_str("Welcome!"),
        html_content: confirmation_body(link.as_str()),
    }
}

/// The fields of a subscription form.
#[derive(Debug)]
pub struct SubscribeData {
    name: String,
    email: String,
}

impl SubscribeData {
    pub fn new(name: String, email: String) -> (r: SubscribeData)
        ensures
            r.name()@ == name@,
            r.email()@ == email@,
    {
        SubscribeData { name, email }
    }

    pub closed spec fn name(&self) -> String {
        self.name
    }

    pub closed spec fn email(&self) -> String {
        self.email
    }
}

impl TryFrom<SubscribeData> for NewSubscriber {
    type Error = String;

    fn try_from(value: SubscribeData) -> Result<Self, Self::Error> {
        NewSubscriber::parse(value.name, value.email)
    }
}

impl vstd::std_specs::convert::TryFromSpecImpl<SubscribeData> for NewSubscriber {
    open spec fn obeys_try_from_spec() -> bool {
        false
    }

    open spec fn try_from_spec(v: SubscribeData) -> Result<Self, Self::Error> {
        arbitrary()
    }
}

/// The step of a registration that was under way.
#[derive(Clone, Copy, Debug, PartialEq, Eq, Structural)]
pub enum Stage {
    Validating,
    Persisting,
    TokenIssued,
    Notifying,
}

/// Where one registration attempt stands.
#[derive(Debug)]
pub enum RegistrationState {
    /// Waiting for the submitted form.
    Validating,
    /// The pending subscriber is being written.
    Persisting { email: SubscriberEmail },
    /// A token was drawn for the subscriber and is being written.
    TokenIssued { email: SubscriberEmail, subscriber_id: u128, token: String },
    /// The confirmation message is being delivered.
    Notifying,
    Done,
    Failed(Stage),
}

/// What the outside world reports back to a registration.
#[derive(Debug)]
pub enum RegistrationEvent {
    /// The form, each field absent where the request lacked it.
    Submitted { name: Option<String>, email: Option<String> },
    /// The subscriber store's answer, with the new subscriber's id.
    Inserted(Result<u128, StoreError>),
    /// The token store's answer.
    TokenStored(Result<(), StoreError>),
    /// The delivery service's answer.
    EmailSent(Result<(), GatewayError>),
}

/// What a registration asks the outside world to do next.
#[derive(Debug)]
pub enum RegistrationAction {
    InsertPending(NewSubscriber),
    StoreToken { token: String, subscriber_id: u128 },
    SendEmail(EmailMessage),
    Respond(Response),
}

pub open spec fn form_accepted(name: Option<String>, email: Option<String>) -> bool {
    &&& name is Some
    &&& email is Some
    &&& subscription_accepted(name.unwrap()@, email.unwrap()@)
}

/// The stage that a state belongs to; `None` once the registration is over.
pub open spec fn stage_of(state: RegistrationState) -> Option<Stage> {
    match state {
        RegistrationState::Validating => Some(Stage::Validating),
        RegistrationState::Persisting { .. } => Some(Stage::Persisting),
        RegistrationState::TokenIssued { .. } => Some(Stage::TokenIssued),
        RegistrationState::Notifying => Some(Stage::Notifying),
        _ => None,
    }
}

/// Whether `event` is the answer that `state` waits for.
pub open spec fn expects(state: RegistrationState, event: RegistrationEvent) -> bool {
    match state {
        RegistrationState::Validating => event is Submitted,
        RegistrationState::Persisting { .. } => event is Inserted,
        RegistrationState::TokenIssued { .. } => event is TokenStored,
        RegistrationState::Notifying => event is EmailSent,
        _ => false,
    }
}

/// One registration attempt: validate, write the pending subscriber, issue and write
/// a token, send the confirmation message, in that order. Each failure ends it and
/// nothing is undone.
#[derive(Debug)]
pub struct Registration {
    base_url: String,
    state: RegistrationState,
}

impl Registration {
    pub closed spec fn base_url(&self) -> Seq<char> {
        self.base_url@
    }

    pub closed spec fn state(&self) -> RegistrationState {
        self.state
    }

    /// A registration whose confirmation links point under `base_url`.
    pub fn new(base_url: String) -> (r: Registration)
        ensures
            r.base_url() == base_url@,
            r.state() is Validating,
    {
        Registration { base_url, state: RegistrationState::Validating }
    }

    pub fn is_over(&self) -> (r: bool)
        ensures
            r == (stage_of(self.state()) is None),
    {
        match self.state {
            RegistrationState::Done | RegistrationState::Failed(_) => true,
            _ => false,
        }
    }

    /// Advances the registration by one answer and says what to do next.
    pub fn step(&mut self, event: RegistrationEvent) -> (action: RegistrationAction)
        requires
            stage_of(old(self).state()) is Some,
        ensures
            final(self).base_url() == old(self).base_url(),
            !expects(old(self).state(), event) ==> final(self).state() == RegistrationState::Failed(
                stage_of(old(self).state()).unwrap(),
            ) && action == RegistrationAction::Respond(Response::InternalServerError),
            event matches RegistrationEvent::Submitted { name, email } ==> (old(self).state() is Validating ==> if form_accepted(name, email) {
                &&& final(self).state() matches RegistrationState::Persisting { email: e }
                &&& e@ == email.unwrap()@
                &&& action matches RegistrationAction::InsertPending(s)
                &&& s.name@ == name.unwrap()@
                &&& s.email@ == email.unwrap()@
            } else {
                &&& final(self).state() == RegistrationState::Failed(Stage::Validating)
                &&& action == RegistrationAction::Respond(Response::BadRequest)
            }),
            event matches RegistrationEvent::Inserted(res) ==> (old(self).state() matches RegistrationState::Persisting { email } ==> match res {
                Ok(id) => {
                    &&& final(self).state() matches RegistrationState::TokenIssued {
                        email: e,
                        subscriber_id,
                        token: t,
                    }
                    &&& e@ == email@
                    &&& subscriber_id == id
                    &&& is_subscription_token(t@)
                    &&& action matches RegistrationAction::StoreToken { token, subscriber_id }
                    &&& token@ == t@
                    &&& subscriber_id == id
                },
                Err(_) => {
                    &&& final(self).state() == RegistrationState::Failed(Stage::Persisting)
                    &&& action == RegistrationAction::Respond(Response::InternalServerError)
                },
            }),
            event matches RegistrationEvent::TokenStored(res) ==> (old(self).state() matches RegistrationState::TokenIssued { email, token, .. } ==> match res {
                Ok(_) => {
                    &&& final(self).state() is Notifying
                    &&& action matches RegistrationAction::SendEmail(m)
                    &&& m.recipient@ == email@
                    &&& m.subject@ == "Welcome!"@
                    &&& m.html_content@ == confirmation_body_text(
                        confirmation_link_text(old(self).base_url(), token@),
                    )
                },
                Err(_) => {
                    &&& final(self).state() == RegistrationState::Failed(Stage::TokenIssued)
                    &&& action == RegistrationAction::Respond(Response::InternalServerError)
                },
            }),
            event matches RegistrationEvent::EmailSent(res) ==> (old(self).state() is Notifying ==> match res {
                Ok(_) => {
                    &&& final(self).state() is Done
                    &&& action == RegistrationAction::Respond(Response::Accepted)
                },
                Err(_) => {
                    &&& final(self).state() == RegistrationState::Failed(Stage::Notifying)
                    &&& action == RegistrationAction::Respond(Response::InternalServerError)
                },
            }),
    {
        let mut state = RegistrationState::Done;
        core::mem::swap(&mut state, &mut self.state);
        let (next, action) = match (state, event) {
            (RegistrationState::Validating, RegistrationEvent::Submitted { name, email }) => {
                match (name, email) {
                    (Some(name), Some(email)) => match NewSubscriber::parse(name, email) {
                        Ok(subscriber) => {
                            let email = subscriber.email.clone_email();
                            (
                                RegistrationState::Persisting { email },
                                RegistrationAction::InsertPending(subscriber),
                            )
                        },
                        Err(_) => (
                            RegistrationState::Failed(Stage::Validating),
                            RegistrationAction::Respond(Response::BadRequest),
                        ),
                    },
                    _ => (
                        RegistrationState::Failed(Stage::Validating),
                        RegistrationAction::Respond(Response::BadRequest),
                    ),
                }
            },
            (RegistrationState::Persisting { email }, RegistrationEvent::Inserted(res)) => {
                match res {
                    Ok(subscriber_id) => {
                        let token = generate_subscription_token();
                        let action = RegistrationAction::StoreToken {
                            token: token.clone(),
                            subscriber_id,
                        };
                        (RegistrationState::TokenIssued { email, subscriber_id, token }, action)
                    },
                    Err(_) => (
                        RegistrationState::Failed(Stage::Persisting),
                        RegistrationAction::Respond(Response::InternalServerError),
                    ),
                }
            },
            (
                RegistrationState::TokenIssued { email, token, .. },
                RegistrationEvent::TokenStored(res),
            ) => {
                match res {
                    Ok(()) => {
                        let message = confirmation_email(
                            email,
                            self.base_url.as_str(),
                            token.as_str(),
                        );
                        (RegistrationState::Notifying, RegistrationAction::SendEmail(message))
                    },
                    Err(_) => (
                        RegistrationState::Failed(Stage::TokenIssued),
                        RegistrationAction::Respond(Response::InternalServerError),
                    ),
                }
            },
            (RegistrationState::Notifying, RegistrationEvent::EmailSent(res)) => {
                match res {
                    Ok(()) => (RegistrationState::Done, RegistrationAction::Respond(Response::Accepted)),
                    Err(_) => (
                        RegistrationState::Failed(Stage::Notifying),
                        RegistrationAction::Respond(Response::InternalServerError),
                    ),
                }
            },
            (RegistrationState::Validating, _) => (
                RegistrationState::Failed(Stage::Validating),
                RegistrationAction::Respond(Response::InternalServerError),
            ),
            (RegistrationState::Persisting { .. }, _) => (
                RegistrationState::Failed(Stage::Persisting),
                RegistrationAction::Respond(Response::InternalServerError),
            ),
            (RegistrationState::TokenIssued { .. }, _) => (
                RegistrationState::Failed(Stage::TokenIssued),
                RegistrationAction::Respond(Response::InternalServerError),
            ),
            (RegistrationState::Notifying, _) => (
                RegistrationState::Failed(Stage::Notifying),
                RegistrationAction::Respond(Response::InternalServerError),
            ),
            (state, _) => (state, RegistrationAction::Respond(Response::InternalServerError)),
        };
        self.state = next;
        action
    }
}

} // verus!
