//! The subscription lifecycle run against in-memory stores: registration and
//! confirmation as the state machines drive them, the outcomes as functions of the
//! stores, and the laws that hold between them.

use crate::domain::new_subscriber::subscription_accepted;
use crate::email_client::{EmailMessage, GatewayError};
use crate::routes::subscriptions::{
    confirmation_body_text, confirmation_link_text, is_subscription_token, Registration,
    RegistrationAction, RegistrationEvent, RegistrationState,
};
use crate::routes::subscriptions_confirm::{
    after_confirm, after_lookup, start_confirmation, ConfirmAction, Parameters,
};
use crate::routes::Response;
use crate::store::{
    confirm_row, confirm_rows, email_taken, id_taken, insert_pending_rows, rows_unique,
    store_token_rows, token_owner, token_taken, tokens_unique, SubscriberRow, SubscriberStore,
    SubscriptionStatus, TokenRow, TokenStore,
};
use vstd::prelude::*;

verus! {

/// A confirmation message as the contracts speak of it.
pub struct Notice {
    pub recipient: Seq<char>,
    pub subject: Seq<char>,
    pub html_content: Seq<char>,
}

pub open spec fn notice_of(m: Option<EmailMessage>) -> Option<Notice> {
    match m {
        Some(m) => Some(
            Notice { recipient: m.recipient@, subject: m.subject@, html_content: m.html_content@ },
        ),
        None => None,
    }
}

/// The stores, the response and the message handed to the delivery service after a
/// registration.
pub struct RegisterOutcome {
    pub subscribers: Seq<SubscriberRow>,
    pub tokens: Seq<TokenRow>,
    pub response: Response,
    pub notice: Option<Notice>,
}

pub open spec fn form_text_accepted(name: Option<Seq<char>>, email: Option<Seq<char>>) -> bool {
    &&& name is Some
    &&& email is Some
    &&& subscription_accepted(name.unwrap(), email.unwrap())
}

/// A registration of the form `name`, `email` against the stores, where the new
/// subscriber draws the id `id` and the token `token`, and the delivery service
/// accepts the message exactly when `delivered`.
pub open spec fn register_outcome(
    subscribers: Seq<SubscriberRow>,
    tokens: Seq<TokenRow>,
    name: Option<Seq<char>>,
    email: Option<Seq<char>>,
    base_url: Seq<char>,
    subscribed_at: i64,
    delivered: bool,
    id: u128,
    token: Seq<char>,
) -> RegisterOutcome {
    if !form_text_accepted(name, email) {
        RegisterOutcome { subscribers, tokens, response: Response::BadRequest, notice: None }
    } else {
        match insert_pending_rows(subscribers, id, name.unwrap(), email.unwrap(), subscribed_at) {
            None => RegisterOutcome {
                subscribers,
                tokens,
                response: Response::InternalServerError,
                notice: None,
            },
            Some(inserted) => match store_token_rows(tokens, token, id) {
                None => RegisterOutcome {
                    subscribers: inserted,
                    tokens,
                    response: Response::InternalServerError,
                    notice: None,
                },
                Some(issued) => RegisterOutcome {
                    subscribers: inserted,
                    tokens: issued,
                    response: if delivered {
                        Response::Accepted
                    } else {
                        Response::InternalServerError
                    },
                    notice: Some(
                        Notice {
                            recipient: email.unwrap(),
                            subject: "Welcome!"@,
                            html_content: confirmation_body_text(
                                confirmation_link_text(base_url, token),
                            ),
                        },
                    ),
                },
            },
        }
    }
}

/// A confirmation request against the stores: the subscribers afterwards and the response.
pub open spec fn confirm_outcome(
    subscribers: Seq<SubscriberRow>,
    tokens: Seq<TokenRow>,
    token: Option<Seq<char>>,
) -> (Seq<SubscriberRow>, Response) {
    match token {
        None => (subscribers, Response::BadRequest),
        Some(t) => match token_owner(tokens, t) {
            None => (subscribers, Response::Unauthorized),
            Some(id) => (confirm_rows(subscribers, id), Response::Accepted),
        },
    }
}

pub open spec fn text_of(s: Option<String>) -> Option<Seq<char>> {
    match s {
        Some(s) => Some(s@),
        None => None,
    }
}

/// Relies on `uuid::Uuid::new_v4` and `Uuid::as_u128`: a random identifier.
#[verifier::external_body]
fn new_subscriber_id() -> (r: u128) {
    uuid::Uuid::new_v4().as_u128()
}

/// The subscription lifecycle over a subscriber store and a token store.
pub struct SubscriptionService {
    subscribers: SubscriberStore,
    tokens: TokenStore,
}

impl SubscriptionService {
    pub closed spec fn subscribers_view(&self) -> Seq<SubscriberRow> {
        self.subscribers@
    }

    pub closed spec fn tokens_view(&self) -> Seq<TokenRow> {
        self.tokens@
    }

    pub closed spec fn well_formed(&self) -> bool {
        self.subscribers.well_formed() && self.tokens.well_formed()
    }

    pub fn new() -> (r: SubscriptionService)
        ensures
            r.well_formed(),
            r.subscribers_view() == Seq::<SubscriberRow>::empty(),
            r.tokens_view() == Seq::<TokenRow>::empty(),
    {
        SubscriptionService { subscribers: SubscriberStore::new(), tokens: TokenStore::new() }
    }

    pub fn subscribers(&self) -> (r: &SubscriberStore)
        ensures
            r@ == self.subscribers_view(),
            self.well_formed() ==> r.well_formed(),
    {
        &self.subscribers
    }

    pub fn tokens(&self) -> (r: &TokenStore)
        ensures
            r@ == self.tokens_view(),
            self.well_formed() ==> r.well_formed(),
    {
        &self.tokens
    }

    /// Registers the form `name`, `email`: validates it, writes the pending subscriber,
    /// issues a token, and hands a confirmation message to the delivery service, whose
    /// answer is `delivery`. Returns the response and the message, if one was handed over.
    pub fn register(
        &mut self,
        name: Option<String>,
        email: Option<String>,
        base_url: String,
        subscribed_at: i64,
        delivery: Result<(), GatewayError>,
    ) -> (r: (Response, Option<EmailMessage>))
        requires
            old(self).well_formed(),
        ensures
            final(self).well_formed(),
            exists|id: u128, token: Seq<char>|
                {
                    &&& #[trigger] register_outcome(
                        old(self).subscribers_view(),
                        old(self).tokens_view(),
                        text_of(name),
                        text_of(email),
                        base_url@,
                        subscribed_at,
                        delivery is Ok,
                        id,
                        token,
                    ) == RegisterOutcome {
                        subscribers: final(self).subscribers_view(),
                        tokens: final(self).tokens_view(),
                        response: r.0,
                        notice: notice_of(r.1),
                    }
                    &&& r.1 is Some ==> is_subscription_token(token)
                },
            !form_text_accepted(text_of(name), text_of(email)) ==> {
                &&& r.0 == Response::BadRequest
                &&& r.1 is None
                &&& final(self).subscribers_view() == old(self).subscribers_view()
                &&& final(self).tokens_view() == old(self).tokens_view()
            },
    {
        let ghost old_subs = self.subscribers@;
        let ghost old_tokens = self.tokens@;
        let ghost base = base_url@;
        let ghost name_text = text_of(name);
        let ghost email_text = text_of(email);
        let mut registration = Registration::new(base_url);
        let first = registration.step(RegistrationEvent::Submitted { name, email });
        let subscriber = match first {
            RegistrationAction::InsertPending(subscriber) => subscriber,
            RegistrationAction::Respond(response) => {
                assert(register_outcome(old_subs, old_tokens, name_text, email_text, base,
                    subscribed_at, delivery is Ok, 0, Seq::empty()) == RegisterOutcome {
                    subscribers: self.subscribers@,
                    tokens: self.tokens@,
                    response,
                    notice: None,
                });
                assert(old_subs == old(self).subscribers_view());
                assert(old_tokens == old(self).tokens_view());
                return (response, None);
            },
            _ => {
                return (Response::InternalServerError, None);
            },
        };
        let id = new_subscriber_id();
        let inserted = self.subscribers.insert_pending(id, &subscriber, subscribed_at);
        let second = registration.step(RegistrationEvent::Inserted(inserted));
        let (token, subscriber_id) = match second {
            RegistrationAction::StoreToken { token, subscriber_id } => (token, subscriber_id),
            RegistrationAction::Respond(response) => {
                assert(register_outcome(old_subs, old_tokens, name_text, email_text, base,
                    subscribed_at, delivery is Ok, id, Seq::empty()) == RegisterOutcome {
                    subscribers: self.subscribers@,
                    tokens: self.tokens@,
                    response,
                    notice: None,
                });
                assert(old_subs == old(self).subscribers_view());
                assert(old_tokens == old(self).tokens_view());
                return (response, None);
            },
            _ => {
                return (Response::InternalServerError, None);
            },
        };
        let stored = self.tokens.store(token.as_str(), subscriber_id);
        let third = registration.step(RegistrationEvent::TokenStored(stored));
        let message = match third {
            RegistrationAction::SendEmail(message) => message,
            RegistrationAction::Respond(response) => {
                assert(register_outcome(old_subs, old_tokens, name_text, email_text, base,
                    subscribed_at, delivery is Ok, id, token@) == RegisterOutcome {
                    subscribers: self.subscribers@,
                    tokens: self.tokens@,
                    response,
                    notice: None,
                });
                assert(old_subs == old(self).subscribers_view());
                assert(old_tokens == old(self).tokens_view());
                return (response, None);
            },
            _ => {
                return (Response::InternalServerError, None);
            },
        };
        let fourth = registration.step(RegistrationEvent::EmailSent(delivery));
        match fourth {
            RegistrationAction::Respond(response) => {
                assert(register_outcome(old_subs, old_tokens, name_text, email_text, base,
                    subscribed_at, delivery is Ok, id, token@) == RegisterOutcome {
                    subscribers: self.subscribers@,
                    tokens: self.tokens@,
                    response,
                    notice: notice_of(Some(message)),
                });
                assert(old_subs == old(self).subscribers_view());
                assert(old_tokens == old(self).tokens_view());
                assert(is_subscription_token(token@));
                (response, Some(message))
            },
            _ => (Response::InternalServerError, Some(message)),
        }
    }

    /// Confirms the subscriber that the request's token was issued to.
    pub fn confirm(&mut self, parameters: Option<Parameters>) -> (r: Response)
        requires
            old(self).well_formed(),
        ensures
            final(self).well_formed(),
            final(self).tokens_view() == old(self).tokens_view(),
            (final(self).subscribers_view(), r) == confirm_outcome(
                old(self).subscribers_view(),
                old(self).tokens_view(),
                match parameters {
                    Some(p) => Some(p@),
                    None => None,
                },
            ),
            parameters is None ==> r == Response::BadRequest,
    {
        let token = match start_confirmation(parameters) {
            ConfirmAction::Lookup(token) => token,
            ConfirmAction::Respond(response) => {
                return response;
            },
            ConfirmAction::Confirm(_) => {
                return Response::InternalServerError;
            },
        };
        let found = self.tokens.lookup(token.as_str());
        match after_lookup(found) {
            ConfirmAction::Confirm(id) => {
                let updated = self.subscribers.confirm(id);
                after_confirm(updated)
            },
            ConfirmAction::Respond(response) => response,
            ConfirmAction::Lookup(_) => Response::InternalServerError,
        }
    }
}

/// Writing a pending subscriber keeps ids and emails unique.
pub proof fn lemma_insert_pending_keeps_unique(
    rows: Seq<SubscriberRow>,
    id: u128,
    name: Seq<char>,
    email: Seq<char>,
    subscribed_at: i64,
)
    requires
        rows_unique(rows),
    ensures
        insert_pending_rows(rows, id, name, email, subscribed_at) matches Some(next) ==> rows_unique(
            next,
        ),
{
    if let Some(next) = insert_pending_rows(rows, id, name, email, subscribed_at) {
        assert forall|i: int, j: int|
            0 <= i < next.len() && 0 <= j < next.len() && i != j implies (#[trigger] next[i]).id
            != (#[trigger] next[j]).id && next[i].email != next[j].email by {
            if i < rows.len() && j < rows.len() {
                assert(next[i] == rows[i] && next[j] == rows[j]);
            } else if i < rows.len() {
                assert(next[i] == rows[i]);
            } else {
                assert(next[j] == rows[j]);
            }
        }
    }
}

/// Storing a token keeps tokens unique, and the token then leads to its subscriber.
pub proof fn lemma_store_token_keeps_unique(rows: Seq<TokenRow>, token: Seq<char>, id: u128)
    requires
        tokens_unique(rows),
    ensures
        store_token_rows(rows, token, id) matches Some(next) ==> tokens_unique(next)
            && token_owner(next, token) == Some(id),
{
    if let Some(next) = store_token_rows(rows, token, id) {
        assert forall|i: int, j: int|
            0 <= i < next.len() && 0 <= j < next.len() && i != j implies (
            #[trigger] next[i]).token != (#[trigger] next[j]).token by {
            if i < rows.len() && j < rows.len() {
                assert(next[i] == rows[i] && next[j] == rows[j]);
            } else if i < rows.len() {
                assert(next[i] == rows[i]);
            } else {
                assert(next[j] == rows[j]);
            }
        }
        let last = rows.len() as int;
        assert(next[last].token == token);
        let k = choose|k: int| 0 <= k < next.len() && (#[trigger] next[k]).token == token;
        assert(k == last);
    }
}

/// Every registration, whatever its outcome, leaves no two subscribers with one id or
/// one email, and no token issued twice.
pub proof fn lemma_register_keeps_unique(
    subscribers: Seq<SubscriberRow>,
    tokens: Seq<TokenRow>,
    name: Option<Seq<char>>,
    email: Option<Seq<char>>,
    base_url: Seq<char>,
    subscribed_at: i64,
    delivered: bool,
    id: u128,
    token: Seq<char>,
)
    requires
        rows_unique(subscribers),
        tokens_unique(tokens),
    ensures
        ({
            let out = register_outcome(
                subscribers,
                tokens,
                name,
                email,
                base_url,
                subscribed_at,
                delivered,
                id,
                token,
            );
            rows_unique(out.subscribers) && tokens_unique(out.tokens)
        }),
{
    if form_text_accepted(name, email) {
        lemma_insert_pending_keeps_unique(subscribers, id, name.unwrap(), email.unwrap(), subscribed_at);
        lemma_store_token_keeps_unique(tokens, token, id);
    }
}

/// Registering a valid form whose email is new, with an id and a token that are not in
/// use, writes one subscriber pending confirmation and hands over one message, whose
/// link carries the token; confirming with that token then succeeds and marks that
/// subscriber confirmed.
pub proof fn lemma_register_then_confirm(
    subscribers: Seq<SubscriberRow>,
    tokens: Seq<TokenRow>,
    name: Seq<char>,
    email: Seq<char>,
    base_url: Seq<char>,
    subscribed_at: i64,
    id: u128,
    token: Seq<char>,
)
    requires
        rows_unique(subscribers),
        tokens_unique(tokens),
        subscription_accepted(name, email),
        !email_taken(subscribers, email),
        !id_taken(subscribers, id),
        !token_taken(tokens, token),
    ensures
        ({
            let out = register_outcome(
                subscribers,
                tokens,
                Some(name),
                Some(email),
                base_url,
                subscribed_at,
                true,
                id,
                token,
            );
            let pending = SubscriberRow {
                id,
                name,
                email,
                subscribed_at,
                status: SubscriptionStatus::PendingConfirmation,
            };
            let confirmed = SubscriberRow { status: SubscriptionStatus::Confirmed, ..pending };
            &&& out.response == Response::Accepted
            &&& out.subscribers == subscribers.push(pending)
            &&& out.notice == Some(
                Notice {
                    recipient: email,
                    subject: "Welcome!"@,
                    html_content: confirmation_body_text(confirmation_link_text(base_url, token)),
                },
            )
            &&& confirm_outcome(out.subscribers, out.tokens, Some(token)) == (
                subscribers.push(confirmed),
                Response::Accepted,
            )
        }),
{
    let out = register_outcome(
        subscribers,
        tokens,
        Some(name),
        Some(email),
        base_url,
        subscribed_at,
        true,
        id,
        token,
    );
    let pending = SubscriberRow {
        id,
        name,
        email,
        subscribed_at,
        status: SubscriptionStatus::PendingConfirmation,
    };
    let confirmed = SubscriberRow { status: SubscriptionStatus::Confirmed, ..pending };
    lemma_store_token_keeps_unique(tokens, token, id);
    assert(token_owner(out.tokens, token) == Some(id));
    let after = confirm_rows(out.subscribers, id);
    assert forall|i: int| 0 <= i < subscribers.len() implies after[i] == subscribers[i] by {
        assert(out.subscribers[i] == subscribers[i]);
        assert(subscribers[i].id != id);
    }
    assert(after[subscribers.len() as int] == confirmed);
    assert(after =~= subscribers.push(confirmed));
}

/// A second registration of an email that a subscriber holds is refused with a server
/// error and changes nothing: the email stays with one subscriber.
pub proof fn lemma_duplicate_email_refused(
    subscribers: Seq<SubscriberRow>,
    tokens: Seq<TokenRow>,
    first_name: Seq<char>,
    second_name: Seq<char>,
    email: Seq<char>,
    base_url: Seq<char>,
    first_at: i64,
    second_at: i64,
    first_delivered: bool,
    second_delivered: bool,
    first_id: u128,
    second_id: u128,
    first_token: Seq<char>,
    second_token: Seq<char>,
)
    requires
        rows_unique(subscribers),
        tokens_unique(tokens),
        subscription_accepted(first_name, email),
        subscription_accepted(second_name, email),
    ensures
        ({
            let first = register_outcome(
                subscribers,
                tokens,
                Some(first_name),
                Some(email),
                base_url,
                first_at,
                first_delivered,
                first_id,
                first_token,
            );
            let second = register_outcome(
                first.subscribers,
                first.tokens,
                Some(second_name),
                Some(email),
                base_url,
                second_at,
                second_delivered,
                second_id,
                second_token,
            );
            &&& rows_unique(second.subscribers)
            &&& first.response == Response::Accepted ==> {
                &&& second.response == Response::InternalServerError
                &&& second.subscribers == first.subscribers
                &&& second.tokens == first.tokens
                &&& second.notice is None
            }
        }),
{
    let first = register_outcome(
        subscribers,
        tokens,
        Some(first_name),
        Some(email),
        base_url,
        first_at,
        first_delivered,
        first_id,
        first_token,
    );
    lemma_register_keeps_unique(
        subscribers,
        tokens,
        Some(first_name),
        Some(email),
        base_url,
        first_at,
        first_delivered,
        first_id,
        first_token,
    );
    lemma_register_keeps_unique(
        first.subscribers,
        first.tokens,
        Some(second_name),
        Some(email),
        base_url,
        second_at,
        second_delivered,
        second_id,
        second_token,
    );
    if first.response == Response::Accepted {
        let last = subscribers.len() as int;
        assert(first.subscribers[last].email == email);
        assert(email_taken(first.subscribers, email));
    }
}

/// Confirming with a token that was never issued is unauthorized and changes nothing;
/// confirming twice with an issued token succeeds both times, and the second time
/// changes nothing and its subscriber stays confirmed.
pub proof fn lemma_confirm_unknown_and_repeated(
    subscribers: Seq<SubscriberRow>,
    tokens: Seq<TokenRow>,
    token: Seq<char>,
)
    ensures
        token_owner(tokens, token) is None ==> confirm_outcome(subscribers, tokens, Some(token))
            == (subscribers, Response::Unauthorized),
        token_owner(tokens, token) matches Some(id) ==> {
            let first = confirm_outcome(subscribers, tokens, Some(token));
            let second = confirm_outcome(first.0, tokens, Some(token));
            &&& first.1 == Response::Accepted
            &&& second.1 == Response::Accepted
            &&& second.0 == first.0
            &&& forall|i: int|
                0 <= i < second.0.len() && (#[trigger] second.0[i]).id == id ==> second.0[i].status
                    == SubscriptionStatus::Confirmed
        },
{
    if let Some(id) = token_owner(tokens, token) {
        let first = confirm_rows(subscribers, id);
        let second = confirm_rows(first, id);
        assert forall|i: int| 0 <= i < first.len() implies second[i] == first[i] by {
            assert(first[i] == confirm_row(subscribers[i], id));
        }
        assert(second =~= first);
    }
}

/// The subscribers only grow and only advance: a registration keeps every row and may
/// add one pending confirmation; a confirmation keeps every row's identity and never
/// takes a confirmed subscriber back to pending.
pub proof fn lemma_status_never_goes_back(
    subscribers: Seq<SubscriberRow>,
    tokens: Seq<TokenRow>,
    name: Option<Seq<char>>,
    email: Option<Seq<char>>,
    base_url: Seq<char>,
    subscribed_at: i64,
    delivered: bool,
    id: u128,
    token: Seq<char>,
    confirmation: Option<Seq<char>>,
)
    ensures
        ({
            let out = register_outcome(
                subscribers,
                tokens,
                name,
                email,
                base_url,
                subscribed_at,
                delivered,
                id,
                token,
            ).subscribers;
            &&& subscribers.len() <= out.len() <= subscribers.len() + 1
            &&& out.subrange(0, subscribers.len() as int) == subscribers
            &&& out.len() > subscribers.len() ==> out.last().status
                == SubscriptionStatus::PendingConfirmation
        }),
        ({
            let out = confirm_outcome(subscribers, tokens, confirmation).0;
            &&& out.len() == subscribers.len()
            &&& forall|i: int|
                0 <= i < out.len() ==> {
                    &&& (#[trigger] out[i]).id == subscribers[i].id
                    &&& out[i].name == subscribers[i].name
                    &&& out[i].email == subscribers[i].email
                    &&& out[i].subscribed_at == subscribers[i].subscribed_at
                    &&& subscribers[i].status == SubscriptionStatus::Confirmed ==> out[i].status
                        == SubscriptionStatus::Confirmed
                }
        }),
{
    let out = register_outcome(
        subscribers,
        tokens,
        name,
        email,
        base_url,
        subscribed_at,
        delivered,
        id,
        token,
    ).subscribers;
    assert(out.subrange(0, subscribers.len() as int) =~= subscribers);
}

} // verus!
