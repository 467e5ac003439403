//! The subscriber store, unique by id and by email, and the token store, unique by
//! token.

use crate::domain::NewSubscriber;
use crate::text::same_text;
use vstd::prelude::*;

verus! {

/// Where a subscriber stands in its lifecycle; the only transition is
/// `PendingConfirmation` to `Confirmed`.
#[derive(Clone, Copy, Debug, PartialEq, Eq, Structural)]
pub enum SubscriptionStatus {
    PendingConfirmation,
    Confirmed,
}

impl SubscriptionStatus {
    /// The status as it is written in the `subscriptions` table.
    pub fn as_str(&self) -> (r: &'static str)
        ensures
            *self == SubscriptionStatus::PendingConfirmation ==> r@ == "pending_confirmation"@,
            *self == SubscriptionStatus::Confirmed ==> r@ == "confirmed"@,
    {
        match self {
            SubscriptionStatus::PendingConfirmation => "pending_confirmation",
            SubscriptionStatus::Confirmed => "confirmed",
        }
    }
}

/// A failure of a store.
#[derive(Clone, Copy, Debug, PartialEq, Eq, Structural)]
pub enum StoreError {
    /// A unique key (a subscriber's id or email, a token) is taken already.
    Conflict,
    /// The backend failed for a transient reason.
    Unavailable,
}

/// A subscriber row, as the contracts speak of it.
pub struct SubscriberRow {
    pub id: u128,
    pub name: Seq<char>,
    pub email: Seq<char>,
    pub subscribed_at: i64,
    pub status: SubscriptionStatus,
}

/// A subscriber row of the store.
#[derive(Debug)]
pub struct SubscriberRecord {
    pub id: u128,
    pub name: String,
    pub email: String,
    pub subscribed_at: i64,
    pub status: SubscriptionStatus,
}

impl View for SubscriberRecord {
    type V = SubscriberRow;

    open spec fn view(&self) -> SubscriberRow {
        SubscriberRow {
            id: self.id,
            name: self.name@,
            email: self.email@,
            subscribed_at: self.subscribed_at,
            status: self.status,
        }
    }
}

pub open spec fn email_taken(rows: Seq<SubscriberRow>, email: Seq<char>) -> bool {
    exists|i: int| 0 <= i < rows.len() && (#[trigger] rows[i]).email == email
}

pub open spec fn id_taken(rows: Seq<SubscriberRow>, id: u128) -> bool {
    exists|i: int| 0 <= i < rows.len() && (#[trigger] rows[i]).id == id
}

/// No two rows share an id or an email.
pub open spec fn rows_unique(rows: Seq<SubscriberRow>) -> bool {
    forall|i: int, j: int|
        0 <= i < rows.len() && 0 <= j < rows.len() && i != j ==> (#[trigger] rows[i]).id
            != (#[trigger] rows[j]).id && rows[i].email != rows[j].email
}

/// The rows once a pending subscriber is inserted, or `None` where a key is taken.
pub open spec fn insert_pending_rows(
    rows: Seq<SubscriberRow>,
    id: u128,
    name: Seq<char>,
    email: Seq<char>,
    subscribed_at: i64,
) -> Option<Seq<SubscriberRow>> {
    if id_taken(rows, id) || email_taken(rows, email) {
        None
    } else {
        Some(
            rows.push(
                SubscriberRow {
                    id,
                    name,
                    email,
                    subscribed_at,
                    status: SubscriptionStatus::PendingConfirmation,
                },
            ),
        )
    }
}

pub open spec fn confirm_row(row: SubscriberRow, id: u128) -> SubscriberRow {
    if row.id == id {
        SubscriberRow { status: SubscriptionStatus::Confirmed, ..row }
    } else {
        row
    }
}

/// The rows once the subscriber `id`, if there is one, is confirmed.
pub open spec fn confirm_rows(rows: Seq<SubscriberRow>, id: u128) -> Seq<SubscriberRow> {
    rows.map_values(|row: SubscriberRow| confirm_row(row, id))
}

/// The status of the subscriber `id`, if there is one.
pub open spec fn status_of_id(rows: Seq<SubscriberRow>, id: u128) -> Option<SubscriptionStatus> {
    if id_taken(rows, id) {
        Some(rows[choose|i: int| 0 <= i < rows.len() && (#[trigger] rows[i]).id == id].status)
    } else {
        None
    }
}

/// The subscribers: one row each, keyed by id and unique by email.
pub struct SubscriberStore {
    records: Vec<SubscriberRecord>,
}

impl View for SubscriberStore {
    type V = Seq<SubscriberRow>;

    closed spec fn view(&self) -> Seq<SubscriberRow> {
        self.records@.map_values(|r: SubscriberRecord| r@)
    }
}

impl SubscriberStore {
    pub fn new() -> (r: SubscriberStore)
        ensures
            r@ == Seq::<SubscriberRow>::empty(),
            r.well_formed(),
    {
        let r = SubscriberStore { records: Vec::new() };
        assert(r@ =~= Seq::<SubscriberRow>::empty());
        r
    }

    pub open spec fn well_formed(&self) -> bool {
        rows_unique(self@)
    }

    pub fn len(&self) -> (r: usize)
        ensures
            r == self@.len(),
    {
        self.records.len()
    }

    /// The `i`th row.
    pub fn get(&self, i: usize) -> (r: &SubscriberRecord)
        requires
            i < self@.len(),
        ensures
            r@ == self@[i as int],
    {
        &self.records[i]
    }

    fn position_of_id(&self, id: u128) -> (r: Option<usize>)
        ensures
            r is None <==> !id_taken(self@, id),
            r matches Some(i) ==> i < self@.len() && self@[i as int].id == id,
    {
        let mut i: usize = 0;
        while i < self.records.len()
            invariant
                i <= self.records@.len(),
                self@.len() == self.records@.len(),
                forall|j: int| 0 <= j < i ==> (#[trigger] self@[j]).id != id,
            decreases self.records@.len() - i,
        {
            if self.records[i].id == id {
                return Some(i);
            }
            i = i + 1;
        }
        None
    }

    /// Index of the row holding `email`, if there is one.
    pub fn position_of_email(&self, email: &str) -> (r: Option<usize>)
        ensures
            r is None <==> !email_taken(self@, email@),
            r matches Some(i) ==> i < self@.len() && self@[i as int].email == email@,
    {
        let mut i: usize = 0;
        while i < self.records.len()
            invariant
                i <= self.records@.len(),
                self@.len() == self.records@.len(),
                forall|j: int| 0 <= j < i ==> (#[trigger] self@[j]).email != email@,
            decreases self.records@.len() - i,
        {
            if same_text(self.records[i].email.as_str(), email) {
                return Some(i);
            }
            i = i + 1;
        }
        None
    }

    /// Writes a row for `subscriber` under `id`, pending confirmation; fails with
    /// `Conflict` where the id or the email is taken.
    pub fn insert_pending(&mut self, id: u128, subscriber: &NewSubscriber, subscribed_at: i64) -> (r:
        Result<u128, StoreError>)
        requires
            old(self).well_formed(),
        ensures
            final(self).well_formed(),
            insert_pending_rows(old(self)@, id, subscriber.name@, subscriber.email@, subscribed_at)
                matches Some(rows) ==> r == Ok::<u128, StoreError>(id) && final(self)@ == rows,
            insert_pending_rows(old(self)@, id, subscriber.name@, subscriber.email@, subscribed_at)
                is None ==> r == Err::<u128, StoreError>(StoreError::Conflict) && final(self)@
                == old(self)@,
    {
        let email = subscriber.email.as_str();
        if self.position_of_id(id).is_some() || self.position_of_email(email).is_some() {
            return Err(StoreError::Conflict);
        }
        let record = SubscriberRecord {
            id,
            name: String::from_str(subscriber.name.as_str()),
            email: String::from_str(email),
            subscribed_at,
            status: SubscriptionStatus::PendingConfirmation,
        };
        let ghost before = self@;
        self.records.push(record);
        proof {
            assert(self@ =~= before.push(record@));
            assert forall|i: int, j: int|
                0 <= i < self@.len() && 0 <= j < self@.len() && i != j implies (
                #[trigger] self@[i]).id != (#[trigger] self@[j]).id && self@[i].email
                != self@[j].email by {
                if i < before.len() && j < before.len() {
                    assert(before[i] == self@[i] && before[j] == self@[j]);
                } else if i < before.len() {
                    assert(before[i] == self@[i]);
                } else {
                    assert(before[j] == self@[j]);
                }
            }
        }
        Ok(id)
    }

    /// Marks the subscriber `id` confirmed. Confirming a confirmed subscriber, or an
    /// id that no row holds, changes nothing and succeeds.
    pub fn confirm(&mut self, id: u128) -> (r: Result<(), StoreError>)
        requires
            old(self).well_formed(),
        ensures
            final(self).well_formed(),
            r is Ok,
            final(self)@ == confirm_rows(old(self)@, id),
    {
        let ghost before = self@;
        match self.position_of_id(id) {
            None => {
                assert(self@ =~= confirm_rows(before, id));
            },
            Some(i) => {
                let record = &self.records[i];
                let updated = SubscriberRecord {
                    id: record.id,
                    name: record.name.clone(),
                    email: record.email.clone(),
                    subscribed_at: record.subscribed_at,
                    status: SubscriptionStatus::Confirmed,
                };
                self.records.set(i, updated);
                proof {
                    assert forall|j: int| 0 <= j < before.len() implies self@[j] == confirm_row(
                        #[trigger] before[j],
                        id,
                    ) by {
                        if j != i {
                            assert(before[j].id != before[i as int].id);
                        }
                    }
                    assert(self@ =~= confirm_rows(before, id));
                }
            },
        }
        Ok(())
    }
}

} // verus!

verus! {

/// A confirmation token and the subscriber it was issued to, as the contracts speak of it.
pub struct TokenRow {
    pub token: Seq<char>,
    pub subscriber_id: u128,
}

/// A row of the token store.
#[derive(Debug)]
pub struct TokenRecord {
    pub token: String,
    pub subscriber_id: u128,
}

impl View for TokenRecord {
    type V = TokenRow;

    open spec fn view(&self) -> TokenRow {
        TokenRow { token: self.token@, subscriber_id: self.subscriber_id }
    }
}

pub open spec fn token_taken(rows: Seq<TokenRow>, token: Seq<char>) -> bool {
    exists|i: int| 0 <= i < rows.len() && (#[trigger] rows[i]).token == token
}

/// No two rows share a token.
pub open spec fn tokens_unique(rows: Seq<TokenRow>) -> bool {
    forall|i: int, j: int|
        0 <= i < rows.len() && 0 <= j < rows.len() && i != j ==> (#[trigger] rows[i]).token
            != (#[trigger] rows[j]).token
}

/// The subscriber that `token` was issued to, if it was issued.
pub open spec fn token_owner(rows: Seq<TokenRow>, token: Seq<char>) -> Option<u128> {
    if token_taken(rows, token) {
        Some(
            rows[choose|i: int| 0 <= i < rows.len() && (#[trigger] rows[i]).token == token].subscriber_id,
        )
    } else {
        None
    }
}

/// The rows once `token` is stored for `subscriber_id`, or `None` where the token is taken.
pub open spec fn store_token_rows(rows: Seq<TokenRow>, token: Seq<char>, subscriber_id: u128) -> Option<
    Seq<TokenRow>,
> {
    if token_taken(rows, token) {
        None
    } else {
        Some(rows.push(TokenRow { token, subscriber_id }))
    }
}

/// The issued confirmation tokens, each mapped to one subscriber.
pub struct TokenStore {
    records: Vec<TokenRecord>,
}

impl View for TokenStore {
    type V = Seq<TokenRow>;

    closed spec fn view(&self) -> Seq<TokenRow> {
        self.records@.map_values(|r: TokenRecord| r@)
    }
}

impl TokenStore {
    pub open spec fn well_formed(&self) -> bool {
        tokens_unique(self@)
    }

    pub fn new() -> (r: TokenStore)
        ensures
            r@ == Seq::<TokenRow>::empty(),
            r.well_formed(),
    {
        let r = TokenStore { records: Vec::new() };
        assert(r@ =~= Seq::<TokenRow>::empty());
        r
    }

    pub fn len(&self) -> (r: usize)
        ensures
            r == self@.len(),
    {
        self.records.len()
    }

    fn position_of(&self, token: &str) -> (r: Option<usize>)
        ensures
            r is None <==> !token_taken(self@, token@),
            r matches Some(i) ==> i < self@.len() && self@[i as int].token == token@,
    {
        let mut i: usize = 0;
        while i < self.records.len()
            invariant
                i <= self.records@.len(),
                self@.len() == self.records@.len(),
                forall|j: int| 0 <= j < i ==> (#[trigger] self@[j]).token != token@,
            decreases self.records@.len() - i,
        {
            if same_text(self.records[i].token.as_str(), token) {
                assert(self@[i as int] == self.records@[i as int]@);
                return Some(i);
            }
            i = i + 1;
        }
        None
    }

    /// Records that `token` was issued to `subscriber_id`; fails with `Conflict` where
    /// the token is taken.
    pub fn store(&mut self, token: &str, subscriber_id: u128) -> (r: Result<(), StoreError>)
        requires
            old(self).well_formed(),
        ensures
            final(self).well_formed(),
            store_token_rows(old(self)@, token@, subscriber_id) matches Some(rows) ==> r is Ok
                && final(self)@ == rows,
            store_token_rows(old(self)@, token@, subscriber_id) is None ==> r == Err::<
                (),
                StoreError,
            >(StoreError::Conflict) && final(self)@ == old(self)@,
    {
        if self.position_of(token).is_some() {
            return Err(StoreError::Conflict);
        }
        let record = TokenRecord { token: String::from_str(token), subscriber_id };
        let ghost before = self@;
        self.records.push(record);
        proof {
            assert(self@ =~= before.push(record@));
            assert forall|i: int, j: int|
                0 <= i < self@.len() && 0 <= j < self@.len() && i != j implies (
                #[trigger] self@[i]).token != (#[trigger] self@[j]).token by {
                if i < before.len() && j < before.len() {
                    assert(before[i] == self@[i] && before[j] == self@[j]);
                } else if i < before.len() {
                    assert(before[i] == self@[i]);
                } else {
                    assert(before[j] == self@[j]);
                }
            }
        }
        Ok(())
    }

    /// The subscriber that `token` was issued to; an unknown token gives `None`, which
    /// is no fault of the store.
    pub fn lookup(&self, token: &str) -> (r: Result<Option<u128>, StoreError>)
        requires
            self.well_formed(),
        ensures
            r == Ok::<Option<u128>, StoreError>(token_owner(self@, token@)),
    {
        match self.position_of(token) {
            None => Ok(None),
            Some(i) => {
                let id = self.records[i].subscriber_id;
                proof {
                    let k = choose|k: int| 0 <= k < self@.len() && (#[trigger] self@[k]).token == token@;
                    assert(self@[k].token == self@[i as int].token);
                }
                Ok(Some(id))
            },
        }
    }
}

} // verus!
