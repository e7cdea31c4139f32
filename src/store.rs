//! The record of subscribers and of the confirmation tokens issued to them.

use crate::domain::{SubscriberEmail, SubscriberName};
use vstd::prelude::*;

verus! {

/// Where a subscriber stands in the double opt-in.
#[derive(Debug, Clone, Copy, PartialEq, Eq, Structural)]
pub enum SubscriptionStatus {
    PendingConfirmation,
    Confirmed,
}

impl SubscriptionStatus {
    /// The status as it is stored: `pending_confirmation` or `confirmed`.
    pub fn as_str(&self) -> (r: &'static str)
        ensures
            *self == SubscriptionStatus::PendingConfirmation ==> r@ == "pending_confirmation"@,
            *self == SubscriptionStatus::Confirmed ==> r@ == "confirmed"@,
    {
        match self {
            SubscriptionStatus::PendingConfirmation => "pending_confirmation",
            SubscriptionStatus::Confirmed => "confirmed",
        }
    }
}

/// Why a store operation was refused.
#[derive(Debug, Clone, Copy, PartialEq, Eq, Structural)]
pub enum StoreError {
    /// A subscriber with that identifier already exists.
    DuplicateId,
    /// That token was already issued.
    DuplicateToken,
    /// The token would refer to a subscriber that does not exist.
    UnknownSubscriber,
    /// No such token was ever issued.
    TokenNotFound,
}

pub struct SubscriberModel {
    pub id: u128,
    pub email: Seq<char>,
    pub name: Seq<char>,
    pub status: SubscriptionStatus,
    pub subscribed_at: i64,
}

pub struct TokenModel {
    pub token: Seq<char>,
    pub subscriber_id: u128,
}

/// The store's contents: subscribers and tokens in the order they were added.
pub struct StoreModel {
    pub subscribers: Seq<SubscriberModel>,
    pub tokens: Seq<TokenModel>,
}

/// A subscriber record.
pub struct Subscriber {
    pub id: u128,
    pub email: SubscriberEmail,
    pub name: SubscriberName,
    pub status: SubscriptionStatus,
    pub subscribed_at: i64,
}

impl View for Subscriber {
    type V = SubscriberModel;

    open spec fn view(&self) -> SubscriberModel {
        SubscriberModel {
            id: self.id,
            email: self.email@,
            name: self.name@,
            status: self.status,
            subscribed_at: self.subscribed_at,
        }
    }
}

impl Subscriber {
    pub fn duplicate(&self) -> (r: Subscriber)
        ensures
            r@ == self@,
    {
        Subscriber {
            id: self.id,
            email: self.email.duplicate(),
            name: self.name.duplicate(),
            status: self.status,
            subscribed_at: self.subscribed_at,
        }
    }
}

/// A confirmation token and the subscriber it confirms.
pub struct ConfirmationToken {
    pub token: String,
    pub subscriber_id: u128,
}

impl View for ConfirmationToken {
    type V = TokenModel;

    open spec fn view(&self) -> TokenModel {
        TokenModel { token: self.token@, subscriber_id: self.subscriber_id }
    }
}

pub open spec fn has_subscriber(m: StoreModel, id: u128) -> bool {
    exists|i: int| 0 <= i < m.subscribers.len() && #[trigger] m.subscribers[i].id == id
}

pub open spec fn has_token(m: StoreModel, t: Seq<char>) -> bool {
    exists|i: int| 0 <= i < m.tokens.len() && #[trigger] m.tokens[i].token == t
}

/// Identifiers and tokens are unique, and every token refers to a subscriber
/// that exists.
pub open spec fn store_wf(m: StoreModel) -> bool {
    &&& forall|i: int, j: int|
        0 <= i < m.subscribers.len() && 0 <= j < m.subscribers.len() && i != j
            ==> #[trigger] m.subscribers[i].id != #[trigger] m.subscribers[j].id
    &&& forall|i: int, j: int|
        0 <= i < m.tokens.len() && 0 <= j < m.tokens.len() && i != j
            ==> #[trigger] m.tokens[i].token != #[trigger] m.tokens[j].token
    &&& forall|i: int| 0 <= i < m.tokens.len() ==> has_subscriber(m, #[trigger] m.tokens[i].subscriber_id)
}

/// The subscriber that token `t` refers to (meaningful when `has_token`).
pub open spec fn token_owner(m: StoreModel, t: Seq<char>) -> u128 {
    m.tokens[choose|i: int| 0 <= i < m.tokens.len() && #[trigger] m.tokens[i].token == t].subscriber_id
}

/// How many of `tokens` refer to subscriber `id`.
pub open spec fn token_count_for(tokens: Seq<TokenModel>, id: u128) -> nat
    decreases tokens.len(),
{
    if tokens.len() == 0 {
        0
    } else {
        token_count_for(tokens.drop_last(), id) + if tokens.last().subscriber_id == id {
            1nat
        } else {
            0nat
        }
    }
}

/// The status of subscriber `id`, if it exists.
pub open spec fn status_of(m: StoreModel, id: u128) -> Option<SubscriptionStatus> {
    if has_subscriber(m, id) {
        Some(
            m.subscribers[choose|i: int|
                0 <= i < m.subscribers.len() && #[trigger] m.subscribers[i].id == id].status,
        )
    } else {
        None
    }
}

/// `subs` with subscriber `id` marked confirmed.
pub open spec fn confirm_subscriber(subs: Seq<SubscriberModel>, id: u128) -> Seq<SubscriberModel> {
    subs.map_values(
        |s: SubscriberModel|
            if s.id == id {
                SubscriberModel { status: SubscriptionStatus::Confirmed, ..s }
            } else {
                s
            },
    )
}

/// Inserting a new pending subscriber.
pub open spec fn insert_model(m: StoreModel, s: SubscriberModel) -> (StoreModel, Result<(), StoreError>) {
    if has_subscriber(m, s.id) {
        (m, Err(StoreError::DuplicateId))
    } else {
        (StoreModel { subscribers: m.subscribers.push(s), tokens: m.tokens }, Ok(()))
    }
}

/// Recording token `t` for subscriber `id`.
pub open spec fn store_token_model(m: StoreModel, t: Seq<char>, id: u128) -> (StoreModel, Result<(), StoreError>) {
    if has_token(m, t) {
        (m, Err(StoreError::DuplicateToken))
    } else if !has_subscriber(m, id) {
        (m, Err(StoreError::UnknownSubscriber))
    } else {
        (
            StoreModel {
                subscribers: m.subscribers,
                tokens: m.tokens.push(TokenModel { token: t, subscriber_id: id }),
            },
            Ok(()),
        )
    }
}

/// Confirming by token `t`: the owner becomes confirmed; an unknown token is
/// refused and changes nothing.
pub open spec fn confirm_model(m: StoreModel, t: Seq<char>) -> (StoreModel, Result<(), StoreError>) {
    if has_token(m, t) {
        (
            StoreModel {
                subscribers: confirm_subscriber(m.subscribers, token_owner(m, t)),
                tokens: m.tokens,
            },
            Ok(()),
        )
    } else {
        (m, Err(StoreError::TokenNotFound))
    }
}

/// Subscribers and their confirmation tokens.
pub struct SubscriptionStore {
    subscribers: Vec<Subscriber>,
    tokens: Vec<ConfirmationToken>,
}

impl View for SubscriptionStore {
    type V = StoreModel;

    closed spec fn view(&self) -> StoreModel {
        StoreModel {
            subscribers: self.subscribers@.map_values(|s: Subscriber| s@),
            tokens: self.tokens@.map_values(|t: ConfirmationToken| t@),
        }
    }
}

impl SubscriptionStore {
    pub open spec fn wf(&self) -> bool {
        store_wf(self@)
    }

    pub fn new() -> (r: Self)
        ensures
            r.wf(),
            r@.subscribers.len() == 0,
            r@.tokens.len() == 0,
    {
        let r = SubscriptionStore { subscribers: Vec::new(), tokens: Vec::new() };
        assert(r@.subscribers.len() == 0);
        r
    }

    fn find_subscriber(&self, id: u128) -> (r: Option<usize>)
        ensures
            r matches Some(i) ==> i < self@.subscribers.len() && self@.subscribers[i as int].id == id,
            r is None <==> !has_subscriber(self@, id),
    {
        let mut i: usize = 0;
        while i < self.subscribers.len()
            invariant
                i <= self.subscribers@.len(),
                forall|k: int| 0 <= k < i ==> #[trigger] self@.subscribers[k].id != id,
            decreases self.subscribers@.len() - i,
        {
            if self.subscribers[i].id == id {
                assert(self@.subscribers[i as int].id == id);
                return Some(i);
            }
            i = i + 1;
        }
        None
    }

    fn find_token(&self, t: &String) -> (r: Option<usize>)
        ensures
            r matches Some(i) ==> i < self@.tokens.len() && self@.tokens[i as int].token == t@,
            r is None <==> !has_token(self@, t@),
    {
        let mut i: usize = 0;
        while i < self.tokens.len()
            invariant
                i <= self.tokens@.len(),
                forall|k: int| 0 <= k < i ==> #[trigger] self@.tokens[k].token != t@,
            decreases self.tokens@.len() - i,
        {
            if self.tokens[i].token == *t {
                assert(self@.tokens[i as int].token == t@);
                return Some(i);
            }
            i = i + 1;
        }
        None
    }

    /// Adds a subscriber, pending confirmation, refusing an identifier that is
    /// already in use.
    pub fn insert_subscriber(&mut self, s: Subscriber) -> (r: Result<(), StoreError>)
        requires
            old(self).wf(),
        ensures
            final(self).wf(),
            (final(self)@, r) == insert_model(
                old(self)@,
                SubscriberModel { status: SubscriptionStatus::PendingConfirmation, ..s@ },
            ),
    {
        if self.find_subscriber(s.id).is_some() {
            return Err(StoreError::DuplicateId);
        }
        let mut s = s;
        s.status = SubscriptionStatus::PendingConfirmation;
        let ghost m = self@;
        let ghost sv = s@;
        self.subscribers.push(s);
        assert(self@.subscribers =~= m.subscribers.push(sv));
        assert(self@.tokens =~= m.tokens);
        assert forall|i: int| 0 <= i < self@.tokens.len() implies has_subscriber(
            self@,
            #[trigger] self@.tokens[i].subscriber_id,
        ) by {
            let id = self@.tokens[i].subscriber_id;
            assert(has_subscriber(m, id));
            let k = choose|k: int| 0 <= k < m.subscribers.len() && #[trigger] m.subscribers[k].id == id;
            assert(self@.subscribers[k].id == id);
        }
        Ok(())
    }

    /// Records token `token` for subscriber `id`, refusing a token that was
    /// already issued and a subscriber that does not exist.
    pub fn store_token(&mut self, token: String, id: u128) -> (r: Result<(), StoreError>)
        requires
            old(self).wf(),
        ensures
            final(self).wf(),
            (final(self)@, r) == store_token_model(old(self)@, token@, id),
    {
        if self.find_token(&token).is_some() {
            return Err(StoreError::DuplicateToken);
        }
        if self.find_subscriber(id).is_none() {
            return Err(StoreError::UnknownSubscriber);
        }
        let ghost m = self@;
        let ghost tv = TokenModel { token: token@, subscriber_id: id };
        self.tokens.push(ConfirmationToken { token, subscriber_id: id });
        assert(self@.tokens =~= m.tokens.push(tv));
        assert(self@.subscribers =~= m.subscribers);
        Ok(())
    }

    /// Confirms the subscriber that `token` was issued to. Confirming an
    /// already confirmed subscriber succeeds and changes nothing.
    pub fn confirm_by_token(&mut self, token: &str) -> (r: Result<(), StoreError>)
        requires
            old(self).wf(),
        ensures
            final(self).wf(),
            (final(self)@, r) == confirm_model(old(self)@, token@),
    {
        let t = token.to_owned();
        let k = match self.find_token(&t) {
            None => return Err(StoreError::TokenNotFound),
            Some(k) => k,
        };
        let ghost m = self@;
        let id = self.tokens[k].subscriber_id;
        proof {
            let c = choose|i: int| 0 <= i < m.tokens.len() && #[trigger] m.tokens[i].token == t@;
            assert(m.tokens[k as int].token == t@);
            assert(c == k);
            assert(token_owner(m, token@) == id);
            assert(has_subscriber(m, m.tokens[k as int].subscriber_id));
        }
        let j = match self.find_subscriber(id) {
            None => return Err(StoreError::UnknownSubscriber),
            Some(j) => j,
        };
        let mut s = self.subscribers[j].duplicate();
        s.status = SubscriptionStatus::Confirmed;
        self.subscribers.set(j, s);
        proof {
            let want = confirm_subscriber(m.subscribers, id);
            assert forall|i: int| 0 <= i < want.len() implies #[trigger] self@.subscribers[i] == want[i] by {
                if i != j {
                    assert(m.subscribers[i].id != m.subscribers[j as int].id);
                }
            }
            assert(self@.subscribers =~= want);
            assert(self@.tokens =~= m.tokens);
            assert forall|i: int| 0 <= i < self@.tokens.len() implies has_subscriber(
                self@,
                #[trigger] self@.tokens[i].subscriber_id,
            ) by {
                let sid = self@.tokens[i].subscriber_id;
                assert(has_subscriber(m, sid));
                let q = choose|q: int| 0 <= q < m.subscribers.len() && #[trigger] m.subscribers[q].id == sid;
                assert(self@.subscribers[q].id == sid);
            }
        }
        Ok(())
    }
    pub fn subscriber_count(&self) -> (r: usize)
        ensures
            r == self@.subscribers.len(),
    {
        self.subscribers.len()
    }

    pub fn subscriber_at(&self, i: usize) -> (r: &Subscriber)
        requires
            i < self@.subscribers.len(),
        ensures
            r@ == self@.subscribers[i as int],
    {
        &self.subscribers[i]
    }

    pub fn token_count(&self) -> (r: usize)
        ensures
            r == self@.tokens.len(),
    {
        self.tokens.len()
    }

    pub fn token_at(&self, i: usize) -> (r: &ConfirmationToken)
        requires
            i < self@.tokens.len(),
        ensures
            r@ == self@.tokens[i as int],
    {
        &self.tokens[i]
    }

    /// The status of subscriber `id`, if it exists.
    pub fn find_status(&self, id: u128) -> (r: Option<SubscriptionStatus>)
        requires
            self.wf(),
        ensures
            r == status_of(self@, id),
    {
        match self.find_subscriber(id) {
            None => None,
            Some(j) => {
                proof {
                    let c = choose|i: int|
                        0 <= i < self@.subscribers.len() && #[trigger] self@.subscribers[i].id == id;
                    if c != j {
                        assert(self@.subscribers[c].id != self@.subscribers[j as int].id);
                    }
                }
                Some(self.subscribers[j].status)
            },
        }
    }

    /// The subscriber that `token` was issued to, if it was issued.
    pub fn find_token_owner(&self, token: &str) -> (r: Option<u128>)
        requires
            self.wf(),
        ensures
            r == (if has_token(self@, token@) {
                Some(token_owner(self@, token@))
            } else {
                None::<u128>
            }),
    {
        let t = token.to_owned();
        match self.find_token(&t) {
            None => None,
            Some(k) => {
                proof {
                    let c = choose|i: int|
                        0 <= i < self@.tokens.len() && #[trigger] self@.tokens[i].token == t@;
                    if c != k {
                        assert(self@.tokens[c].token != self@.tokens[k as int].token);
                    }
                }
                Some(self.tokens[k].subscriber_id)
            },
        }
    }
}

} // verus!
