//! The submit and confirm flows, from untrusted input to a response status.

use crate::domain::{email_valid, name_valid, SubscriberEmail, SubscriberName};
use crate::email_client::{delivery_result, request_is, EmailClient, SendEmailRequest};
use crate::store::{
    confirm_model, has_subscriber, has_token, insert_model, status_of, store_token_model,
    store_wf, token_count_for, token_owner, StoreError, StoreModel, Subscriber, SubscriberModel,
    SubscriptionStatus, SubscriptionStore, TokenModel,
};
use crate::token::{generate_subscription_token, token_shape};
use vstd::prelude::*;

verus! {

/// Relies on `uuid::Uuid::new_v4` and `Uuid::as_u128`: a random identifier.
/// `new_v4` panics only when the operating system's random source fails.
#[verifier::external_body]
fn new_subscriber_id() -> (r: u128) {
    uuid::Uuid::new_v4().as_u128()
}

/// Relies on `chrono::Utc::now` and `DateTime::timestamp`: the current time in
/// seconds since the Unix epoch. `Utc::now` panics only when the system clock
/// is set before 1970.
#[verifier::external_body]
fn now_timestamp() -> (r: i64) {
    chrono::Utc::now().timestamp()
}

/// A submitted subscription form.
pub struct FormData {
    pub email: String,
    pub name: String,
}

pub open spec fn confirm_path() -> Seq<char> {
    "/subscriptions/confirm?token="@
}

/// The confirmation link for `token` under the application's base URL.
pub open spec fn link_for(base_url: Seq<char>, token: Seq<char>) -> Seq<char> {
    base_url + confirm_path() + token
}

pub open spec fn confirmation_subject() -> Seq<char> {
    "Welcome!"@
}

pub open spec fn confirmation_content_type() -> Seq<char> {
    "text/html"@
}

/// The confirmation message: `link` is its one link.
pub open spec fn confirmation_body(link: Seq<char>) -> Seq<char> {
    "Welcome to our newsletter!<br />Click <a href=\""@ + link
        + "\">here</a> to confirm your subscription."@
}

/// Where a submission ended before any email was sent.
pub enum SubmitStep {
    /// The name or the email was malformed: nothing was stored.
    Rejected,
    /// The store refused the subscriber or its token.
    Failed,
    /// Subscriber and token are stored; this confirmation email is to be sent.
    Send(SendEmailRequest),
}

/// The outcome of a submission, without the email it may carry.
#[derive(PartialEq, Eq, Structural)]
pub enum SubmitKind {
    Rejected,
    Failed,
    Send,
}

/// The outcome of `s`.
pub open spec fn step_kind(s: SubmitStep) -> SubmitKind {
    match s {
        SubmitStep::Rejected => SubmitKind::Rejected,
        SubmitStep::Failed => SubmitKind::Failed,
        SubmitStep::Send(_) => SubmitKind::Send,
    }
}

/// The pending subscriber that a valid submission creates.
pub open spec fn pending(id: u128, email: Seq<char>, name: Seq<char>, at: i64) -> SubscriberModel {
    SubscriberModel {
        id,
        email,
        name,
        status: SubscriptionStatus::PendingConfirmation,
        subscribed_at: at,
    }
}

/// Validate, insert the subscriber, then store its token. Each refusal ends
/// the flow; what was stored before it stays.
pub open spec fn submit_model(
    m: StoreModel,
    name: Seq<char>,
    email: Seq<char>,
    id: u128,
    token: Seq<char>,
    at: i64,
) -> (StoreModel, SubmitKind) {
    if !name_valid(name) || !email_valid(email) {
        (m, SubmitKind::Rejected)
    } else {
        let (m1, r1) = insert_model(m, pending(id, email, name, at));
        if r1 is Err {
            (m1, SubmitKind::Failed)
        } else {
            let (m2, r2) = store_token_model(m1, token, id);
            if r2 is Err {
                (m2, SubmitKind::Failed)
            } else {
                (m2, SubmitKind::Send)
            }
        }
    }
}

/// A delivery attempt succeeded: the provider answered with a 2xx status.
pub open spec fn delivered(status: Option<u16>) -> bool {
    status matches Some(c) && 200 <= c <= 299
}

/// The response status of a submission.
pub open spec fn submit_status_model(kind: SubmitKind, delivery: Option<u16>) -> u16 {
    match kind {
        SubmitKind::Rejected => 400,
        SubmitKind::Failed => 500,
        SubmitKind::Send => if delivered(delivery) {
            200
        } else {
            500
        },
    }
}

/// The characters of an optional string.
pub open spec fn opt_view(o: Option<String>) -> Option<Seq<char>> {
    match o {
        Some(s) => Some(s@),
        None => None,
    }
}

/// The confirm flow: no token is a bad request (400), an unknown token is
/// unauthorized (401), any other store refusal is a server error (500).
pub open spec fn confirm_flow_model(m: StoreModel, token: Option<Seq<char>>) -> (StoreModel, u16) {
    match token {
        None => (m, 400),
        Some(t) => {
            let (m1, r) = confirm_model(m, t);
            (
                m1,
                match r {
                    Ok(_) => 200,
                    Err(StoreError::TokenNotFound) => 401,
                    Err(_) => 500,
                },
            )
        },
    }
}

/// The confirmation link for `token`.
pub fn confirmation_link(base_url: &str, token: &str) -> (r: String)
    ensures
        r@ == link_for(base_url@, token@),
{
    let mut link = base_url.to_owned();
    link.append("/subscriptions/confirm?token=");
    link.append(token);
    link
}

/// The confirmation message embedding `link`.
pub fn confirmation_email_body(link: &str) -> (r: String)
    ensures
        r@ == confirmation_body(link@),
{
    let mut body = String::from_str("Welcome to our newsletter!<br />Click <a href=\"");
    body.append(link);
    body.append("\">here</a> to confirm your subscription.");
    body
}

/// Runs a submission with the given identifier, token and time.
pub fn subscribe_with(
    store: &mut SubscriptionStore,
    client: &EmailClient,
    base_url: &str,
    form: FormData,
    id: u128,
    token: String,
    subscribed_at: i64,
) -> (r: SubmitStep)
    requires
        old(store).wf(),
    ensures
        final(store).wf(),
        (final(store)@, step_kind(r)) == submit_model(
            old(store)@,
            form.name@,
            form.email@,
            id,
            token@,
            subscribed_at,
        ),
        r matches SubmitStep::Send(req) ==> request_is(
            req,
            client.sender_spec(),
            form.email@,
            confirmation_subject(),
            confirmation_content_type(),
            confirmation_body(link_for(base_url@, token@)),
        ),
{
    let ghost name_v = form.name@;
    let ghost email_v = form.email@;
    let name = match SubscriberName::parse(form.name) {
        Ok(n) => n,
        Err(_) => return SubmitStep::Rejected,
    };
    let email = match SubscriberEmail::parse(form.email) {
        Ok(e) => e,
        Err(_) => return SubmitStep::Rejected,
    };
    let recipient = email.duplicate();
    let subscriber = Subscriber {
        id,
        email,
        name,
        status: SubscriptionStatus::PendingConfirmation,
        subscribed_at,
    };
    assert(subscriber@ == pending(id, email_v, name_v, subscribed_at));
    if store.insert_subscriber(subscriber).is_err() {
        return SubmitStep::Failed;
    }
    let link = confirmation_link(base_url, token.as_str());
    if store.store_token(token, id).is_err() {
        return SubmitStep::Failed;
    }
    let body = confirmation_email_body(link.as_str());
    SubmitStep::Send(client.build_request(&recipient, "Welcome!", "text/html", body.as_str()))
}

/// Runs a submission with a fresh random identifier and token, stamped with
/// the current time.
pub fn subscribe(
    store: &mut SubscriptionStore,
    client: &EmailClient,
    base_url: &str,
    form: FormData,
) -> (r: SubmitStep)
    requires
        old(store).wf(),
    ensures
        final(store).wf(),
        exists|id: u128, token: Seq<char>, at: i64|
            {
                &&& token_shape(token)
                &&& (final(store)@, step_kind(r)) == submit_model(
                    old(store)@,
                    form.name@,
                    form.email@,
                    id,
                    token,
                    at,
                )
                &&& r matches SubmitStep::Send(req) ==> request_is(
                    req,
                    client.sender_spec(),
                    form.email@,
                    confirmation_subject(),
                    confirmation_content_type(),
                    confirmation_body(link_for(base_url@, token)),
                )
            },
{
    let ghost name_v = form.name@;
    let ghost email_v = form.email@;
    let id = new_subscriber_id();
    let token = generate_subscription_token();
    let ghost token_v = token@;
    let at = now_timestamp();
    let r = subscribe_with(store, client, base_url, form, id, token, at);
    assert(token_shape(token_v));
    r
}

/// The response status of a submission, given what the delivery attempt
/// returned (`None`: no answer in time, or no attempt).
pub fn submit_status(step: &SubmitStep, delivery: Option<u16>) -> (r: u16)
    ensures
        r == submit_status_model(step_kind(*step), delivery),
{
    match step {
        SubmitStep::Rejected => 400,
        SubmitStep::Failed => 500,
        SubmitStep::Send(_) => if delivery_result(delivery).is_ok() {
            200
        } else {
            500
        },
    }
}

/// Confirms a subscription by the token a request carried, if any, and gives
/// the response status.
pub fn confirm(store: &mut SubscriptionStore, token: Option<String>) -> (r: u16)
    requires
        old(store).wf(),
    ensures
        final(store).wf(),
        (final(store)@, r) == confirm_flow_model(old(store)@, opt_view(token)),
        token is None ==> r == 400 && final(store)@ == old(store)@,
        token matches Some(t) && !has_token(old(store)@, t@) ==> r == 401 && final(store)@
            == old(store)@,
        token matches Some(t) && has_token(old(store)@, t@) ==> r == 200,
{
    match token {
        None => 400,
        Some(t) => match store.confirm_by_token(t.as_str()) {
            Ok(()) => 200,
            Err(StoreError::TokenNotFound) => 401,
            Err(_) => 500,
        },
    }
}

proof fn lemma_no_tokens_for(tokens: Seq<TokenModel>, id: u128)
    requires
        forall|i: int| 0 <= i < tokens.len() ==> #[trigger] tokens[i].subscriber_id != id,
    ensures
        token_count_for(tokens, id) == 0,
    decreases tokens.len(),
{
    if tokens.len() > 0 {
        let rest = tokens.drop_last();
        assert forall|i: int| 0 <= i < rest.len() implies #[trigger] rest[i].subscriber_id != id by {
            assert(rest[i] == tokens[i]);
        }
        lemma_no_tokens_for(rest, id);
    }
}

/// A valid submission whose identifier and token are new leaves the store
/// with one more subscriber, pending confirmation, and exactly one token that
/// refers to it; the confirmation email is then to be sent.
pub proof fn lemma_valid_submission_is_pending_with_one_token(
    m: StoreModel,
    name: Seq<char>,
    email: Seq<char>,
    id: u128,
    token: Seq<char>,
    at: i64,
)
    requires
        store_wf(m),
        name_valid(name),
        email_valid(email),
        !has_subscriber(m, id),
        !has_token(m, token),
    ensures
        ({
            let (m2, kind) = submit_model(m, name, email, id, token, at);
            &&& kind == SubmitKind::Send
            &&& m2.subscribers == m.subscribers.push(pending(id, email, name, at))
            &&& status_of(m2, id) == Some(SubscriptionStatus::PendingConfirmation)
            &&& token_count_for(m2.tokens, id) == 1
            &&& has_token(m2, token)
            &&& token_owner(m2, token) == id
        }),
{
    let p = pending(id, email, name, at);
    let m1 = StoreModel { subscribers: m.subscribers.push(p), tokens: m.tokens };
    let last = m.subscribers.len() as int;
    assert(m1.subscribers[last].id == id);
    assert(has_subscriber(m1, id));
    assert(!has_token(m1, token));
    let m2 = StoreModel {
        subscribers: m1.subscribers,
        tokens: m.tokens.push(TokenModel { token, subscriber_id: id }),
    };
    assert(submit_model(m, name, email, id, token, at) == (m2, SubmitKind::Send));
    assert(has_subscriber(m2, id));
    let c = choose|i: int| 0 <= i < m2.subscribers.len() && #[trigger] m2.subscribers[i].id == id;
    if c != last {
        assert(m.subscribers[c].id == id);
    }
    assert(status_of(m2, id) == Some(SubscriptionStatus::PendingConfirmation));
    assert forall|i: int| 0 <= i < m.tokens.len() implies #[trigger] m.tokens[i].subscriber_id != id by {
        assert(has_subscriber(m, m.tokens[i].subscriber_id));
    }
    lemma_no_tokens_for(m.tokens, id);
    assert(m2.tokens.drop_last() =~= m.tokens);
    assert(token_count_for(m2.tokens, id) == 1);
    let tl = m.tokens.len() as int;
    assert(m2.tokens[tl].token == token);
    assert(has_token(m2, token));
    let k = choose|i: int| 0 <= i < m2.tokens.len() && #[trigger] m2.tokens[i].token == token;
    if k != tl {
        assert(m.tokens[k].token == token);
    }
}

/// A malformed name or email is refused with a client error, and the store is
/// left as it was.
pub proof fn lemma_malformed_submission_is_rejected(
    m: StoreModel,
    name: Seq<char>,
    email: Seq<char>,
    id: u128,
    token: Seq<char>,
    at: i64,
    delivery: Option<u16>,
)
    requires
        !name_valid(name) || !email_valid(email),
    ensures
        submit_model(m, name, email, id, token, at) == (m, SubmitKind::Rejected),
        submit_status_model(SubmitKind::Rejected, delivery) == 400,
{
}

/// Confirming with an issued token confirms its subscriber and touches
/// nothing else; confirming again, with that token or another one of the same
/// subscriber, succeeds and changes nothing.
pub proof fn lemma_confirm_is_idempotent(m: StoreModel, t: Seq<char>, t2: Seq<char>)
    requires
        store_wf(m),
        has_token(m, t),
        has_token(m, t2),
        token_owner(m, t2) == token_owner(m, t),
    ensures
        ({
            let owner = token_owner(m, t);
            let (m1, r1) = confirm_model(m, t);
            &&& r1 is Ok
            &&& status_of(m1, owner) == Some(SubscriptionStatus::Confirmed)
            &&& m1.tokens == m.tokens
            &&& m1.subscribers.len() == m.subscribers.len()
            &&& forall|i: int|
                0 <= i < m.subscribers.len() && m.subscribers[i].id != owner
                    ==> #[trigger] m1.subscribers[i] == m.subscribers[i]
            &&& confirm_model(m1, t2) == (m1, Ok::<(), StoreError>(()))
        }),
{
    let owner = token_owner(m, t);
    let (m1, r1) = confirm_model(m, t);
    let k = choose|i: int| 0 <= i < m.tokens.len() && #[trigger] m.tokens[i].token == t;
    assert(has_subscriber(m, m.tokens[k].subscriber_id));
    assert(has_subscriber(m1, owner)) by {
        let q = choose|q: int| 0 <= q < m.subscribers.len() && #[trigger] m.subscribers[q].id == owner;
        assert(m1.subscribers[q].id == owner);
    }
    let c = choose|i: int| 0 <= i < m1.subscribers.len() && #[trigger] m1.subscribers[i].id == owner;
    assert(m1.subscribers[c].status == SubscriptionStatus::Confirmed);
    let k2 = choose|i: int| 0 <= i < m.tokens.len() && #[trigger] m.tokens[i].token == t2;
    assert(m1.tokens[k2].token == t2);
    assert(has_token(m1, t2));
    assert(token_owner(m1, t2) == owner);
    let again = confirm_model(m1, t2).0;
    assert(again.subscribers =~= m1.subscribers);
}

/// Whenever a submission ends with an email to send, its token is stored and
/// refers to the new subscriber, and confirming with that token confirms it:
/// no link is sent that cannot be confirmed.
pub proof fn lemma_sent_link_confirms(
    m: StoreModel,
    name: Seq<char>,
    email: Seq<char>,
    id: u128,
    token: Seq<char>,
    at: i64,
)
    requires
        store_wf(m),
        submit_model(m, name, email, id, token, at).1 == SubmitKind::Send,
    ensures
        ({
            let m2 = submit_model(m, name, email, id, token, at).0;
            let (m3, r) = confirm_model(m2, token);
            &&& has_token(m2, token)
            &&& token_owner(m2, token) == id
            &&& r is Ok
            &&& status_of(m3, id) == Some(SubscriptionStatus::Confirmed)
        }),
{
    let m1 = insert_model(m, pending(id, email, name, at)).0;
    assert(m1.tokens == m.tokens);
    lemma_valid_submission_is_pending_with_one_token(m, name, email, id, token, at);
    let m2 = submit_model(m, name, email, id, token, at).0;
    let m3 = confirm_model(m2, token).0;
    let last = m.subscribers.len() as int;
    assert(m3.subscribers[last].id == id);
    assert(has_subscriber(m3, id));
    let c = choose|i: int| 0 <= i < m3.subscribers.len() && #[trigger] m3.subscribers[i].id == id;
    if c != last {
        assert(m.subscribers[c].id == id);
    }
}

/// A request without a token is a bad request (400); a token that was never
/// issued is unauthorized (401). Neither changes the store.
pub proof fn lemma_unknown_token_differs_from_missing(m: StoreModel, t: Seq<char>)
    requires
        !has_token(m, t),
    ensures
        confirm_flow_model(m, None) == (m, 400u16),
        confirm_flow_model(m, Some(t)) == (m, 401u16),
{
}

} // verus!
