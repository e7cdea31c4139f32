//! The notification gateway: the request sent to the transactional-email
//! provider, its bearer credential, and how a delivery attempt is judged.

use crate::domain::SubscriberEmail;
use secrecy::{ExposeSecret, Secret};
use vstd::prelude::*;

verus! {

/// The provider's bearer credential: an opaque holder of a secret string.
/// It has no conversion to text, and its content leaves it only through
/// `EmailClient::authorization_header`, where the request's authorization header
/// is made.
#[verifier::external_body]
pub struct BearerToken {
    secret: Secret<String>,
}

/// The string held inside a credential.
pub uninterp spec fn credential_text(t: BearerToken) -> Seq<char>;

impl BearerToken {
    /// Relies on `secrecy::Secret::new`: the string is stored as it is.
    #[verifier::external_body]
    pub fn new(s: String) -> (r: BearerToken)
        ensures
            credential_text(r) == s@,
    {
        BearerToken { secret: Secret::new(s) }
    }

    /// Relies on secrecy's `ExposeSecret::expose_secret` for
    /// `Secret<String>`: it hands out a reference to the stored string.
    #[verifier::external_body]
    fn expose(&self) -> (r: &String)
        ensures
            r@ == credential_text(*self),
    {
        self.secret.expose_secret()
    }
}

/// How long one delivery attempt may take, in milliseconds, unless configured
/// otherwise.
pub const DEFAULT_TIMEOUT_MILLIS: u64 = 10_000;

/// Path of the provider's send endpoint, appended to its base URL.
pub open spec fn send_path() -> Seq<char> {
    "/v3/mail/send"@
}

/// A delivery attempt that did not succeed: a non-2xx answer, a network
/// failure, or a timeout.
#[derive(Debug, Clone, Copy, PartialEq, Eq, Structural)]
pub enum DeliveryError {
    Rejected,
    Unreachable,
}

/// An address in the request body.
pub struct Email {
    pub email: String,
}

/// Recipients and subject of the message.
pub struct Personalization {
    pub to: Vec<Email>,
    pub subject: String,
}

/// One body part of the message.
pub struct Content {
    pub type_field: String,
    pub value: String,
}

/// The JSON body of a send call.
pub struct SendEmailRequest {
    pub personalizations: Vec<Personalization>,
    pub content: Vec<Content>,
    pub from: Email,
}

/// `r` sends one message from `from` to `to` with the given subject and one
/// body part.
pub open spec fn request_is(
    r: SendEmailRequest,
    from: Seq<char>,
    to: Seq<char>,
    subject: Seq<char>,
    content_type: Seq<char>,
    content: Seq<char>,
) -> bool {
    &&& r.from.email@ == from
    &&& r.personalizations@.len() == 1
    &&& r.personalizations@[0].to@.len() == 1
    &&& r.personalizations@[0].to@[0].email@ == to
    &&& r.personalizations@[0].subject@ == subject
    &&& r.content@.len() == 1
    &&& r.content@[0].type_field@ == content_type
    &&& r.content@[0].value@ == content
}

/// Client of the transactional-email provider.
pub struct EmailClient {
    base_url: String,
    sender: SubscriberEmail,
    bear_token: BearerToken,
    timeout_millis: u64,
}

impl EmailClient {
    pub closed spec fn base_url_spec(&self) -> Seq<char> {
        self.base_url@
    }

    pub closed spec fn sender_spec(&self) -> Seq<char> {
        self.sender@
    }

    pub closed spec fn token_spec(&self) -> Seq<char> {
        credential_text(self.bear_token)
    }

    pub closed spec fn timeout_spec(&self) -> u64 {
        self.timeout_millis
    }

    pub fn new(base_url: String, sender: SubscriberEmail, bear_token: BearerToken) -> (r: Self)
        ensures
            r.base_url_spec() == base_url@,
            r.sender_spec() == sender@,
            r.token_spec() == credential_text(bear_token),
            r.timeout_spec() == DEFAULT_TIMEOUT_MILLIS,
    {
        EmailClient { base_url, sender, bear_token, timeout_millis: DEFAULT_TIMEOUT_MILLIS }
    }

    /// The same client with another timeout bound.
    pub fn with_timeout(self, timeout_millis: u64) -> (r: Self)
        ensures
            r.base_url_spec() == self.base_url_spec(),
            r.sender_spec() == self.sender_spec(),
            r.token_spec() == self.token_spec(),
            r.timeout_spec() == timeout_millis,
    {
        EmailClient { timeout_millis, ..self }
    }

    pub fn timeout_millis(&self) -> (r: u64)
        ensures
            r == self.timeout_spec(),
    {
        self.timeout_millis
    }

    /// The URL that a send call is posted to.
    pub fn endpoint(&self) -> (r: String)
        ensures
            r@ == self.base_url_spec() + send_path(),
    {
        let mut url = self.base_url.clone();
        url.append("/v3/mail/send");
        url
    }

    /// The value of the `Authorization` header: the credential is revealed
    /// here and nowhere else.
    pub fn authorization_header(&self) -> (r: String)
        ensures
            r@ == "Bearer "@ + self.token_spec(),
    {
        let mut header = String::from_str("Bearer ");
        header.append(self.bear_token.expose().as_str());
        header
    }

    /// The body of a send call from this client's sender to `recipient`.
    pub fn build_request(
        &self,
        recipient: &SubscriberEmail,
        subject: &str,
        content_type: &str,
        content: &str,
    ) -> (r: SendEmailRequest)
        ensures
            request_is(r, self.sender_spec(), recipient@, subject@, content_type@, content@),
    {
        let to = vec![Email { email: recipient.as_str().to_owned() }];
        let personalization = Personalization { to, subject: subject.to_owned() };
        let part = Content { type_field: content_type.to_owned(), value: content.to_owned() };
        SendEmailRequest {
            personalizations: vec![personalization],
            content: vec![part],
            from: Email { email: self.sender.as_str().to_owned() },
        }
    }
}

/// Judges one delivery attempt from the provider's status code, or `None`
/// when no answer came in time: only a 2xx status is a success.
pub fn delivery_result(status: Option<u16>) -> (r: Result<(), DeliveryError>)
    ensures
        r is Ok <==> (status matches Some(c) && 200 <= c <= 299),
        status is None ==> r == Err::<(), DeliveryError>(DeliveryError::Unreachable),
        status is Some && r is Err ==> r == Err::<(), DeliveryError>(DeliveryError::Rejected),
{
    match status {
        None => Err(DeliveryError::Unreachable),
        Some(c) => {
            if 200 <= c && c <= 299 {
                Ok(())
            } else {
                Err(DeliveryError::Rejected)
            }
        },
    }
}

} // verus!
