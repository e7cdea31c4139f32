//! Issuing confirmation tokens.

use rand::Rng;
use vstd::prelude::*;

verus! {

/// Characters in a confirmation token: about 148 bits of entropy.
pub const SUBSCRIPTION_TOKEN_LEN: usize = 25;

/// `A`-`Z`, `a`-`z` and `0`-`9`: URL-safe without escaping.
pub open spec fn is_token_char(c: char) -> bool {
    ('a' <= c && c <= 'z') || ('A' <= c && c <= 'Z') || ('0' <= c && c <= '9')
}

/// A string that `generate_subscription_token` can return.
pub open spec fn token_shape(t: Seq<char>) -> bool {
    &&& t.len() == SUBSCRIPTION_TOKEN_LEN
    &&& forall|i: int| 0 <= i < t.len() ==> is_token_char(#[trigger] t[i])
}

/// Relies on rand's `Alphanumeric` distribution sampled from `thread_rng`, a
/// cryptographically secure generator: each of the `len` characters is drawn
/// from `A`-`Z`, `a`-`z`, `0`-`9`. `thread_rng` panics only when the
/// operating system's random source fails.
#[verifier::external_body]
fn random_alphanumeric(len: usize) -> (r: String)
    ensures
        r@.len() == len,
        forall|i: int| 0 <= i < r@.len() ==> is_token_char(#[trigger] r@[i]),
{
    rand::thread_rng().sample_iter(rand::distributions::Alphanumeric).take(len).map(char::from).collect()
}

/// A fresh, unpredictable confirmation token.
pub fn generate_subscription_token() -> (r: String)
    ensures
        token_shape(r@),
{
    random_alphanumeric(SUBSCRIPTION_TOKEN_LEN)
}

} // verus!
