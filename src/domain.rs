//! Validated subscriber name and email.

use vstd::prelude::*;

verus! {

/// Longest accepted subscriber name, in characters.
pub const MAX_NAME_LEN: usize = 256;

/// The characters that `char::is_whitespace` accepts (Unicode `White_Space`).
pub open spec fn is_whitespace_char(c: char) -> bool {
    let u = c as u32;
    (0x09 <= u && u <= 0x0D) || u == 0x20 || u == 0x85 || u == 0xA0 || u == 0x1680
        || (0x2000 <= u && u <= 0x200A) || u == 0x2028 || u == 0x2029 || u == 0x202F
        || u == 0x205F || u == 0x3000
}

/// The characters that `char::is_control` accepts (general category `Cc`).
pub open spec fn is_control_char(c: char) -> bool {
    let u = c as u32;
    u <= 0x1F || (0x7F <= u && u <= 0x9F)
}

/// Symbols that may not appear in a subscriber name.
pub open spec fn is_forbidden_name_char(c: char) -> bool {
    c == '/' || c == '(' || c == ')' || c == '"' || c == '<' || c == '>' || c == '\\'
        || c == '{' || c == '}'
}

/// A name is accepted when something is left after trimming whitespace, it has
/// at most 256 characters, and it holds no control character and no forbidden
/// symbol.
pub open spec fn name_valid(s: Seq<char>) -> bool {
    &&& exists|i: int| 0 <= i < s.len() && !is_whitespace_char(#[trigger] s[i])
    &&& s.len() <= MAX_NAME_LEN
    &&& forall|i: int|
        0 <= i < s.len() ==> !is_control_char(#[trigger] s[i]) && !is_forbidden_name_char(s[i])
}

/// An email is accepted when it holds exactly one `@`, with characters before
/// and after it.
pub open spec fn email_valid(s: Seq<char>) -> bool {
    exists|at: int|
        0 < at < s.len() - 1 && #[trigger] s[at] == '@' && forall|j: int|
            0 <= j < s.len() && j != at ==> #[trigger] s[j] != '@'
}

/// Why untrusted input was refused.
#[derive(Debug, Clone, Copy, PartialEq, Eq, Structural)]
pub enum InputError {
    InvalidName,
    InvalidEmail,
}

fn is_whitespace(c: char) -> (r: bool)
    ensures
        r == is_whitespace_char(c),
{
    let u = c as u32;
    (0x09 <= u && u <= 0x0D) || u == 0x20 || u == 0x85 || u == 0xA0 || u == 0x1680
        || (0x2000 <= u && u <= 0x200A) || u == 0x2028 || u == 0x2029 || u == 0x202F
        || u == 0x205F || u == 0x3000
}

fn is_allowed_name_char(c: char) -> (r: bool)
    ensures
        r == (!is_control_char(c) && !is_forbidden_name_char(c)),
{
    let u = c as u32;
    let control = u <= 0x1F || (0x7F <= u && u <= 0x9F);
    let forbidden = c == '/' || c == '(' || c == ')' || c == '"' || c == '<' || c == '>' || c
        == '\\' || c == '{' || c == '}';
    !control && !forbidden
}

/// Decides `name_valid`.
pub fn is_valid_name(s: &str) -> (r: bool)
    ensures
        r == name_valid(s@),
{
    let n = s.unicode_len();
    if n > MAX_NAME_LEN {
        return false;
    }
    let mut seen_text = false;
    let mut i: usize = 0;
    while i < n
        invariant
            n == s@.len(),
            i <= n,
            seen_text == exists|k: int| 0 <= k < i && !is_whitespace_char(#[trigger] s@[k]),
            forall|k: int|
                0 <= k < i ==> !is_control_char(#[trigger] s@[k]) && !is_forbidden_name_char(
                    s@[k],
                ),
        decreases n - i,
    {
        let c = s.get_char(i);
        if !is_allowed_name_char(c) {
            return false;
        }
        if !is_whitespace(c) {
            seen_text = true;
        }
        i = i + 1;
    }
    seen_text
}

/// Decides `email_valid`.
pub fn is_valid_email(s: &str) -> (r: bool)
    ensures
        r == email_valid(s@),
{
    let n = s.unicode_len();
    let mut count: usize = 0;
    let mut at: usize = 0;
    let mut i: usize = 0;
    while i < n
        invariant
            n == s@.len(),
            i <= n,
            count <= 1,
            count == 0 ==> forall|k: int| 0 <= k < i ==> #[trigger] s@[k] != '@',
            count == 1 ==> at < i && s@[at as int] == '@' && forall|k: int|
                0 <= k < i && k != at ==> #[trigger] s@[k] != '@',
        decreases n - i,
    {
        if s.get_char(i) == '@' {
            if count == 1 {
                assert(!email_valid(s@)) by {
                    if email_valid(s@) {
                        let a = choose|a: int|
                            0 < a < s@.len() - 1 && #[trigger] s@[a] == '@' && forall|j: int|
                                0 <= j < s@.len() && j != a ==> #[trigger] s@[j] != '@';
                        assert(s@[at as int] == '@');
                        assert(s@[i as int] == '@');
                    }
                }
                return false;
            }
            count = 1;
            at = i;
        }
        i = i + 1;
    }
    if count == 1 && 0 < at && at + 1 < n {
        assert(s@[at as int] == '@');
        true
    } else {
        assert(!email_valid(s@)) by {
            if email_valid(s@) {
                let a = choose|a: int|
                    0 < a < s@.len() - 1 && #[trigger] s@[a] == '@' && forall|j: int|
                        0 <= j < s@.len() && j != a ==> #[trigger] s@[j] != '@';
                assert(s@[a] == '@');
            }
        }
        false
    }
}

/// A subscriber's display name, known to satisfy `name_valid`.
pub struct SubscriberName {
    value: String,
}

impl View for SubscriberName {
    type V = Seq<char>;

    closed spec fn view(&self) -> Seq<char> {
        self.value@
    }
}

impl SubscriberName {
    #[verifier::type_invariant]
    spec fn inv(self) -> bool {
        name_valid(self.value@)
    }

    /// Accepts `s` exactly when it is a valid name.
    pub fn parse(s: String) -> (r: Result<SubscriberName, InputError>)
        ensures
            r is Ok <==> name_valid(s@),
            r matches Ok(n) ==> n@ == s@,
            r matches Err(e) ==> e == InputError::InvalidName,
    {
        if is_valid_name(s.as_str()) {
            Ok(SubscriberName { value: s })
        } else {
            Err(InputError::InvalidName)
        }
    }

    pub fn as_str(&self) -> (r: &str)
        ensures
            r@ == self@,
            name_valid(r@),
    {
        proof {
            use_type_invariant(self);
        }
        self.value.as_str()
    }

    pub fn duplicate(&self) -> (r: SubscriberName)
        ensures
            r@ == self@,
    {
        proof {
            use_type_invariant(self);
        }
        SubscriberName { value: self.value.clone() }
    }
}

/// A subscriber's email address, known to satisfy `email_valid`.
pub struct SubscriberEmail {
    value: String,
}

impl View for SubscriberEmail {
    type V = Seq<char>;

    closed spec fn view(&self) -> Seq<char> {
        self.value@
    }
}

impl SubscriberEmail {
    #[verifier::type_invariant]
    spec fn inv(self) -> bool {
        email_valid(self.value@)
    }

    /// Accepts `s` exactly when it is a valid email.
    pub fn parse(s: String) -> (r: Result<SubscriberEmail, InputError>)
        ensures
            r is Ok <==> email_valid(s@),
            r matches Ok(e) ==> e@ == s@,
            r matches Err(e) ==> e == InputError::InvalidEmail,
    {
        if is_valid_email(s.as_str()) {
            Ok(SubscriberEmail { value: s })
        } else {
            Err(InputError::InvalidEmail)
        }
    }

    pub fn as_str(&self) -> (r: &str)
        ensures
            r@ == self@,
            email_valid(r@),
    {
        proof {
            use_type_invariant(self);
        }
        self.value.as_str()
    }

    pub fn duplicate(&self) -> (r: SubscriberEmail)
        ensures
            r@ == self@,
    {
        proof {
            use_type_invariant(self);
        }
        SubscriberEmail { value: self.value.clone() }
    }
}

} // verus!
