use vstd::prelude::*;
use vstd::string::*;

use crate::error::AppError;

verus! {

/// Longest idempotency key accepted, in characters.
pub const MAX_IDEMPOTENCY_KEY_CHARS: usize = 50;

/// Longest subscriber name accepted, in characters.
pub const MAX_SUBSCRIBER_NAME_CHARS: usize = 256;

/// A key is valid when it holds between one and fifty characters.
pub open spec fn is_valid_idempotency_key(s: Seq<char>) -> bool {
    0 < s.len() <= MAX_IDEMPOTENCY_KEY_CHARS
}

/// Client-supplied token naming one logical publish attempt.
pub struct IdempotencyKey {
    key: String,
}

impl View for IdempotencyKey {
    type V = Seq<char>;

    closed spec fn view(&self) -> Seq<char> {
        self.key@
    }
}

impl IdempotencyKey {
    pub closed spec fn wf(&self) -> bool {
        is_valid_idempotency_key(self.key@)
    }

    /// Accepts `s` exactly when it is a valid key.
    pub fn parse(s: String) -> (r: Result<IdempotencyKey, AppError>)
        ensures
            is_valid_idempotency_key(s@) ==> (r matches Ok(k) && k@ == s@ && k.wf()),
            !is_valid_idempotency_key(s@) ==> r == Err::<IdempotencyKey, AppError>(
                AppError::InvalidIdempotencyKey,
            ),
    {
        let n = s.as_str().unicode_len();
        if n == 0 || n > MAX_IDEMPOTENCY_KEY_CHARS {
            Err(AppError::InvalidIdempotencyKey)
        } else {
            Ok(IdempotencyKey { key: s })
        }
    }

    pub fn as_str(&self) -> (r: &str)
        ensures
            r@ == self@,
    {
        self.key.as_str()
    }

    pub fn as_string(&self) -> (r: &String)
        ensures
            r@ == self@,
    {
        &self.key
    }

    pub fn duplicate(&self) -> (r: IdempotencyKey)
        ensures
            r@ == self@,
            self.wf() ==> r.wf(),
    {
        IdempotencyKey { key: self.key.clone() }
    }
}

pub open spec fn is_whitespace_char(c: char) -> bool {
    c == ' ' || c == '\t' || c == '\n' || c == '\r'
}

/// An address is one `@` with characters on both sides, and no whitespace.
pub open spec fn is_valid_email(s: Seq<char>) -> bool {
    exists|i: int|
        0 < i < s.len() - 1 && s[i] == '@' && (forall|j: int|
            0 <= j < s.len() && j != i ==> #[trigger] s[j] != '@') && (forall|j: int|
            0 <= j < s.len() ==> !is_whitespace_char(#[trigger] s[j]))
}

pub open spec fn is_forbidden_name_char(c: char) -> bool {
    c == '/' || c == '(' || c == ')' || c == '"' || c == '<' || c == '>' || c == '\\' || c
        == '{' || c == '}'
}

/// A name holds a non-whitespace character, at most 256 characters, and
/// none of the characters that markup would read.
pub open spec fn is_valid_name(s: Seq<char>) -> bool {
    &&& s.len() <= MAX_SUBSCRIBER_NAME_CHARS
    &&& exists|i: int| 0 <= i < s.len() && !is_whitespace_char(#[trigger] s[i])
    &&& forall|i: int| 0 <= i < s.len() ==> !is_forbidden_name_char(#[trigger] s[i])
}

/// Decides [`is_valid_email`].
pub fn check_email(s: &str) -> (r: bool)
    ensures
        r == is_valid_email(s@),
{
    let n = s.unicode_len();
    let mut at_count: usize = 0;
    let mut at_pos: usize = 0;
    let mut i: usize = 0;
    while i < n
        invariant
            n == s@.len(),
            i <= n,
            at_count <= i,
            at_count == 0 ==> forall|j: int| 0 <= j < i ==> s@[j] != '@',
            at_count >= 1 ==> at_pos < i && s@[at_pos as int] == '@',
            at_count == 1 ==> forall|j: int|
                0 <= j < i && j != at_pos ==> #[trigger] s@[j] != '@',
            at_count >= 2 ==> exists|j: int|
                0 <= j < i && j != at_pos && #[trigger] s@[j] == '@',
            forall|j: int| 0 <= j < i ==> !is_whitespace_char(#[trigger] s@[j]),
        decreases n - i,
    {
        let c = s.get_char(i);
        if c == ' ' || c == '\t' || c == '\n' || c == '\r' {
            assert(!is_valid_email(s@)) by {
                if is_valid_email(s@) {
                    let k = choose|k: int|
                        0 < k < s@.len() - 1 && s@[k] == '@' && (forall|j: int|
                            0 <= j < s@.len() && j != k ==> #[trigger] s@[j] != '@') && (
                        forall|j: int| 0 <= j < s@.len() ==> !is_whitespace_char(#[trigger] s@[j]));
                    assert(!is_whitespace_char(s@[i as int]));
                }
            }
            return false;
        }
        if c == '@' {
            if at_count == 0 {
                at_pos = i;
            }
            at_count = at_count + 1;
        }
        i = i + 1;
    }
    if at_count == 1 && at_pos > 0 && at_pos + 1 < n {
        assert(0 < at_pos < s@.len() - 1 && s@[at_pos as int] == '@');
        true
    } else {
        assert(!is_valid_email(s@)) by {
            if is_valid_email(s@) {
                let k = choose|k: int|
                    0 < k < s@.len() - 1 && s@[k] == '@' && (forall|j: int|
                        0 <= j < s@.len() && j != k ==> #[trigger] s@[j] != '@') && (forall|
                        j: int|
                        0 <= j < s@.len() ==> !is_whitespace_char(#[trigger] s@[j]));
                if at_count >= 2 {
                    let j = choose|j: int| 0 <= j < i && j != at_pos && #[trigger] s@[j] == '@';
                    assert(s@[at_pos as int] == '@');
                }
                if at_count == 1 {
                    assert(k == at_pos);
                }
            }
        }
        false
    }
}

/// Decides [`is_valid_name`].
pub fn check_name(s: &str) -> (r: bool)
    ensures
        r == is_valid_name(s@),
{
    let n = s.unicode_len();
    if n > MAX_SUBSCRIBER_NAME_CHARS {
        return false;
    }
    let mut seen_visible = false;
    let mut i: usize = 0;
    while i < n
        invariant
            n == s@.len(),
            i <= n,
            seen_visible == exists|j: int| 0 <= j < i && !is_whitespace_char(#[trigger] s@[j]),
            forall|j: int| 0 <= j < i ==> !is_forbidden_name_char(#[trigger] s@[j]),
        decreases n - i,
    {
        let c = s.get_char(i);
        if c == '/' || c == '(' || c == ')' || c == '"' || c == '<' || c == '>' || c == '\\' || c
            == '{' || c == '}' {
            assert(!is_forbidden_name_char(s@[i as int]) == false);
            return false;
        }
        if !(c == ' ' || c == '\t' || c == '\n' || c == '\r') {
            seen_visible = true;
        }
        i = i + 1;
    }
    seen_visible
}

/// A subscriber address that passed [`check_email`].
pub struct SubscriberEmail {
    email: String,
}

impl View for SubscriberEmail {
    type V = Seq<char>;

    closed spec fn view(&self) -> Seq<char> {
        self.email@
    }
}

impl SubscriberEmail {
    pub closed spec fn wf(&self) -> bool {
        is_valid_email(self.email@)
    }

    pub fn parse(s: String) -> (r: Result<SubscriberEmail, String>)
        ensures
            r is Ok <==> is_valid_email(s@),
            r matches Ok(e) ==> e@ == s@ && e.wf(),
    {
        if check_email(s.as_str()) {
            Ok(SubscriberEmail { email: s })
        } else {
            Err(String::from_str("invalid subscriber email"))
        }
    }

    pub fn as_str(&self) -> (r: &str)
        ensures
            r@ == self@,
    {
        self.email.as_str()
    }
}

/// A subscriber name that passed [`check_name`].
pub struct SubscriberName {
    name: String,
}

impl View for SubscriberName {
    type V = Seq<char>;

    closed spec fn view(&self) -> Seq<char> {
        self.name@
    }
}

impl SubscriberName {
    pub fn parse(s: String) -> (r: Result<SubscriberName, String>)
        ensures
            r is Ok <==> is_valid_name(s@),
            r matches Ok(n) ==> n@ == s@,
    {
        if check_name(s.as_str()) {
            Ok(SubscriberName { name: s })
        } else {
            Err(String::from_str("invalid subscriber name"))
        }
    }

    pub fn as_str(&self) -> (r: &str)
        ensures
            r@ == self@,
    {
        self.name.as_str()
    }
}

} // verus!
