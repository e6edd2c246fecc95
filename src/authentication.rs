use vstd::prelude::*;
use vstd::string::*;
use vstd::utf8::{decode_utf8, valid_utf8};

use base64::Engine;

use crate::error::AppError;
use crate::store::{first_user_from, first_user_named_from, set_hash_all, Database, DatabaseView};

verus! {

#[verifier::external_type_specification]
#[verifier::external_body]
pub struct ExDecodeError(base64::DecodeError);

#[verifier::external_type_specification]
#[verifier::external_body]
pub struct ExFromUtf8Error(std::string::FromUtf8Error);

#[verifier::external_type_specification]
#[verifier::external_body]
pub struct ExPasswordHashError(argon2::password_hash::Error);

/// What the standard base64 alphabet without padding decodes `s` to, if
/// `s` is well formed.
pub uninterp spec fn base64_no_pad_decoded(s: Seq<char>) -> Option<Seq<u8>>;

/// Whether `password` matches the PHC-format argon2 hash `hash`.
pub uninterp spec fn argon2_verifies(hash: Seq<char>, password: Seq<char>) -> bool;

/// Relies on base64's `Engine::decode` with `BASE64_STANDARD_NO_PAD`: the
/// bytes that `token` encodes, or an error where it is not well formed.
#[verifier::external_body]
fn decode_base64(token: &str) -> (r: Result<Vec<u8>, base64::DecodeError>)
    ensures
        r is Ok <==> base64_no_pad_decoded(token@) is Some,
        r matches Ok(bytes) ==> base64_no_pad_decoded(token@) == Some(bytes@),
{
    base64::prelude::BASE64_STANDARD_NO_PAD.decode(token)
}

/// Relies on std's `String::from_utf8`: the text that `bytes` encode, or an
/// error where they are not valid UTF-8.
#[verifier::external_body]
fn utf8_text(bytes: Vec<u8>) -> (r: Result<String, std::string::FromUtf8Error>)
    ensures
        r is Ok <==> valid_utf8(bytes@),
        r matches Ok(s) ==> s@ == decode_utf8(bytes@),
{
    String::from_utf8(bytes)
}

/// Relies on `PasswordHash::new` (password-hash) and argon2's
/// `PasswordVerifier::verify_password` with `Argon2::default()`: whether
/// `candidate` matches `expected_hash`; a hash that does not parse matches
/// nothing.
#[verifier::external_body]
fn verify_password_hash(expected_hash: &str, candidate: &str) -> (r: bool)
    ensures
        r == argon2_verifies(expected_hash@, candidate@),
{
    match argon2::PasswordHash::new(expected_hash) {
        Ok(hash) => argon2::PasswordVerifier::verify_password(
            &argon2::Argon2::default(),
            candidate.as_bytes(),
            &hash,
        ).is_ok(),
        Err(_) => false,
    }
}

/// Relies on `SaltString::generate` (password-hash, fed by
/// `rand::thread_rng`) and argon2's `PasswordHasher::hash_password` with
/// `Argon2::default()`: the PHC string of `password` under a fresh random
/// salt, which [`verify_password_hash`] accepts for `password`.
#[verifier::external_body]
fn compute_password_hash(password: &str) -> (r: Result<String, argon2::password_hash::Error>)
    ensures
        r matches Ok(h) ==> argon2_verifies(h@, password@),
{
    let salt = argon2::password_hash::SaltString::generate(&mut rand::thread_rng());
    argon2::PasswordHasher::hash_password(&argon2::Argon2::default(), password.as_bytes(), &salt).map(
        |h| h.to_string(),
    )
}

/// Index of the first `:` at or after `i`, or -1.
pub open spec fn first_colon_from(s: Seq<char>, i: int) -> int
    decreases s.len() - i,
{
    if i < 0 || i >= s.len() {
        -1
    } else if s[i] == ':' {
        i
    } else {
        first_colon_from(s, i + 1)
    }
}

/// `user:password`, split at the first `:`; `None` without one.
pub open spec fn split_credentials(s: Seq<char>) -> Option<(Seq<char>, Seq<char>)> {
    let k = first_colon_from(s, 0);
    if k < 0 {
        None
    } else {
        Some((s.take(k), s.skip(k + 1)))
    }
}

/// The credentials that decoded token bytes carry, if any.
pub open spec fn credentials_of_bytes(bytes: Seq<u8>) -> Option<(Seq<char>, Seq<char>)> {
    if valid_utf8(bytes) {
        split_credentials(decode_utf8(bytes))
    } else {
        None
    }
}

/// A user name and password presented by a client.
pub struct Credentials {
    pub username: String,
    pub password: String,
}

impl Credentials {
    /// Reads the credentials from decoded token bytes: UTF-8 text holding
    /// `user:password`; anything else is refused.
    pub fn from_decoded(bytes: Vec<u8>) -> (r: Result<Credentials, AppError>)
        ensures
            match credentials_of_bytes(bytes@) {
                Some((u, p)) => r matches Ok(c) && c.username@ == u && c.password@ == p,
                None => r matches Err(e) && e == AppError::Unauthorized,
            },
    {
        let text = match utf8_text(bytes) {
            Ok(t) => t,
            Err(_) => {
                return Err(AppError::Unauthorized);
            },
        };
        let s = text.as_str();
        let n = s.unicode_len();
        let mut i: usize = 0;
        while i < n && s.get_char(i) != ':'
            invariant
                n == s@.len(),
                i <= n,
                first_colon_from(s@, 0) == first_colon_from(s@, i as int),
            decreases n - i,
        {
            i = i + 1;
        }
        if i == n {
            return Err(AppError::Unauthorized);
        }
        let username = String::from_str(s.substring_char(0, i));
        let password = String::from_str(s.substring_char(i + 1, n));
        assert(s@.subrange(0, i as int) =~= s@.take(i as int));
        assert(s@.subrange(i + 1, n as int) =~= s@.skip(i + 1));
        Ok(Credentials { username, password })
    }

    /// Reads the credentials from a bearer token: unpadded standard base64
    /// of `user:password`.
    pub fn from_bearer_token(token: &str) -> (r: Result<Credentials, AppError>)
        ensures
            match base64_no_pad_decoded(token@) {
                None => r matches Err(e) && e == AppError::MalformedToken,
                Some(bytes) => match credentials_of_bytes(bytes) {
                    Some((u, p)) => r matches Ok(c) && c.username@ == u && c.password@ == p,
                    None => r matches Err(e) && e == AppError::Unauthorized,
                },
            },
    {
        match decode_base64(token) {
            Ok(bytes) => Credentials::from_decoded(bytes),
            Err(_) => Err(AppError::MalformedToken),
        }
    }

    /// Reads the credentials from an `Authorization` header value: the
    /// scheme `Bearer` (in any letter case) and a space, then the token. A
    /// missing header or another scheme is refused.
    pub fn from_authorization_header(header: Option<&str>) -> (r: Result<Credentials, AppError>)
        ensures
            match header {
                None => r matches Err(e) && e == AppError::Unauthorized,
                Some(h) => if is_bearer_value(h@) {
                    match base64_no_pad_decoded(h@.skip(7)) {
                        None => r matches Err(e) && e == AppError::MalformedToken,
                        Some(bytes) => match credentials_of_bytes(bytes) {
                            Some((u, p)) => r matches Ok(c) && c.username@ == u && c.password@
                                == p,
                            None => r matches Err(e) && e == AppError::Unauthorized,
                        },
                    }
                } else {
                    r matches Err(e) && e == AppError::Unauthorized
                },
            },
    {
        let h = match header {
            None => {
                return Err(AppError::Unauthorized);
            },
            Some(h) => h,
        };
        if !check_bearer_value(h) {
            return Err(AppError::Unauthorized);
        }
        let n = h.unicode_len();
        let token = h.substring_char(7, n);
        assert(token@ =~= h@.skip(7));
        Credentials::from_bearer_token(token)
    }
}

/// `s` starts with `Bearer ` in any letter case.
pub open spec fn is_bearer_value(s: Seq<char>) -> bool {
    s.len() >= 7 && forall|i: int|
        0 <= i < 7 ==> #[trigger] s[i] == "bearer "@[i] || s[i] == "BEARER "@[i]
}

/// Decides [`is_bearer_value`].
pub fn check_bearer_value(s: &str) -> (r: bool)
    ensures
        r == is_bearer_value(s@),
{
    let lower = "bearer ";
    let upper = "BEARER ";
    proof {
        reveal_strlit("bearer ");
        reveal_strlit("BEARER ");
    }
    let n = s.unicode_len();
    if n < 7 {
        return false;
    }
    let mut i: usize = 0;
    while i < 7
        invariant
            n == s@.len(),
            n >= 7,
            i <= 7,
            lower@ == "bearer "@,
            upper@ == "BEARER "@,
            lower@.len() == 7,
            upper@.len() == 7,
            forall|j: int| 0 <= j < i ==> #[trigger] s@[j] == "bearer "@[j] || s@[j] == "BEARER "@[j],
        decreases 7 - i,
    {
        let c = s.get_char(i);
        if c != lower.get_char(i) && c != upper.get_char(i) {
            return false;
        }
        i = i + 1;
    }
    true
}

/// The account that `credentials` log in to: found by name, then checked
/// against its stored hash.
pub fn validate_credentials(credentials: Credentials, db: &Database) -> (r: Result<u128, AppError>)
    ensures
        ({
            let k = first_user_named_from(db@.users, credentials.username@, 0);
            &&& k < 0 ==> r == Err::<u128, AppError>(AppError::Unauthorized)
            &&& k >= 0 ==> r == if argon2_verifies(
                db@.users[k].password_hash,
                credentials.password@,
            ) {
                Ok::<u128, AppError>(db@.users[k].user_id)
            } else {
                Err::<u128, AppError>(AppError::Unauthorized)
            }
        }),
{
    match db.stored_credentials(&credentials.username) {
        None => Err(AppError::Unauthorized),
        Some((user_id, hash)) => {
            if verify_password_hash(hash.as_str(), credentials.password.as_str()) {
                Ok(user_id)
            } else {
                Err(AppError::Unauthorized)
            }
        },
    }
}

/// The name of the account `user_id`.
pub fn get_username(user_id: u128, db: &Database) -> (r: Result<String, AppError>)
    ensures
        ({
            let k = first_user_from(db@.users, user_id, 0);
            &&& k < 0 ==> r == Err::<String, AppError>(AppError::UnknownUser)
            &&& k >= 0 ==> (r matches Ok(name) && name@ == db@.users[k].username)
        }),
{
    match db.username_of(user_id) {
        Some(name) => Ok(name),
        None => Err(AppError::UnknownUser),
    }
}

/// Stores a fresh hash of `password`, one that accepts `password`, for the
/// account `user_id`; where hashing fails nothing changes.
pub fn change_password_store(user_id: u128, password: &str, db: &mut Database) -> (r: Result<
    (),
    AppError,
>)
    requires
        old(db).wf(),
    ensures
        final(db).wf(),
        r is Ok ==> exists|hash: Seq<char>|
            argon2_verifies(hash, password@) && final(db)@ == (DatabaseView {
                users: #[trigger] set_hash_all(old(db)@.users, user_id, hash),
                ..old(db)@
            }),
        r is Err ==> r == Err::<(), AppError>(AppError::PasswordHashing) && final(db)@ == old(db)@,
{
    match compute_password_hash(password) {
        Ok(hash) => {
            db.set_password_hash(user_id, &hash);
            Ok(())
        },
        Err(_) => Err(AppError::PasswordHashing),
    }
}

} // verus!
