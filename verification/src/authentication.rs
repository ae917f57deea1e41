//! The Credential Store: validating a username and password against the
//! provisioned users and their stored password hashes.
//!
//! The one security-critical shape here: an unknown username still pays for
//! a full hash verification against a fixed decoy hash before the refusal,
//! so the two refusals cost the same wall-clock time.

use argon2::PasswordVerifier;
use base64::Engine;
use vstd::prelude::*;
use vstd::utf8::{decode_utf8, valid_utf8};

use crate::store::{has_username, Store};
use crate::utils::utf8_bytes;

verus! {

/// A username and the plaintext password offered for it; never stored, alive
/// only for the duration of one validation call.
#[derive(Debug)]
pub struct Credentials {
    pub username: String,
    pub password: String,
}

/// What validation reports: the credentials are wrong (whatever the root
/// cause), or something failed that the caller could not have provoked.
#[derive(Debug)]
pub enum AuthError {
    InvalidCredentials(String),
    UnexpectedError(String),
}

/// The outcome of checking `password` against the PHC-formatted `hash` with
/// Argon2: `Some(true)` when the password matches, `Some(false)` when it does
/// not, `None` when the stored hash cannot be used (malformed, or asking for
/// an unsupported algorithm). A pure function of its two arguments.
pub uninterp spec fn phc_check(hash: Seq<char>, password: Seq<u8>) -> Option<bool>;

/// Relies on argon2's `Argon2::verify_password` for `&str` hashes, which
/// parses the PHC string and compares the recomputed output: `Ok` means the
/// password matches, `PasswordInvalid` that it does not, and any other error
/// that the stored hash itself cannot be used.
#[verifier::external_body]
fn check_password_hash(expected_hash: &str, password: &[u8]) -> (r: Option<bool>)
    ensures
        r == phc_check(expected_hash@, password@),
{
    match argon2::Argon2::default().verify_password(password, expected_hash) {
        Ok(()) => Some(true),
        Err(argon2::password_hash::Error::PasswordInvalid) => Some(false),
        Err(_) => None,
    }
}

/// The decoy hash that an unknown username is "verified" against, so that the
/// refusal costs as much as a real verification. A valid Argon2id PHC string
/// whose password nobody holds.
const FALLBACK_PASSWORD_HASH: &'static str = "$argon2id$v=19$m=15000,t=2,p=1$gZiV/M1gPc22ElAH/Jh1Hw$CWOrkoo7oJBQ/iyh7uJ0LO2aLEfrHwTWllSAxT0zRno";

/// Looks a username up; `Some` carries the user id and stored password hash,
/// and answers exactly when the username is provisioned.
pub fn get_stored_credentials(username: &str, store: &Store) -> (r: Option<(u128, String)>)
    ensures
        r is Some <==> has_username(store.users@, username@),
        r matches Some((id, hash)) ==> exists|j: int|
            0 <= j < store.users@.len() && (#[trigger] store.users@[j]).username@ == username@
                && store.users@[j].user_id == id && store.users@[j].password_hash@ == hash@,
{
    let n = store.users.len();
    let mut i: usize = 0;
    while i < n
        invariant
            0 <= i <= n,
            n == store.users@.len(),
            forall|j: int| 0 <= j < i ==> (#[trigger] store.users@[j]).username@ != username@,
        decreases n - i,
    {
        if crate::utils::str_eq(store.users[i].username.as_str(), username) {
            return Some(
                (store.users[i].user_id, String::from_str(store.users[i].password_hash.as_str())),
            );
        }
        i += 1;
    }
    None
}

/// Validates the credentials against the store.
///
/// Returns the user id exactly when the username is provisioned and the
/// password matches its stored hash. An unknown username and a wrong
/// password both answer `InvalidCredentials` — after the same amount of
/// hashing work. A stored hash that cannot be used answers
/// `UnexpectedError`.
pub fn validate_credentials(credentials: &Credentials, store: &Store) -> (r: Result<
    u128,
    AuthError,
>)
    requires
        store.wf(),
    ensures
        r matches Ok(id) ==> exists|j: int|
            0 <= j < store.users@.len() && (#[trigger] store.users@[j]).username@
                == credentials.username@ && store.users@[j].user_id == id && phc_check(
                store.users@[j].password_hash@,
                utf8_bytes(credentials.password@),
            ) == Some(true),
        r is Ok <==> exists|j: int|
            0 <= j < store.users@.len() && (#[trigger] store.users@[j]).username@
                == credentials.username@ && phc_check(
                store.users@[j].password_hash@,
                utf8_bytes(credentials.password@),
            ) == Some(true),
        r matches Err(e) ==> (e matches AuthError::InvalidCredentials(_) <==> (!has_username(
            store.users@,
            credentials.username@,
        ) || exists|j: int|
            0 <= j < store.users@.len() && (#[trigger] store.users@[j]).username@
                == credentials.username@ && phc_check(
                store.users@[j].password_hash@,
                utf8_bytes(credentials.password@),
            ) == Some(false))),
{
    let looked_up = get_stored_credentials(credentials.username.as_str(), store);
    match looked_up {
        None => {
            // Equalize the cost of the two refusals: verify against the
            // decoy before answering.
            let _ = check_password_hash(
                FALLBACK_PASSWORD_HASH,
                credentials.password.as_str().as_bytes(),
            );
            Err(AuthError::InvalidCredentials(String::from_str("unknown username")))
        },
        Some((user_id, expected_password_hash)) => {
            match check_password_hash(
                expected_password_hash.as_str(),
                credentials.password.as_str().as_bytes(),
            ) {
                Some(true) => Ok(user_id),
                Some(false) => Err(
                    AuthError::InvalidCredentials(String::from_str("invalid password")),
                ),
                None => Err(
                    AuthError::UnexpectedError(
                        String::from_str("failed to parse hash in PHC string format"),
                    ),
                ),
            }
        },
    }
}

/// What base64's standard engine makes of a string: the decoded bytes, or
/// nothing when the input is not standard base64 with padding. A pure
/// function of the input.
pub uninterp spec fn base64_decoded(s: Seq<char>) -> Option<Seq<u8>>;

/// Relies on base64's STANDARD engine: `decode` answers the decoded bytes
/// exactly on well-formed standard-alphabet, padded base64.
#[verifier::external_body]
fn base64_decode_standard(s: &str) -> (r: Option<Vec<u8>>)
    ensures
        r is Some <==> base64_decoded(s@) is Some,
        r matches Some(v) ==> base64_decoded(s@) == Some(v@),
{
    match base64::engine::general_purpose::STANDARD.decode(s) {
        Ok(v) => Some(v),
        Err(_) => None,
    }
}

/// Relies on String::from_utf8: it succeeds exactly on valid UTF-8 and
/// returns the string of those bytes.
#[verifier::external_body]
fn string_from_utf8(bytes: Vec<u8>) -> (r: Option<String>)
    ensures
        r is Some <==> valid_utf8(bytes@),
        r matches Some(s) ==> s@ == decode_utf8(bytes@),
{
    match String::from_utf8(bytes) {
        Ok(s) => Some(s),
        Err(_) => None,
    }
}

/// Whether a header value announces the Basic scheme.
pub open spec fn has_basic_prefix(h: Seq<char>) -> bool {
    h.len() >= 6 && h.subrange(0, 6) == "Basic "@
}

/// The base64 segment after the scheme.
pub open spec fn basic_payload(h: Seq<char>) -> Seq<char>
    recommends
        has_basic_prefix(h),
{
    h.subrange(6, h.len() as int)
}

/// The decoded text behind a Basic header's payload.
pub open spec fn basic_decoded_text(h: Seq<char>) -> Seq<char>
    recommends
        has_basic_prefix(h),
        base64_decoded(basic_payload(h)) is Some,
{
    decode_utf8(base64_decoded(basic_payload(h)).unwrap())
}

/// Decodes a Basic authentication header value into credentials: the scheme
/// must be `Basic`, the segment must be base64 of valid UTF-8, and the
/// decoded text splits at its first `:` into username and password.
pub fn basic_authentication(header_value: &str) -> (r: Result<Credentials, String>)
    ensures
        r is Ok <==> (base64_decoded(basic_payload(header_value@)) matches Some(b)
            && has_basic_prefix(header_value@) && valid_utf8(b) && exists|k: int|
            0 <= k < decode_utf8(b).len() && decode_utf8(b)[k] == ':'),
        r matches Ok(c) ==> (exists|k: int|
            #![trigger basic_decoded_text(header_value@)[k]]
            {
                let d = basic_decoded_text(header_value@);
                &&& 0 <= k < d.len()
                &&& d[k] == ':'
                &&& forall|j: int| 0 <= j < k ==> d[j] != ':'
                &&& c.username@ == d.subrange(0, k)
                &&& c.password@ == d.subrange(k + 1, d.len() as int)
            }),
{
    let n = header_value.unicode_len();
    if n < 6 {
        return Err(String::from_str("The authorization scheme was not 'Basic'."));
    }
    let scheme = header_value.substring_char(0, 6);
    if !crate::utils::str_eq(scheme, "Basic ") {
        return Err(String::from_str("The authorization scheme was not 'Basic'."));
    }
    let segment = header_value.substring_char(6, n);
    let decoded_bytes = match base64_decode_standard(segment) {
        Some(b) => b,
        None => {
            return Err(String::from_str("Failed to base64-decode 'Basic' credentials."));
        },
    };
    let ghost decoded_view = decoded_bytes@;
    let decoded = match string_from_utf8(decoded_bytes) {
        Some(s) => s,
        None => {
            return Err(String::from_str("The decoded credential string is not valid UTF8."));
        },
    };
    let m = decoded.as_str().unicode_len();
    let mut k: usize = 0;
    while k < m
        invariant
            0 <= k <= m,
            m == decoded@.len(),
            has_basic_prefix(header_value@),
            base64_decoded(basic_payload(header_value@)) == Some(decoded_view),
            valid_utf8(decoded_view),
            decoded@ == decode_utf8(decoded_view),
            forall|j: int| 0 <= j < k ==> decoded@[j] != ':',
        decreases m - k,
    {
        if decoded.as_str().get_char(k) == ':' {
            let username = String::from_str(decoded.as_str().substring_char(0, k));
            let password = String::from_str(decoded.as_str().substring_char(k + 1, m));
            proof {
                assert(base64_decoded(basic_payload(header_value@)) == Some(decoded_view));
                let d = basic_decoded_text(header_value@);
                assert(d == decoded@);
                assert((k as int) < d.len() && d[k as int] == ':' && (forall|j: int|
                    0 <= j < k as int ==> d[j] != ':') && username@ == d.subrange(0, k as int)
                    && password@ == d.subrange(k as int + 1, d.len() as int));
            }
            return Ok(Credentials { username, password });
        }
        k += 1;
    }
    Err(String::from_str("A password must be provided in a 'Basic' auth"))
}

} // verus!
