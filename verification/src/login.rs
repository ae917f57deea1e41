//! The login flow's decisions: validating the submitted credentials, and
//! carrying the failure message across the redirect under an HMAC tag so it
//! cannot be forged.

use vstd::prelude::*;

use crate::authentication::{validate_credentials, AuthError, Credentials};
use crate::domain::HmacSecret;
use crate::signing::{
    hex_decode, hex_encode, hmac_sha256, lemma_hex_round_trip, sign, spec_hex_decode,
    spec_hex_encode, verify, verify_ok, IntegrityError,
};
use crate::store::{has_username, Store};
use crate::utils::utf8_bytes;

verus! {

/// A byte the percent encoding leaves as it is: ASCII letters and digits and
/// `-`, `.`, `_`, `~`.
pub open spec fn is_url_unreserved(b: u8) -> bool {
    (48 <= b && b <= 57)  // 0-9
     || (65 <= b && b <= 90)  // A-Z
     || (97 <= b && b <= 122)  // a-z
     || b == 45 || b == 46 || b == 95 || b == 126  // - . _ ~
}

/// The sixteen hex digits, upper case: the percent encoding writes these.
pub open spec fn hex_digit_char_upper(n: u8) -> char {
    if n == 0 {
        '0'
    } else if n == 1 {
        '1'
    } else if n == 2 {
        '2'
    } else if n == 3 {
        '3'
    } else if n == 4 {
        '4'
    } else if n == 5 {
        '5'
    } else if n == 6 {
        '6'
    } else if n == 7 {
        '7'
    } else if n == 8 {
        '8'
    } else if n == 9 {
        '9'
    } else if n == 10 {
        'A'
    } else if n == 11 {
        'B'
    } else if n == 12 {
        'C'
    } else if n == 13 {
        'D'
    } else if n == 14 {
        'E'
    } else {
        'F'
    }
}

/// Percent encoding over UTF-8 bytes: unreserved bytes stand as themselves,
/// every other byte becomes `%` and two upper-case hex digits.
pub open spec fn spec_urlencode(bytes: Seq<u8>) -> Seq<char>
    decreases bytes.len(),
{
    if bytes.len() == 0 {
        Seq::empty()
    } else {
        (if is_url_unreserved(bytes.first()) {
            seq![bytes.first() as char]
        } else {
            seq![
                '%',
                hex_digit_char_upper((bytes.first() / 16) as u8),
                hex_digit_char_upper((bytes.first() % 16) as u8),
            ]
        }) + spec_urlencode(bytes.drop_first())
    }
}

/// Relies on urlencoding::encode: every byte except ASCII alphanumerics and
/// `-`, `.`, `_`, `~` is percent-encoded, with upper-case hex digits.
#[verifier::external_body]
fn url_encode(s: &str) -> (r: String)
    ensures
        r@ == spec_urlencode(utf8_bytes(s@)),
{
    urlencoding::encode(s).into_owned()
}

/// The signed query-string payload that carries a login error across the
/// redirect: the exact byte sequence under the tag.
pub open spec fn error_query_string(error: Seq<char>) -> Seq<char> {
    "error="@ + spec_urlencode(utf8_bytes(error))
}

/// What a failed login reports: refused credentials, or an internal failure.
/// Both redirect back to the login form.
#[derive(Debug)]
pub enum LoginError {
    AuthError(String),
    UnexpectedError(String),
}

impl LoginError {
    /// Both variants answer with a redirect.
    pub fn status_code(&self) -> (code: u16)
        ensures
            code == 303,
    {
        303
    }

    /// The user-visible message: one generic line whatever the root cause, so
    /// the flash cannot tell a wrong password from an internal failure.
    pub fn message(&self) -> (m: String)
        ensures
            m@ == "Authentication failed"@,
    {
        String::from_str("Authentication failed")
    }

    /// How a credential-store refusal surfaces to the login flow.
    pub fn from_auth(e: AuthError) -> (r: LoginError)
        ensures
            e matches AuthError::InvalidCredentials(m) ==> (r matches LoginError::AuthError(n)
                && n@ == m@),
            e matches AuthError::UnexpectedError(m) ==> (r matches LoginError::UnexpectedError(n)
                && n@ == m@),
    {
        match e {
            AuthError::InvalidCredentials(m) => LoginError::AuthError(m),
            AuthError::UnexpectedError(m) => LoginError::UnexpectedError(m),
        }
    }
}

/// Where a failed login redirects to: the login form, with the message as a
/// signed query string.
pub open spec fn login_redirect_target(error: Seq<char>, secret: Seq<char>) -> Seq<char> {
    "/login?"@ + error_query_string(error) + "&tag="@ + spec_hex_encode(
        hmac_sha256(utf8_bytes(secret), utf8_bytes(error_query_string(error))),
    )
}

/// Builds the redirect target for a login failure: the percent-encoded
/// message and, as a separate parameter, the hex of its HMAC tag.
pub fn login_redirect(error_message: &str, secret: &HmacSecret) -> (r: String)
    ensures
        r@ == login_redirect_target(error_message@, secret.0@),
{
    let mut query_string = String::from_str("error=");
    query_string.append(url_encode(error_message).as_str());
    let tag = sign(query_string.as_str().as_bytes(), secret.0.as_str().as_bytes());
    let mut out = String::from_str("/login?");
    out.append(query_string.as_str());
    out.append("&tag=");
    out.append(hex_encode(tag.as_slice()).as_str());
    out
}

/// The query parameters a login redirect carries back to the form.
#[derive(Debug)]
pub struct QueryParams {
    pub error: String,
    pub tag: String,
}

impl QueryParams {
    /// Recomputes the HMAC over the exact byte sequence that was signed and
    /// compares it, in constant time, with the hex-decoded tag. Any failure —
    /// a tag that is not hex, or a mismatch — is the same `IntegrityError`.
    pub fn verify(self, secret: &HmacSecret) -> (r: Result<String, IntegrityError>)
        ensures
            r matches Ok(m) ==> m@ == self.error@,
            r is Ok <==> (spec_hex_decode(self.tag@) matches Some(t) && verify_ok(
                utf8_bytes(error_query_string(self.error@)),
                t,
                utf8_bytes(secret.0@),
            )),
    {
        let tag = match hex_decode(self.tag.as_str()) {
            Some(t) => t,
            None => {
                return Err(IntegrityError);
            },
        };
        let mut query_string = String::from_str("error=");
        query_string.append(url_encode(self.error.as_str()).as_str());
        match verify(
            query_string.as_str().as_bytes(),
            tag.as_slice(),
            secret.0.as_str().as_bytes(),
        ) {
            Ok(()) => Ok(self.error),
            Err(e) => Err(e),
        }
    }
}

/// A redirect built by `login_redirect` always verifies: the tag parameter
/// decodes back to the signature of the exact query string that is re-signed
/// on arrival.
pub proof fn lemma_flash_round_trip(error: Seq<char>, secret: Seq<char>)
    ensures
        ({
            let q = utf8_bytes(error_query_string(error));
            let tag_hex = spec_hex_encode(hmac_sha256(utf8_bytes(secret), q));
            spec_hex_decode(tag_hex) matches Some(t) && verify_ok(q, t, utf8_bytes(secret))
        }),
{
    lemma_hex_round_trip(hmac_sha256(utf8_bytes(secret), utf8_bytes(error_query_string(error))));
}

/// The five minimal HTML entities, applied character by character.
pub open spec fn spec_html_escape_minimal(s: Seq<char>) -> Seq<char>
    decreases s.len(),
{
    if s.len() == 0 {
        Seq::empty()
    } else {
        (if s.first() == '"' {
            "&quot;"@
        } else if s.first() == '&' {
            "&amp;"@
        } else if s.first() == '\'' {
            "&#x27;"@
        } else if s.first() == '<' {
            "&lt;"@
        } else if s.first() == '>' {
            "&gt;"@
        } else {
            seq![s.first()]
        }) + spec_html_escape_minimal(s.drop_first())
    }
}

/// Relies on htmlescape::encode_minimal: it replaces exactly `"`, `&`, `'`,
/// `<` and `>` with their entities and keeps every other character.
#[verifier::external_body]
fn html_escape_minimal(s: &str) -> (r: String)
    ensures
        r@ == spec_html_escape_minimal(s@),
{
    htmlescape::encode_minimal(s)
}

/// The fragment the login form shows for a verified error message, with the
/// message HTML-escaped.
pub fn error_html(message: &str) -> (r: String)
    ensures
        r@ == "<p><i>"@ + spec_html_escape_minimal(message@) + "</i></p>"@,
{
    let mut out = String::from_str("<p><i>");
    out.append(html_escape_minimal(message).as_str());
    out.append("</i></p>");
    out
}

/// The login decision: valid credentials yield the user id (the session is
/// then established by the boundary); refused ones yield the error and the
/// signed redirect target. Every failure carries the same generic message, so
/// the user cannot tell refused credentials from an internal fault; the
/// variant keeps the distinction for the server's own log.
pub fn login(credentials: &Credentials, store: &Store, secret: &HmacSecret) -> (r: Result<
    u128,
    (LoginError, String),
>)
    requires
        store.wf(),
    ensures
        r is Ok <==> exists|j: int|
            0 <= j < store.users@.len() && (#[trigger] store.users@[j]).username@
                == credentials.username@ && crate::authentication::phc_check(
                store.users@[j].password_hash@,
                utf8_bytes(credentials.password@),
            ) == Some(true),
        r matches Ok(id) ==> exists|j: int|
            0 <= j < store.users@.len() && (#[trigger] store.users@[j]).username@
                == credentials.username@ && store.users@[j].user_id == id,
        r matches Err((e, target)) ==> target@ == login_redirect_target(
            "Authentication failed"@,
            secret.0@,
        ),
        r matches Err((e, target)) ==> ((e matches LoginError::AuthError(_)) <==> (!has_username(
            store.users@,
            credentials.username@,
        ) || exists|j: int|
            0 <= j < store.users@.len() && (#[trigger] store.users@[j]).username@
                == credentials.username@ && crate::authentication::phc_check(
                store.users@[j].password_hash@,
                utf8_bytes(credentials.password@),
            ) == Some(false))),
{
    match validate_credentials(credentials, store) {
        Ok(user_id) => Ok(user_id),
        Err(auth_error) => {
            let e = LoginError::from_auth(auth_error);
            let target = login_redirect(e.message().as_str(), secret);
            Err((e, target))
        },
    }
}

} // verus!
