//! Identity value objects: validated subscriber names and email addresses.
//!
//! Raw strings enter the system only through `SubscriberName::parse` and
//! `SubscriberEmail::parse`; once constructed, both types are immutable and
//! their well-formedness is recorded in their type invariants.

use unicode_segmentation::UnicodeSegmentation;
use vstd::prelude::*;

verus! {

/// Number of extended grapheme clusters of a string, as unicode-segmentation
/// computes it. The count depends on the characters alone.
pub uninterp spec fn grapheme_count(s: Seq<char>) -> nat;

/// Relies on unicode_segmentation::UnicodeSegmentation::graphemes with
/// extended grapheme clusters, counted; the count is a pure function of the
/// characters.
#[verifier::external_body]
fn count_graphemes(s: &str) -> (n: usize)
    ensures
        n as nat == grapheme_count(s@),
{
    s.graphemes(true).count()
}

/// Whether a character has the Unicode `White_Space` property, as
/// char::is_whitespace decides it.
pub uninterp spec fn is_unicode_whitespace(c: char) -> bool;

/// Relies on char::is_whitespace: true exactly for characters with the
/// Unicode `White_Space` property. The documentation lists ASCII space, tab,
/// line feed and carriage return among them, and no other ASCII printable
/// character is white space.
#[verifier::external_body]
fn char_is_whitespace(c: char) -> (r: bool)
    ensures
        r == is_unicode_whitespace(c),
        (c == ' ' || c == '\t' || c == '\n' || c == '\r') ==> r,
        ('!' <= c && c <= '~') ==> !r,
{
    c.is_whitespace()
}

/// Characters that a subscriber name may never contain.
pub open spec fn is_forbidden_char(c: char) -> bool {
    c == '/' || c == '(' || c == ')' || c == '<' || c == '>' || c == '\\' || c == '{' || c == '}'
}

/// A name consisting only of white space (the empty name included).
pub open spec fn is_blank(s: Seq<char>) -> bool {
    forall|i: int| 0 <= i < s.len() ==> is_unicode_whitespace(#[trigger] s[i])
}

/// Exactly the strings that `SubscriberName::parse` accepts.
pub open spec fn valid_subscriber_name(s: Seq<char>) -> bool {
    &&& !is_blank(s)
    &&& grapheme_count(s) <= 256
    &&& forall|i: int| 0 <= i < s.len() ==> !is_forbidden_char(#[trigger] s[i])
}

/// A subscriber's display name, guaranteed non-blank, at most 256 grapheme
/// clusters long and free of forbidden characters.
#[derive(Debug)]
pub struct SubscriberName(String);

impl View for SubscriberName {
    type V = Seq<char>;

    closed spec fn view(&self) -> Seq<char> {
        self.0@
    }
}

impl SubscriberName {
    /// The invariant that construction establishes.
    pub open spec fn wf(&self) -> bool {
        valid_subscriber_name(self@)
    }

    /// Validates a raw name: it must not be blank, must span at most 256
    /// grapheme clusters and must avoid the forbidden characters.
    pub fn parse(s: String) -> (r: Result<SubscriberName, String>)
        ensures
            r matches Ok(name) ==> name@ == s@ && name.wf(),
            r is Ok <==> valid_subscriber_name(s@),
            r matches Err(raw) ==> raw@ == s@,
    {
        let is_empty_or_whitespace = all_whitespace(s.as_str());
        let is_too_long = count_graphemes(s.as_str()) > 256;
        let contains_forbidden_characters = has_forbidden_char(s.as_str());

        if is_empty_or_whitespace || is_too_long || contains_forbidden_characters {
            Err(s)
        } else {
            Ok(SubscriberName(s))
        }
    }

    /// Read access to the validated name.
    pub fn as_str(&self) -> (r: &str)
        ensures
            r@ == self@,
    {
        self.0.as_str()
    }

}

/// ASCII letters and digits.
pub open spec fn is_alnum_char(c: char) -> bool {
    ('a' <= c && c <= 'z') || ('A' <= c && c <= 'Z') || ('0' <= c && c <= '9')
}

/// Characters allowed in the local part of an email address (the part before
/// the `@`): the unquoted atom characters of the usual address grammar, dots
/// included.
pub open spec fn is_local_char(c: char) -> bool {
    ||| is_alnum_char(c)
    ||| c == '!' || c == '#' || c == '$' || c == '%' || c == '&' || c == '\'' || c == '*'
    ||| c == '+' || c == '-' || c == '/' || c == '=' || c == '?' || c == '^' || c == '_'
    ||| c == '`' || c == '{' || c == '|' || c == '}' || c == '~' || c == '.'
}

/// Characters allowed in the domain part of an email address.
pub open spec fn is_domain_char(c: char) -> bool {
    is_alnum_char(c) || c == '-' || c == '.'
}

/// A non-empty local part of at most 64 characters, all from the atom set.
pub open spec fn valid_local_part(s: Seq<char>) -> bool {
    &&& 1 <= s.len() <= 64
    &&& forall|i: int| 0 <= i < s.len() ==> is_local_char(#[trigger] s[i])
}

/// A domain: dot-separated labels of letters, digits and hyphens, where no
/// label is empty and no label starts or ends with a hyphen.
pub open spec fn valid_domain_part(d: Seq<char>) -> bool {
    &&& 1 <= d.len() <= 255
    &&& forall|i: int| 0 <= i < d.len() ==> is_domain_char(#[trigger] d[i])
    &&& d[0] != '.' && d[d.len() - 1] != '.'
    &&& d[0] != '-' && d[d.len() - 1] != '-'
    &&& forall|i: int|
        0 <= i < d.len() - 1 ==> !(#[trigger] d[i] == '.' && (d[i + 1] == '.' || d[i + 1] == '-'))
            && !(d[i] == '-' && d[i + 1] == '.')
}

/// Exactly the strings that `SubscriberEmail::parse` accepts: a valid local
/// part, one `@`, and a valid domain. The separator is unique because `@`
/// belongs to neither part's character set.
pub open spec fn valid_email(s: Seq<char>) -> bool {
    exists|k: int|
        0 <= k < s.len() && #[trigger] s[k] == '@' && valid_local_part(s.subrange(0, k))
            && valid_domain_part(s.subrange(k + 1, s.len() as int))
}

/// A subscriber's email address, guaranteed to satisfy the address grammar.
#[derive(Debug)]
pub struct SubscriberEmail(String);

impl View for SubscriberEmail {
    type V = Seq<char>;

    closed spec fn view(&self) -> Seq<char> {
        self.0@
    }
}

impl SubscriberEmail {
    /// The invariant that construction establishes.
    pub open spec fn wf(&self) -> bool {
        valid_email(self@)
    }

    /// Validates a raw email address against the address grammar.
    pub fn parse(s: String) -> (r: Result<SubscriberEmail, String>)
        ensures
            r matches Ok(email) ==> email@ == s@ && email.wf(),
            r is Ok <==> valid_email(s@),
            r matches Err(raw) ==> raw@ == s@,
    {
        match find_at_sign(s.as_str()) {
            None => {
                assert(!valid_email(s@));
                Err(s)
            },
            Some(k) => {
                if check_local_part(s.as_str(), k) && check_domain_part(s.as_str(), k + 1) {
                    assert(valid_email(s@));
                    Ok(SubscriberEmail(s))
                } else {
                    proof {
                        // Any split point witnessing `valid_email` must be the
                        // first `@`: a later one would put this `@` inside the
                        // local part, and `@` is not a local character.
                        assert forall|j: int|
                            0 <= j < s@.len() && #[trigger] s@[j] == '@' && valid_local_part(
                                s@.subrange(0, j),
                            ) implies j == k as int by {
                            if j > k as int {
                                assert(s@.subrange(0, j)[k as int] == '@');
                                assert(!is_local_char('@'));
                            }
                        }
                    }
                    Err(s)
                }
            },
        }
    }

    /// Read access to the validated address.
    pub fn as_str(&self) -> (r: &str)
        ensures
            r@ == self@,
    {
        self.0.as_str()
    }

    /// A copy of the address, character for character.
    pub fn duplicate(&self) -> (r: SubscriberEmail)
        ensures
            r@ == self@,
    {
        SubscriberEmail(String::from_str(self.0.as_str()))
    }
}

/// Index of the first `@` in `s`, if any.
fn find_at_sign(s: &str) -> (r: Option<usize>)
    ensures
        r matches Some(k) ==> 0 <= k < s@.len() && s@[k as int] == '@' && forall|j: int|
            0 <= j < k ==> s@[j] != '@',
        r is None ==> forall|j: int| 0 <= j < s@.len() ==> s@[j] != '@',
{
    let len = s.unicode_len();
    let mut i: usize = 0;
    while i < len
        invariant
            0 <= i <= len,
            len == s@.len(),
            forall|j: int| 0 <= j < i ==> s@[j] != '@',
        decreases len - i,
    {
        if s.get_char(i) == '@' {
            return Some(i);
        }
        i += 1;
    }
    None
}

/// Checks the local part `s[0 .. at]` of an address.
fn check_local_part(s: &str, at: usize) -> (r: bool)
    requires
        at <= s@.len(),
    ensures
        r == valid_local_part(s@.subrange(0, at as int)),
{
    if at == 0 || at > 64 {
        return false;
    }
    let mut i: usize = 0;
    while i < at
        invariant
            0 <= i <= at <= s@.len(),
            1 <= at <= 64,
            forall|j: int| 0 <= j < i ==> is_local_char(#[trigger] s@[j]),
        decreases at - i,
    {
        let c = s.get_char(i);
        let ok = (('a' <= c && c <= 'z') || ('A' <= c && c <= 'Z') || ('0' <= c && c <= '9'))
            || c == '!' || c == '#' || c == '$' || c == '%' || c == '&' || c == '\'' || c == '*'
            || c == '+' || c == '-' || c == '/' || c == '=' || c == '?' || c == '^' || c == '_'
            || c == '`' || c == '{' || c == '|' || c == '}' || c == '~' || c == '.';
        if !ok {
            assert(!is_local_char(s@.subrange(0, at as int)[i as int]));
            return false;
        }
        i += 1;
    }
    assert(forall|j: int|
        0 <= j < at ==> is_local_char(#[trigger] s@.subrange(0, at as int)[j]));
    true
}

/// Checks the domain part `s[start ..]` of an address.
fn check_domain_part(s: &str, start: usize) -> (r: bool)
    requires
        start <= s@.len(),
    ensures
        r == valid_domain_part(s@.subrange(start as int, s@.len() as int)),
{
    let len = s.unicode_len();
    let ghost d = s@.subrange(start as int, s@.len() as int);
    if start == len || len - start > 255 {
        return false;
    }
    let first = s.get_char(start);
    let last = s.get_char(len - 1);
    assert(d[0] == s@[start as int]);
    assert(d[d.len() - 1] == s@[len - 1]);
    if first == '.' || first == '-' || last == '.' || last == '-' {
        return false;
    }
    let mut i: usize = start;
    while i < len
        invariant
            start <= i <= len,
            len == s@.len(),
            start < len,
            d == s@.subrange(start as int, s@.len() as int),
            forall|j: int| 0 <= j < i - start ==> is_domain_char(#[trigger] d[j]),
            forall|j: int|
                0 <= j < i - start && j < d.len() - 1 ==> !(#[trigger] d[j] == '.' && (d[j + 1]
                    == '.' || d[j + 1] == '-')) && !(d[j] == '-' && d[j + 1] == '.'),
        decreases len - i,
    {
        let c = s.get_char(i);
        assert(d[i - start] == s@[i as int]);
        let ok = (('a' <= c && c <= 'z') || ('A' <= c && c <= 'Z') || ('0' <= c && c <= '9'))
            || c == '-' || c == '.';
        if !ok {
            return false;
        }
        if i + 1 < len {
            let c2 = s.get_char(i + 1);
            assert(d[i + 1 - start] == s@[i + 1]);
            if (c == '.' && (c2 == '.' || c2 == '-')) || (c == '-' && c2 == '.') {
                return false;
            }
        }
        i += 1;
    }
    true
}

/// True when every character of `s` is white space; the empty string counts.
fn all_whitespace(s: &str) -> (r: bool)
    ensures
        r == is_blank(s@),
{
    let len = s.unicode_len();
    let mut i: usize = 0;
    while i < len
        invariant
            0 <= i <= len,
            len == s@.len(),
            forall|j: int| 0 <= j < i ==> is_unicode_whitespace(#[trigger] s@[j]),
        decreases len - i,
    {
        let c = s.get_char(i);
        if !char_is_whitespace(c) {
            return false;
        }
        i += 1;
    }
    true
}

/// True when some character of `s` is forbidden in a subscriber name.
fn has_forbidden_char(s: &str) -> (r: bool)
    ensures
        r == exists|i: int| 0 <= i < s@.len() && is_forbidden_char(#[trigger] s@[i]),
{
    let len = s.unicode_len();
    let mut i: usize = 0;
    while i < len
        invariant
            0 <= i <= len,
            len == s@.len(),
            forall|j: int| 0 <= j < i ==> !is_forbidden_char(#[trigger] s@[j]),
        decreases len - i,
    {
        let c = s.get_char(i);
        if c == '/' || c == '(' || c == ')' || c == '<' || c == '>' || c == '\\' || c == '{'
            || c == '}' {
            return true;
        }
        i += 1;
    }
    false
}

/// A fully validated subscriber: the only way to obtain one is through the
/// two parse functions, so both fields always satisfy their grammars.
#[derive(Debug)]
pub struct NewSubscriber {
    pub email: SubscriberEmail,
    pub name: SubscriberName,
}

impl NewSubscriber {
    /// Both parts satisfy their invariants.
    pub open spec fn wf(&self) -> bool {
        self.email.wf() && self.name.wf()
    }
}

/// The public base URL under which the application is reachable; confirmation
/// links are formed against it.
pub struct ApplicationBaseUrl(pub String);

/// The long-lived server secret that keys the HMAC signatures of
/// redirect-carried state.
#[derive(Clone)]
pub struct HmacSecret(pub String);

} // verus!
