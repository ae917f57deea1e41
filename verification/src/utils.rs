//! Small helpers shared across the crate: string equality, single-character
//! appends, and the rendering of an error together with its chain of causes.

use vstd::prelude::*;

verus! {

/// The UTF-8 bytes of a string: the form in which strings reach byte-level
/// primitives such as hashing and signing.
pub open spec fn utf8_bytes(s: Seq<char>) -> Seq<u8> {
    vstd::utf8::encode_utf8(s)
}

/// Character-for-character string equality.
pub fn str_eq(a: &str, b: &str) -> (r: bool)
    ensures
        r == (a@ == b@),
{
    let n = a.unicode_len();
    if n != b.unicode_len() {
        assert(a@ != b@) by {
            assert(a@.len() != b@.len());
        }
        return false;
    }
    let mut i: usize = 0;
    while i < n
        invariant
            0 <= i <= n,
            n == a@.len(),
            n == b@.len(),
            forall|j: int| 0 <= j < i ==> a@[j] == b@[j],
        decreases n - i,
    {
        if a.get_char(i) != b.get_char(i) {
            return false;
        }
        i += 1;
    }
    assert(a@ =~= b@);
    true
}

/// Relies on String::push: appends exactly the given character.
#[verifier::external_body]
pub fn push_char(s: &mut String, c: char)
    ensures
        final(s)@ == old(s)@.push(c),
{
    s.push(c);
}

/// The lines that follow the head of an error chain: one
/// `Caused by:` paragraph per underlying cause, outermost first.
pub open spec fn spec_cause_lines(causes: Seq<Seq<char>>) -> Seq<char>
    decreases causes.len(),
{
    if causes.len() == 0 {
        Seq::empty()
    } else {
        "Caused by:\n\t"@ + causes[0] + "\n"@ + spec_cause_lines(causes.drop_first())
    }
}

/// The rendering of an error chain: the error's own message, a blank line,
/// then one `Caused by:` paragraph per cause.
pub open spec fn spec_error_chain(messages: Seq<Seq<char>>) -> Seq<char> {
    if messages.len() == 0 {
        Seq::empty()
    } else {
        messages[0] + "\n\n"@ + spec_cause_lines(messages.drop_first())
    }
}

/// Renders an error chain for the log: the first entry is the error's own
/// message, the remaining entries are its causes, outermost first.
pub fn error_chain_fmt(messages: &Vec<String>) -> (r: String)
    ensures
        r@ == spec_error_chain(messages@.map_values(|m: String| m@)),
{
    let ghost all = messages@.map_values(|m: String| m@);
    if messages.len() == 0 {
        return String::new();
    }
    let mut out = String::new();
    out.append(messages[0].as_str());
    out.append("\n\n");
    let n = messages.len();
    let mut i: usize = 1;
    while i < n
        invariant
            1 <= i <= n,
            n == messages@.len(),
            all == messages@.map_values(|m: String| m@),
            out@ + spec_cause_lines(all.skip(i as int)) == spec_error_chain(all),
        decreases n - i,
    {
        out.append("Caused by:\n\t");
        out.append(messages[i].as_str());
        out.append("\n");
        proof {
            assert(all.skip(i as int).drop_first() =~= all.skip(i + 1));
            assert(all.skip(i as int)[0] == all[i as int]);
        }
        i += 1;
    }
    proof {
        assert(all.skip(n as int) =~= Seq::<Seq<char>>::empty());
    }
    out
}

} // verus!
