//! Runtime configuration values that the core interprets: the environment
//! name and the application's listen address.

use vstd::prelude::*;

verus! {

/// The environment the service runs in; everything else about configuration
/// is layered on this choice.
#[derive(Clone, Copy, Debug, PartialEq, Eq, Structural)]
pub enum Environment {
    Local,
    Production,
}

/// ASCII lowercase folding of one character.
pub open spec fn ascii_lower_char(c: char) -> char {
    if 'A' <= c && c <= 'Z' {
        (((c as u32) + 32) as char)
    } else {
        c
    }
}

/// ASCII lowercase folding of a string.
pub open spec fn ascii_lower(s: Seq<char>) -> Seq<char> {
    s.map_values(|c: char| ascii_lower_char(c))
}

impl Environment {
    /// The canonical name of the environment.
    pub fn as_str(&self) -> (r: &'static str)
        ensures
            self matches Environment::Local ==> r@ == "local"@,
            self matches Environment::Production ==> r@ == "production"@,
    {
        match self {
            Environment::Local => "local",
            Environment::Production => "production",
        }
    }

    /// Reads an environment name, ASCII-case-insensitively; anything but
    /// `local` and `production` is refused, handing the raw value back.
    pub fn parse(value: &str) -> (r: Result<Environment, String>)
        ensures
            r matches Ok(e) ==> ((e matches Environment::Local) <==> ascii_lower(value@)
                == "local"@),
            r matches Ok(e) ==> ((e matches Environment::Production) <==> ascii_lower(value@)
                == "production"@),
            r matches Err(m) ==> m@ == value@,
            r is Err <==> ascii_lower(value@) != "local"@ && ascii_lower(value@) != "production"@,
    {
        proof {
            // "local" and "production" differ, so at most one branch fits.
            reveal_strlit("local");
            reveal_strlit("production");
            assert("local"@.len() != "production"@.len());
        }
        let lowered = to_ascii_lowercase(value);
        if crate::utils::str_eq(lowered.as_str(), "local") {
            Ok(Environment::Local)
        } else if crate::utils::str_eq(lowered.as_str(), "production") {
            Ok(Environment::Production)
        } else {
            Err(String::from_str(value))
        }
    }
}

/// ASCII lowercase folding, character by character.
fn to_ascii_lowercase(s: &str) -> (r: String)
    ensures
        r@ == ascii_lower(s@),
{
    let mut out = String::new();
    let n = s.unicode_len();
    let mut i: usize = 0;
    while i < n
        invariant
            0 <= i <= n,
            n == s@.len(),
            out@.len() == i,
            forall|j: int| 0 <= j < i ==> out@[j] == ascii_lower_char(s@[j]),
        decreases n - i,
    {
        let c = s.get_char(i);
        let folded: char = if c >= 'A' && c <= 'Z' {
            let v = c as u32;
            assert(v + 32 <= 122);
            (((v + 32) as u8) as char)
        } else {
            c
        };
        crate::utils::push_char(&mut out, folded);
        i += 1;
    }
    proof {
        assert(out@ =~= ascii_lower(s@));
    }
    out
}

/// Where the application listens.
#[derive(Debug)]
pub struct AppConfig {
    pub host: String,
    pub port: u16,
}

} // verus!
