use vstd::prelude::*;

verus! {

/// Where the process should listen, and under which public base URL it
/// is reachable. Loading these values from files or the process
/// environment happens outside the library.
pub struct ApplicationSettings {
    pub host: String,
    pub port: u16,
    pub base_url: String,
}

/// The deployment environment the service runs in.
#[derive(Clone, Copy, PartialEq, Eq, Structural, Debug)]
pub enum Environment {
    Local,
    Production,
}

/// Lower-cases an ASCII letter, leaving every other character alone.
pub open spec fn lower_char(c: char) -> char {
    if 65 <= c as u32 <= 90 {
        ((c as u32) + 32) as char
    } else {
        c
    }
}

/// The ASCII-lower-cased copy of a string.
pub open spec fn lower(s: Seq<char>) -> Seq<char> {
    s.map_values(|c: char| lower_char(c))
}

impl Environment {
    /// The name of the environment, as its configuration file is named.
    pub fn as_str(&self) -> (r: &'static str)
        ensures
            *self is Local ==> r@ == "local"@,
            *self is Production ==> r@ == "production"@,
    {
        match self {
            Environment::Local => "local",
            Environment::Production => "production",
        }
    }

    /// Reads an environment name, ignoring ASCII case: `local` and
    /// `production` are the two that exist. Anything else is refused
    /// with a message naming the input and the two supported values.
    pub fn parse(s: String) -> (r: Result<Environment, String>)
        ensures
            lower(s@) == "local"@ ==> r == Ok::<Environment, String>(Environment::Local),
            lower(s@) == "production"@ ==> r == Ok::<Environment, String>(Environment::Production),
            lower(s@) != "local"@ && lower(s@) != "production"@ ==> (r matches Err(e) && e@ == s@
                + " is not a supported environment. Use either `local` or `production`."@),
    {
        proof {
            reveal_strlit("local");
            reveal_strlit("production");
            assert("local"@.len() == 5);
            assert("production"@.len() == 10);
        }
        if eq_lowered(s.as_str(), "local") {
            Ok(Environment::Local)
        } else if eq_lowered(s.as_str(), "production") {
            Ok(Environment::Production)
        } else {
            let mut msg = s;
            msg.append(" is not a supported environment. Use either `local` or `production`.");
            Err(msg)
        }
    }
}

/// Compares the ASCII-lower-cased left string with the right one.
fn eq_lowered(s: &str, t: &str) -> (r: bool)
    ensures
        r == (lower(s@) == t@),
{
    let cs = crate::domain::chars_of(s);
    let ct = crate::domain::chars_of(t);
    if cs.len() != ct.len() {
        proof {
            assert(lower(s@).len() == s@.len());
            assert(lower(s@) != t@);
        }
        return false;
    }
    let n = cs.len();
    let mut i: usize = 0;
    while i < n
        invariant
            n == cs@.len() == ct@.len(),
            cs@ == s@,
            ct@ == t@,
            0 <= i <= n,
            forall|j: int| 0 <= j < i ==> lower_char(cs@[j]) == ct@[j],
        decreases n - i,
    {
        let c = cs[i];
        let code = c as u32;
        let lc = if 65 <= code && code <= 90 {
            proof {
                assert(code + 32 <= 122);
            }
            char_from_code(code + 32)
        } else {
            c
        };
        if lc != ct[i] {
            proof {
                assert(lower(s@)[i as int] == lower_char(s@[i as int]));
                assert(lower(s@) != t@);
            }
            return false;
        }
        i = i + 1;
    }
    proof {
        assert(lower(s@) =~= t@);
    }
    true
}

/// Builds the character with the given ASCII code.
fn char_from_code(code: u32) -> (c: char)
    requires
        code < 128,
    ensures
        c as u32 == code,
{
    let b = code as u8;
    b as char
}

} // verus!
