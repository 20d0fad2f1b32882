use vstd::prelude::*;

verus! {

/// Length of a confirmation token, in characters.
pub const TOKEN_LEN: usize = 25;

/// An ASCII alphanumeric character: a digit or a letter of either case.
pub open spec fn is_token_char(c: char) -> bool {
    ||| 48 <= c as u32 <= 57
    ||| 65 <= c as u32 <= 90
    ||| 97 <= c as u32 <= 122
}

/// A well-formed confirmation token: exactly `TOKEN_LEN` ASCII
/// alphanumeric characters.
pub open spec fn valid_token(s: Seq<char>) -> bool {
    &&& s.len() == TOKEN_LEN
    &&& forall|i: int| 0 <= i < s.len() ==> is_token_char(s[i])
}

/// Relies on rand's `Alphanumeric` distribution: every sample drawn from
/// it is one of the 62 ASCII alphanumeric bytes. Successive calls draw
/// from the thread-local generator and may return anything in that set.
#[verifier::external_body]
fn sample_alphanumeric() -> (r: u8)
    ensures
        is_token_byte(r),
{
    rand::Rng::sample(&mut rand::thread_rng(), rand::distributions::Alphanumeric)
}

/// Relies on `String::push`: appends the given character.
pub assume_specification[ String::push ](s: &mut String, c: char)
    ensures
        final(s)@ == old(s)@.push(c),
;

/// An ASCII alphanumeric byte.
pub open spec fn is_token_byte(b: u8) -> bool {
    ||| 48 <= b <= 57
    ||| 65 <= b <= 90
    ||| 97 <= b <= 122
}

/// Builds a token out of explicitly supplied draws, so any source of
/// randomness can stand behind the issuer, a deterministic one in a
/// test. It succeeds exactly when handed `TOKEN_LEN` alphanumeric
/// bytes, and the token then spells those bytes in order.
pub fn token_from_bytes(bytes: &Vec<u8>) -> (r: Option<String>)
    ensures
        r is Some <==> bytes@.len() == TOKEN_LEN && (forall|j: int|
            0 <= j < bytes@.len() ==> is_token_byte(bytes@[j])),
        r matches Some(s) ==> valid_token(s@) && s@.len() == bytes@.len() && (forall|j: int|
            0 <= j < s@.len() ==> s@[j] as u32 == bytes@[j] as u32),
{
    if bytes.len() != TOKEN_LEN {
        return None;
    }
    let mut s = String::new();
    let mut i: usize = 0;
    while i < TOKEN_LEN
        invariant
            0 <= i <= TOKEN_LEN,
            bytes@.len() == TOKEN_LEN,
            s@.len() == i,
            forall|j: int| 0 <= j < i ==> is_token_char(s@[j]),
            forall|j: int| 0 <= j < i ==> s@[j] as u32 == bytes@[j] as u32,
            forall|j: int| 0 <= j < i ==> is_token_byte(bytes@[j]),
        decreases TOKEN_LEN - i,
    {
        let b = bytes[i];
        if !(48 <= b && b <= 57 || 65 <= b && b <= 90 || 97 <= b && b <= 122) {
            return None;
        }
        let c = b as char;
        s.push(c);
        i = i + 1;
    }
    Some(s)
}

/// Draws a fresh confirmation token: `TOKEN_LEN` characters chosen from
/// the alphanumeric alphabet. Unguessability comes from the entropy of
/// the generator behind `sample_alphanumeric`; distinct calls may in
/// principle collide, so the store checks a new token against the ones
/// it already holds.
pub fn generate_token() -> (r: String)
    ensures
        valid_token(r@),
{
    let mut draws: Vec<u8> = Vec::new();
    let mut i: usize = 0;
    while i < TOKEN_LEN
        invariant
            0 <= i <= TOKEN_LEN,
            draws@.len() == i,
            forall|j: int| 0 <= j < i ==> is_token_byte(draws@[j]),
        decreases TOKEN_LEN - i,
    {
        draws.push(sample_alphanumeric());
        i = i + 1;
    }
    match token_from_bytes(&draws) {
        Some(s) => s,
        None => {
            // Dead branch: every draw is alphanumeric and there are
            // exactly TOKEN_LEN of them.
            proof {
                assert(false);
            }
            String::new()
        },
    }
}

} // verus!
