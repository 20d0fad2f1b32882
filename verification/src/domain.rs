use vstd::prelude::*;

verus! {

// ---------------------------------------------------------------------------
// Validation model
// ---------------------------------------------------------------------------

/// Characters a subscriber name may never contain.
pub open spec fn is_forbidden_char(c: char) -> bool {
    ||| c == '/'
    ||| c == '('
    ||| c == ')'
    ||| c == '"'
    ||| c == '<'
    ||| c == '>'
    ||| c == '\\'
    ||| c == '{'
    ||| c == '}'
}

/// The whitespace alphabet used when deciding whether an input is
/// blank: Unicode's White_Space characters, the set `str::trim` strips.
pub open spec fn is_space_char(c: char) -> bool {
    ||| c == ' '
    ||| c == '\t'
    ||| c == '\n'
    ||| c == '\r'
    ||| c as u32 == 0x0B
    ||| c as u32 == 0x0C
    ||| c as u32 == 0x85
    ||| c as u32 == 0xA0
    ||| c as u32 == 0x1680
    ||| 0x2000 <= c as u32 <= 0x200A
    ||| c as u32 == 0x2028
    ||| c as u32 == 0x2029
    ||| c as u32 == 0x202F
    ||| c as u32 == 0x205F
    ||| c as u32 == 0x3000
}

/// A string is blank when every character is whitespace (so the empty
/// string is blank too).
pub open spec fn all_whitespace(s: Seq<char>) -> bool {
    forall|i: int| 0 <= i < s.len() ==> is_space_char(s[i])
}

/// Upper bound on the length of a subscriber name. The unit is the
/// character (one Unicode scalar value): a combining sequence counts
/// one per scalar, not one per rendered cluster.
pub const MAX_NAME_LEN: usize = 256;

/// A subscriber name is acceptable when it is not blank, fits in
/// `MAX_NAME_LEN` characters, and avoids the forbidden characters.
pub open spec fn valid_subscriber_name(s: Seq<char>) -> bool {
    &&& !all_whitespace(s)
    &&& s.len() <= MAX_NAME_LEN
    &&& forall|i: int| 0 <= i < s.len() ==> !is_forbidden_char(s[i])
}

/// `k` is the position of the one `@` of a well-formed email address:
/// a non-empty local part precedes it, a non-empty domain follows it,
/// the domain contains a dot but neither starts nor ends with one, and
/// no whitespace appears anywhere.
pub open spec fn valid_email_at(s: Seq<char>, k: int) -> bool {
    &&& 0 < k
    &&& k + 1 < s.len()
    &&& s[k] == '@'
    &&& forall|i: int| 0 <= i < s.len() && i != k ==> s[i] != '@'
    &&& exists|j: int| k + 1 <= j < s.len() && s[j] == '.'
    &&& s[k + 1] != '.'
    &&& s[s.len() - 1] != '.'
    &&& forall|i: int| 0 <= i < s.len() ==> !is_space_char(s[i])
}

/// A well-formed email address: `local@domain` with a dotted domain.
pub open spec fn valid_email(s: Seq<char>) -> bool {
    exists|k: int| valid_email_at(s, k)
}

/// The string has no `@` at all.
pub open spec fn lacks_at(s: Seq<char>) -> bool {
    forall|i: int| 0 <= i < s.len() ==> s[i] != '@'
}

/// No dot follows any `@`: whatever is read as the domain, it is not
/// dotted.
pub open spec fn lacks_domain_dot(s: Seq<char>) -> bool {
    forall|k: int, j: int| 0 <= k < j < s.len() && s[k] == '@' ==> s[j] != '.'
}

/// Why a name that fails validation is rejected, checked in this
/// order: blank first, then over-long, then a forbidden character.
pub open spec fn name_rejection(s: Seq<char>) -> ValidationReason {
    if all_whitespace(s) {
        ValidationReason::Blank
    } else if s.len() > MAX_NAME_LEN {
        ValidationReason::TooLong
    } else {
        ValidationReason::ForbiddenCharacter
    }
}

/// The error a form submission is rejected with: the name is examined
/// first, the email only after the name passed.
pub open spec fn form_rejection(name: Seq<char>, email: Seq<char>) -> ValidationError {
    if !valid_subscriber_name(name) {
        ValidationError { field: ValidationField::Name, reason: name_rejection(name) }
    } else {
        ValidationError { field: ValidationField::Email, reason: ValidationReason::MalformedEmail }
    }
}

// ---------------------------------------------------------------------------
// Validation errors
// ---------------------------------------------------------------------------

/// The form field a validation error refers to.
#[derive(Clone, Copy, PartialEq, Eq, Structural, Debug)]
pub enum ValidationField {
    Name,
    Email,
}

/// Why an input was rejected.
#[derive(Clone, Copy, PartialEq, Eq, Structural, Debug)]
pub enum ValidationReason {
    /// The input was empty or contained only whitespace.
    Blank,
    /// The input exceeded the permitted length.
    TooLong,
    /// The input contained a character that is never accepted.
    ForbiddenCharacter,
    /// The input did not follow the email grammar.
    MalformedEmail,
}

/// A rejected form input: which field, and why.
#[derive(Clone, Copy, PartialEq, Eq, Structural, Debug)]
pub struct ValidationError {
    pub field: ValidationField,
    pub reason: ValidationReason,
}

// ---------------------------------------------------------------------------
// Helpers
// ---------------------------------------------------------------------------

/// Collects the characters of a string into a vector, in order.
pub fn chars_of(s: &str) -> (v: Vec<char>)
    ensures
        v@ == s@,
{
    let mut v: Vec<char> = Vec::new();
    for c in it: s.chars()
        invariant
            it.seq() == s@,
            v@ == it.seq().subrange(0, it.index() as int),
    {
        v.push(c);
    }
    proof {
        assert(v@ =~= s@);
    }
    v
}

/// Decides whether a character belongs to the whitespace alphabet.
fn is_space(c: char) -> (r: bool)
    ensures
        r == is_space_char(c),
{
    let u = c as u32;
    u == 0x20 || u == 0x09 || u == 0x0A || u == 0x0D || u == 0x0B || u == 0x0C || u == 0x85
        || u == 0xA0 || u == 0x1680 || (0x2000 <= u && u <= 0x200A) || u == 0x2028 || u == 0x2029
        || u == 0x202F || u == 0x205F || u == 0x3000
}

/// Decides whether a character is forbidden in a subscriber name.
fn is_forbidden(c: char) -> (r: bool)
    ensures
        r == is_forbidden_char(c),
{
    c == '/' || c == '(' || c == ')' || c == '"' || c == '<' || c == '>' || c == '\\' || c == '{'
        || c == '}'
}

// ---------------------------------------------------------------------------
// SubscriberName
// ---------------------------------------------------------------------------

/// A validated subscriber name. Construction through `parse` is the only
/// way to obtain one, so every value satisfies `valid_subscriber_name`.
pub struct SubscriberName {
    name: String,
}

impl View for SubscriberName {
    type V = Seq<char>;

    closed spec fn view(&self) -> Seq<char> {
        self.name@
    }
}

impl SubscriberName {
    #[verifier::type_invariant]
    closed spec fn inv(self) -> bool {
        valid_subscriber_name(self.name@)
    }

    /// Validates a raw name. Succeeds exactly on acceptable names; a
    /// rejected input reports whether it was blank, too long, or held a
    /// forbidden character (checked in that order).
    pub fn parse(s: String) -> (r: Result<SubscriberName, ValidationError>)
        ensures
            r is Ok <==> valid_subscriber_name(s@),
            r matches Ok(n) ==> n@ == s@,
            !valid_subscriber_name(s@) ==> r == Err::<SubscriberName, ValidationError>(
                ValidationError { field: ValidationField::Name, reason: name_rejection(s@) },
            ),
            all_whitespace(s@) || s@.len() > MAX_NAME_LEN ==> r is Err,
    {
        let cs = chars_of(s.as_str());
        let n = cs.len();

        let mut blank = true;
        let mut i: usize = 0;
        while i < n
            invariant
                n == cs@.len(),
                cs@ == s@,
                0 <= i <= n,
                blank == (forall|j: int| 0 <= j < i ==> is_space_char(cs@[j])),
            decreases n - i,
        {
            if !is_space(cs[i]) {
                blank = false;
            }
            i = i + 1;
        }
        if blank {
            return Err(ValidationError {
                field: ValidationField::Name,
                reason: ValidationReason::Blank,
            });
        }

        if n > MAX_NAME_LEN {
            return Err(ValidationError {
                field: ValidationField::Name,
                reason: ValidationReason::TooLong,
            });
        }

        let mut i: usize = 0;
        while i < n
            invariant
                n == cs@.len(),
                cs@ == s@,
                0 <= i <= n,
                !all_whitespace(s@),
                n <= MAX_NAME_LEN,
                forall|j: int| 0 <= j < i ==> !is_forbidden_char(cs@[j]),
            decreases n - i,
        {
            if is_forbidden(cs[i]) {
                return Err(ValidationError {
                    field: ValidationField::Name,
                    reason: ValidationReason::ForbiddenCharacter,
                });
            }
            i = i + 1;
        }

        Ok(SubscriberName { name: s })
    }

    /// The underlying string; it always satisfies the name predicate.
    pub fn as_ref(&self) -> (r: &String)
        ensures
            r@ == self@,
            valid_subscriber_name(self@),
    {
        proof {
            use_type_invariant(&*self);
        }
        &self.name
    }

    /// Gives the string back, consuming the wrapper.
    pub fn into_inner(self) -> (r: String)
        ensures
            r@ == self@,
            valid_subscriber_name(self@),
    {
        proof {
            use_type_invariant(&self);
        }
        self.name
    }
}

// ---------------------------------------------------------------------------
// SubscriberEmail
// ---------------------------------------------------------------------------

/// A validated email address. Construction through `parse` is the only
/// way to obtain one, so every value satisfies `valid_email`.
pub struct SubscriberEmail {
    email: String,
}

impl View for SubscriberEmail {
    type V = Seq<char>;

    closed spec fn view(&self) -> Seq<char> {
        self.email@
    }
}

impl SubscriberEmail {
    #[verifier::type_invariant]
    closed spec fn inv(self) -> bool {
        valid_email(self.email@)
    }

    /// Validates a raw email address. Succeeds exactly on well-formed
    /// addresses; in particular an input without `@`, or whose domain
    /// lacks a dot, is always rejected.
    pub fn parse(s: String) -> (r: Result<SubscriberEmail, ValidationError>)
        ensures
            r is Ok <==> valid_email(s@),
            r matches Ok(m) ==> m@ == s@,
            r is Err ==> (r matches Err(e) && e == (ValidationError {
                field: ValidationField::Email,
                reason: ValidationReason::MalformedEmail,
            })),
            lacks_at(s@) || lacks_domain_dot(s@) ==> r is Err,
    {
        let cs = chars_of(s.as_str());
        let n = cs.len();

        // Locate the unique '@', if any.
        let mut at_pos: usize = 0;
        let mut at_count: usize = 0;
        let mut i: usize = 0;
        while i < n
            invariant
                n == cs@.len(),
                cs@ == s@,
                0 <= i <= n,
                at_count == 0 ==> (forall|j: int| 0 <= j < i ==> cs@[j] != '@'),
                at_count == 1 ==> at_pos < i && cs@[at_pos as int] == '@' && (forall|j: int|
                    0 <= j < i && j != at_pos ==> cs@[j] != '@'),
                at_count >= 2 ==> (exists|a: int, b: int|
                    0 <= a < b < i && cs@[a] == '@' && cs@[b] == '@'),
            decreases n - i,
        {
            if cs[i] == '@' {
                if at_count == 0 {
                    at_pos = i;
                }
                if at_count < 2 {
                    at_count = at_count + 1;
                }
            }
            i = i + 1;
        }

        if at_count == 0 {
            proof {
                assert forall|k: int| !valid_email_at(s@, k) by {
                    if 0 <= k < s@.len() {
                        assert(s@[k] != '@');
                    }
                }
            }
            return Err(ValidationError {
                field: ValidationField::Email,
                reason: ValidationReason::MalformedEmail,
            });
        }
        if at_count >= 2 {
            proof {
                let (a, b) = choose|a: int, b: int|
                    0 <= a < b < n && cs@[a] == '@' && cs@[b] == '@';
                assert forall|k: int| !valid_email_at(s@, k) by {
                    if valid_email_at(s@, k) {
                        if k != a {
                            assert(s@[a] != '@');
                        } else {
                            assert(s@[b] != '@');
                        }
                    }
                }
            }
            return Err(ValidationError {
                field: ValidationField::Email,
                reason: ValidationReason::MalformedEmail,
            });
        }

        // Exactly one '@', at at_pos.
        if at_pos == 0 || at_pos + 1 >= n {
            proof {
                assert forall|k: int| !valid_email_at(s@, k) by {
                    if valid_email_at(s@, k) {
                        if k != at_pos {
                            assert(s@[at_pos as int] != '@');
                        }
                    }
                }
            }
            return Err(ValidationError {
                field: ValidationField::Email,
                reason: ValidationReason::MalformedEmail,
            });
        }
        if cs[at_pos + 1] == '.' || cs[n - 1] == '.' {
            proof {
                assert forall|k: int| !valid_email_at(s@, k) by {
                    if valid_email_at(s@, k) {
                        if k != at_pos {
                            assert(s@[at_pos as int] != '@');
                        }
                    }
                }
            }
            return Err(ValidationError {
                field: ValidationField::Email,
                reason: ValidationReason::MalformedEmail,
            });
        }

        // The domain must contain a dot.
        let mut has_dot = false;
        let mut i: usize = at_pos + 1;
        while i < n
            invariant
                n == cs@.len(),
                cs@ == s@,
                at_pos + 1 <= i <= n,
                has_dot == (exists|j: int| at_pos + 1 <= j < i && cs@[j] == '.'),
            decreases n - i,
        {
            if cs[i] == '.' {
                has_dot = true;
            }
            i = i + 1;
        }
        if !has_dot {
            proof {
                assert forall|k: int| !valid_email_at(s@, k) by {
                    if valid_email_at(s@, k) {
                        if k != at_pos {
                            assert(s@[at_pos as int] != '@');
                        } else {
                            let j = choose|j: int| k + 1 <= j < s@.len() && s@[j] == '.';
                            assert(cs@[j] == '.');
                        }
                    }
                }
            }
            return Err(ValidationError {
                field: ValidationField::Email,
                reason: ValidationReason::MalformedEmail,
            });
        }

        // No whitespace anywhere.
        let mut i: usize = 0;
        while i < n
            invariant
                n == cs@.len(),
                cs@ == s@,
                0 <= i <= n,
                forall|j: int| 0 <= j < i ==> !is_space_char(cs@[j]),
            decreases n - i,
        {
            if is_space(cs[i]) {
                proof {
                    let w = i as int;
                    assert forall|k: int| !valid_email_at(s@, k) by {
                        if valid_email_at(s@, k) {
                            assert(!is_space_char(s@[w]));
                        }
                    }
                }
                return Err(ValidationError {
                field: ValidationField::Email,
                reason: ValidationReason::MalformedEmail,
            });
            }
            i = i + 1;
        }

        proof {
            assert(valid_email_at(s@, at_pos as int));
        }
        Ok(SubscriberEmail { email: s })
    }

    /// The underlying string; it always satisfies the email predicate.
    pub fn as_ref(&self) -> (r: &String)
        ensures
            r@ == self@,
            valid_email(self@),
    {
        proof {
            use_type_invariant(&*self);
        }
        &self.email
    }

    /// Gives the string back, consuming the wrapper.
    pub fn into_inner(self) -> (r: String)
        ensures
            r@ == self@,
            valid_email(self@),
    {
        proof {
            use_type_invariant(&self);
        }
        self.email
    }
}

// ---------------------------------------------------------------------------
// NewSubscriber
// ---------------------------------------------------------------------------

/// A fully validated subscription request, ready for the store.
pub struct NewSubscriber {
    pub name: SubscriberName,
    pub email: SubscriberEmail,
}

impl NewSubscriber {
    /// Validates both raw form fields, name first: the first failure is
    /// reported, as `parse` on the failing field would report it.
    pub fn try_from_form(raw_name: String, raw_email: String) -> (r: Result<
        NewSubscriber,
        ValidationError,
    >)
        ensures
            r is Ok <==> valid_subscriber_name(raw_name@) && valid_email(raw_email@),
            r matches Ok(ns) ==> ns.name@ == raw_name@ && ns.email@ == raw_email@,
            r is Err ==> r == Err::<NewSubscriber, ValidationError>(
                form_rejection(raw_name@, raw_email@),
            ),
    {
        let name = match SubscriberName::parse(raw_name) {
            Ok(n) => n,
            Err(e) => {
                return Err(e);
            },
        };
        let email = match SubscriberEmail::parse(raw_email) {
            Ok(m) => m,
            Err(e) => {
                return Err(e);
            },
        };
        Ok(NewSubscriber { name, email })
    }
}

} // verus!
