use vstd::prelude::*;

use crate::domain::{valid_email, valid_subscriber_name, NewSubscriber};
use crate::token::{generate_token, valid_token};

verus! {

// ---------------------------------------------------------------------------
// Rows and errors
// ---------------------------------------------------------------------------

/// Subscription state recorded for a subscriber. The only transition is
/// `Pending` to `Confirmed`; it is never reversed.
#[derive(Clone, Copy, PartialEq, Eq, Structural, Debug)]
pub enum SubscriberStatus {
    Pending,
    Confirmed,
}

/// A persisted subscriber row.
pub struct Subscriber {
    pub id: u128,
    pub email: String,
    pub name: String,
    pub subscribed_at: i64,
    pub status: SubscriberStatus,
}

/// A persisted confirmation-token row, referencing its subscriber.
pub struct SubscriptionToken {
    pub token: String,
    pub subscriber_id: u128,
}

/// Failures of the subscription store.
#[derive(Clone, Copy, PartialEq, Eq, Structural, Debug)]
pub enum StoreError {
    /// A subscriber with the same email already exists.
    Duplicate,
    /// The presented token was never issued.
    UnknownToken,
    /// A transient persistence failure; nothing was written.
    Unavailable,
}

// ---------------------------------------------------------------------------
// Spec-level model
// ---------------------------------------------------------------------------

/// Some subscriber row carries this email.
pub open spec fn has_email(subs: Seq<Subscriber>, e: Seq<char>) -> bool {
    exists|i: int| 0 <= i < subs.len() && subs[i].email@ == e
}

/// Some subscriber row carries this id.
pub open spec fn has_id(subs: Seq<Subscriber>, id: u128) -> bool {
    exists|i: int| 0 <= i < subs.len() && subs[i].id == id
}

/// The position of the subscriber row with this id.
pub open spec fn id_index(subs: Seq<Subscriber>, id: u128) -> int {
    choose|i: int| 0 <= i < subs.len() && subs[i].id == id
}

/// The status of the subscriber with this id.
pub open spec fn status_of(subs: Seq<Subscriber>, id: u128) -> SubscriberStatus {
    subs[id_index(subs, id)].status
}

/// Some token row carries this token string.
pub open spec fn has_token(toks: Seq<SubscriptionToken>, t: Seq<char>) -> bool {
    exists|i: int| 0 <= i < toks.len() && toks[i].token@ == t
}

/// The position of the token row with this token string.
pub open spec fn token_index(toks: Seq<SubscriptionToken>, t: Seq<char>) -> int {
    choose|i: int| 0 <= i < toks.len() && toks[i].token@ == t
}

/// The subscriber a token resolves to.
pub open spec fn token_owner(toks: Seq<SubscriptionToken>, t: Seq<char>) -> u128 {
    toks[token_index(toks, t)].subscriber_id
}

/// The subscriber rows after confirming the subscriber with this id:
/// that row's status becomes `Confirmed`, every other row and every
/// other field stays as it was.
pub open spec fn with_confirmed(subs: Seq<Subscriber>, id: u128) -> Seq<Subscriber> {
    subs.map(
        |i: int, s: Subscriber|
            if s.id == id {
                Subscriber { status: SubscriberStatus::Confirmed, ..s }
            } else {
                s
            },
    )
}

// ---------------------------------------------------------------------------
// The store
// ---------------------------------------------------------------------------

/// The authoritative subscription state: subscriber rows plus their
/// confirmation tokens. Both units of work below mutate it atomically:
/// either every row of the unit is written, or none is.
pub struct SubscriptionStore {
    subscribers: Vec<Subscriber>,
    tokens: Vec<SubscriptionToken>,
}

impl SubscriptionStore {
    /// The subscriber rows, oldest first.
    pub closed spec fn subscribers(self) -> Seq<Subscriber> {
        self.subscribers@
    }

    /// The token rows, oldest first.
    pub closed spec fn tokens(self) -> Seq<SubscriptionToken> {
        self.tokens@
    }

    /// Well-formedness: emails are unique, ids are unique, tokens are
    /// unique and well-formed, every token references an existing
    /// subscriber, and every row holds validated fields.
    pub open spec fn wf(self) -> bool {
        &&& forall|i: int, j: int|
            0 <= i < j < self.subscribers().len() ==> self.subscribers()[i].email@
                != self.subscribers()[j].email@
        &&& forall|i: int, j: int|
            0 <= i < j < self.subscribers().len() ==> self.subscribers()[i].id
                != self.subscribers()[j].id
        &&& forall|i: int, j: int|
            0 <= i < j < self.tokens().len() ==> self.tokens()[i].token@
                != self.tokens()[j].token@
        &&& forall|i: int|
            0 <= i < self.tokens().len() ==> has_id(
                self.subscribers(),
                #[trigger] self.tokens()[i].subscriber_id,
            )
        &&& forall|i: int| 0 <= i < self.tokens().len() ==> valid_token(
            #[trigger] self.tokens()[i].token@,
        )
        &&& forall|i: int| 0 <= i < self.subscribers().len() ==> valid_email(
            #[trigger] self.subscribers()[i].email@,
        ) && valid_subscriber_name(self.subscribers()[i].name@)
    }

    /// An empty store.
    pub fn new() -> (r: SubscriptionStore)
        ensures
            r.wf(),
            r.subscribers() == Seq::<Subscriber>::empty(),
            r.tokens() == Seq::<SubscriptionToken>::empty(),
    {
        let r = SubscriptionStore { subscribers: Vec::new(), tokens: Vec::new() };
        proof {
            assert(r.subscribers() =~= Seq::<Subscriber>::empty());
            assert(r.tokens() =~= Seq::<SubscriptionToken>::empty());
        }
        r
    }

    /// How many subscriber rows the store holds.
    pub fn subscriber_count(&self) -> (n: usize)
        ensures
            n == self.subscribers().len(),
    {
        self.subscribers.len()
    }

    /// How many token rows the store holds.
    pub fn token_count(&self) -> (n: usize)
        ensures
            n == self.tokens().len(),
    {
        self.tokens.len()
    }

    /// Looks a subscriber up by email.
    #[verifier::loop_isolation(false)]
    pub fn find_by_email(&self, email: &String) -> (r: Option<&Subscriber>)
        ensures
            r is Some <==> has_email(self.subscribers(), email@),
            r matches Some(s) ==> exists|i: int|
                0 <= i < self.subscribers().len() && self.subscribers()[i] == *s && s.email@
                    == email@,
    {
        let n = self.subscribers.len();
        let mut i: usize = 0;
        while i < n
            invariant
                n == self.subscribers().len(),
                0 <= i <= n,
                forall|j: int| 0 <= j < i ==> self.subscribers()[j].email@ != email@,
            decreases n - i,
        {
            if self.subscribers[i].email.eq(email) {
                return Some(&self.subscribers[i]);
            }
            i = i + 1;
        }
        None
    }

    /// Resolves a token to the id of the subscriber it was issued for.
    #[verifier::loop_isolation(false)]
    pub fn find_token(&self, token: &String) -> (r: Option<u128>)
        requires
            self.wf(),
        ensures
            r is Some <==> has_token(self.tokens(), token@),
            r matches Some(id) ==> has_token(self.tokens(), token@) && id == token_owner(
                self.tokens(),
                token@,
            ),
    {
        let n = self.tokens.len();
        let mut i: usize = 0;
        while i < n
            invariant
                n == self.tokens().len(),
                0 <= i <= n,
                forall|j: int| 0 <= j < i ==> self.tokens()[j].token@ != token@,
            decreases n - i,
        {
            if self.tokens[i].token.eq(token) {
                proof {
                    assert(self.tokens()[i as int].token@ == token@);
                    let k = token_index(self.tokens(), token@);
                    assert(0 <= k < self.tokens().len() && self.tokens()[k].token@ == token@);
                    if k != i {
                        assert(self.tokens()[k].token@ != self.tokens()[i as int].token@);
                    }
                }
                return Some(self.tokens[i].subscriber_id);
            }
            i = i + 1;
        }
        None
    }

    /// The one unit of work behind a submission: writes a `Pending`
    /// subscriber row and its token row together, or nothing at all.
    /// A second subscriber with an email the store already holds is
    /// refused as `Duplicate`; a collision of the freshly drawn id or
    /// token with an existing row is a transient `Unavailable`. On any
    /// error the store is exactly as it was.
    #[verifier::loop_isolation(false)]
    pub fn create_pending_subscriber(&mut self, new_subscriber: NewSubscriber) -> (r: Result<
        (u128, String),
        StoreError,
    >)
        requires
            old(self).wf(),
        ensures
            final(self).wf(),
            r is Err ==> *final(self) == *old(self),
            has_email(old(self).subscribers(), new_subscriber.email@) <==> r == Err::<
                (u128, String),
                StoreError,
            >(StoreError::Duplicate),
            !has_email(old(self).subscribers(), new_subscriber.email@) ==> (r is Ok || r == Err::<
                (u128, String),
                StoreError,
            >(StoreError::Unavailable)),
            r == Err::<(u128, String), StoreError>(StoreError::Unavailable) ==> old(
                self,
            ).subscribers().len() + old(self).tokens().len() > 0,
            old(self).subscribers().len() == 0 && old(self).tokens().len() == 0 ==> r is Ok,
            r matches Ok((id, tok)) ==> ({
                let subs0 = old(self).subscribers();
                let added = final(self).subscribers().last();
                &&& !has_email(subs0, new_subscriber.email@)
                &&& !has_id(subs0, id)
                &&& !has_token(old(self).tokens(), tok@)
                &&& valid_token(tok@)
                &&& final(self).subscribers() == subs0.push(added)
                &&& added.id == id
                &&& added.email@ == new_subscriber.email@
                &&& added.name@ == new_subscriber.name@
                &&& added.status == SubscriberStatus::Pending
                &&& final(self).tokens() == old(self).tokens().push(final(self).tokens().last())
                &&& final(self).tokens().last().token@ == tok@
                &&& final(self).tokens().last().subscriber_id == id
            }),
    {
        let NewSubscriber { name, email } = new_subscriber;
        let email_s = email.into_inner();
        let name_s = name.into_inner();

        // Email uniqueness: the database's constraint is the arbiter.
        let n = self.subscribers.len();
        let mut i: usize = 0;
        while i < n
            invariant
                *self == *old(self),
                n == self.subscribers().len(),
                0 <= i <= n,
                email_s@ == new_subscriber.email@,
                forall|j: int| 0 <= j < i ==> self.subscribers()[j].email@ != email_s@,
            decreases n - i,
        {
            if self.subscribers[i].email.eq(&email_s) {
                return Err(StoreError::Duplicate);
            }
            i = i + 1;
        }

        // A fresh id; a collision with an existing row would break the
        // primary key and is surfaced as a transient failure.
        let id = fresh_subscriber_id();
        let mut i: usize = 0;
        while i < n
            invariant
                *self == *old(self),
                n == self.subscribers().len(),
                0 <= i <= n,
                forall|j: int| 0 <= j < i ==> self.subscribers()[j].id != id,
            decreases n - i,
        {
            if self.subscribers[i].id == id {
                return Err(StoreError::Unavailable);
            }
            i = i + 1;
        }

        // A fresh token; same reasoning for its primary key.
        let token = generate_token();
        let m = self.tokens.len();
        let mut i: usize = 0;
        while i < m
            invariant
                *self == *old(self),
                m == self.tokens().len(),
                0 <= i <= m,
                forall|j: int| 0 <= j < i ==> self.tokens()[j].token@ != token@,
            decreases m - i,
        {
            if self.tokens[i].token.eq(&token) {
                return Err(StoreError::Unavailable);
            }
            i = i + 1;
        }

        let now = current_timestamp();
        self.subscribers.push(
            Subscriber {
                id,
                email: email_s,
                name: name_s,
                subscribed_at: now,
                status: SubscriberStatus::Pending,
            },
        );
        self.tokens.push(SubscriptionToken { token: token.clone(), subscriber_id: id });
        proof {
            let subs0 = old(self).subscribers();
            let subs1 = self.subscribers();
            let toks0 = old(self).tokens();
            let toks1 = self.tokens();
            assert forall|a: int, b: int|
                0 <= a < b < subs1.len() implies subs1[a].email@ != subs1[b].email@ by {
                if b == subs1.len() - 1 {
                    assert(subs1[a].email@ != email_s@);
                }
            }
            assert forall|a: int, b: int| 0 <= a < b < subs1.len() implies subs1[a].id
                != subs1[b].id by {
                if b == subs1.len() - 1 {
                    assert(subs1[a].id != id);
                }
            }
            assert forall|a: int, b: int|
                0 <= a < b < toks1.len() implies toks1[a].token@ != toks1[b].token@ by {
                if b == toks1.len() - 1 {
                    assert(toks1[a].token@ != token@);
                }
            }
            assert forall|a: int|
                0 <= a < toks1.len() implies has_id(
                subs1,
                #[trigger] toks1[a].subscriber_id,
            ) by {
                if a < toks0.len() {
                    let w = choose|w: int| 0 <= w < subs0.len() && subs0[w].id
                        == toks0[a].subscriber_id;
                    assert(subs1[w].id == toks1[a].subscriber_id);
                } else {
                    assert(subs1[subs1.len() - 1].id == id);
                }
            }
        }
        Ok((id, token))
    }

    /// The one unit of work behind a confirmation: resolves the token
    /// and transitions its subscriber to `Confirmed`, atomically with
    /// the lookup. A token the store never issued is `UnknownToken` and
    /// changes nothing. Re-confirming an already confirmed subscriber
    /// succeeds and changes nothing: the transition is idempotent.
    #[verifier::loop_isolation(false)]
    pub fn confirm_subscriber(&mut self, token: &String) -> (r: Result<(), StoreError>)
        requires
            old(self).wf(),
        ensures
            final(self).wf(),
            !has_token(old(self).tokens(), token@) ==> r == Err::<(), StoreError>(
                StoreError::UnknownToken,
            ) && *final(self) == *old(self),
            has_token(old(self).tokens(), token@) ==> r == Ok::<(), StoreError>(())
                && final(self).subscribers() == with_confirmed(
                old(self).subscribers(),
                token_owner(old(self).tokens(), token@),
            ) && final(self).tokens() == old(self).tokens(),
    {
        let owner = match self.find_token(token) {
            Some(id) => id,
            None => {
                return Err(StoreError::UnknownToken);
            },
        };

        let ghost subs0 = self.subscribers();
        let n = self.subscribers.len();
        let mut i: usize = 0;
        while i < n
            invariant
                self.tokens() == old(self).tokens(),
                self.subscribers().len() == subs0.len(),
                n == subs0.len(),
                0 <= i <= n,
                old(self).wf(),
                has_token(old(self).tokens(), token@),
                owner == token_owner(old(self).tokens(), token@),
                forall|j: int| 0 <= j < i ==> self.subscribers()[j] == with_confirmed(subs0, owner)[j],
                forall|j: int| i <= j < n ==> self.subscribers()[j] == subs0[j],
                subs0 == old(self).subscribers(),
            decreases n - i,
        {
            if self.subscribers[i].id == owner {
                self.subscribers[i].status = SubscriberStatus::Confirmed;
            }
            i = i + 1;
        }
        proof {
            assert(self.subscribers() =~= with_confirmed(subs0, owner));
            let subs1 = self.subscribers();
            assert forall|a: int|
                0 <= a < subs1.len() implies (#[trigger] subs1[a]).email@ == subs0[a].email@
                    && subs1[a].id == subs0[a].id && subs1[a].name@ == subs0[a].name@ by {}
            assert forall|a: int|
                0 <= a < self.tokens().len() implies has_id(
                subs1,
                #[trigger] self.tokens()[a].subscriber_id,
            ) by {
                let tid = self.tokens()[a].subscriber_id;
                assert(has_id(subs0, tid));
                let w = choose|w: int| 0 <= w < subs0.len() && subs0[w].id == tid;
                assert(subs1[w].id == tid);
            }
        }
        Ok(())
    }
}

// ---------------------------------------------------------------------------
// Laws
// ---------------------------------------------------------------------------

/// Round trip: after a submission's unit of work has committed (the
/// shape `create_pending_subscriber` ensures of a success), the new
/// subscriber's status is `Pending`, the returned token resolves back
/// to that same subscriber id, and confirming through that token marks
/// exactly that subscriber `Confirmed`.
pub proof fn lemma_round_trip(
    s0: SubscriptionStore,
    s1: SubscriptionStore,
    id: u128,
    tok: Seq<char>,
)
    requires
        s0.wf(),
        s1.wf(),
        !has_id(s0.subscribers(), id),
        s1.subscribers() == s0.subscribers().push(s1.subscribers().last()),
        s1.subscribers().last().id == id,
        s1.subscribers().last().status == SubscriberStatus::Pending,
        s1.tokens() == s0.tokens().push(s1.tokens().last()),
        s1.tokens().last().token@ == tok,
        s1.tokens().last().subscriber_id == id,
    ensures
        has_id(s1.subscribers(), id),
        status_of(s1.subscribers(), id) == SubscriberStatus::Pending,
        has_token(s1.tokens(), tok),
        token_owner(s1.tokens(), tok) == id,
        status_of(with_confirmed(s1.subscribers(), id), id) == SubscriberStatus::Confirmed,
{
    let subs1 = s1.subscribers();
    let toks1 = s1.tokens();
    let li = subs1.len() - 1;
    let lt = toks1.len() - 1;
    assert(subs1[li].id == id);
    assert(has_id(subs1, id));
    let w = id_index(subs1, id);
    assert(0 <= w < subs1.len() && subs1[w].id == id);
    if w != li {
        assert(subs1[w].id != subs1[li].id);
    }
    assert(status_of(subs1, id) == SubscriberStatus::Pending);

    assert(toks1[lt].token@ == tok);
    assert(has_token(toks1, tok));
    let v = token_index(toks1, tok);
    assert(0 <= v < toks1.len() && toks1[v].token@ == tok);
    if v != lt {
        assert(toks1[v].token@ != toks1[lt].token@);
    }
    assert(token_owner(toks1, tok) == id);

    let subs2 = with_confirmed(subs1, id);
    assert(subs2[li].id == id && subs2[li].status == SubscriberStatus::Confirmed);
    assert(has_id(subs2, id));
    let w2 = id_index(subs2, id);
    assert(0 <= w2 < subs2.len() && subs2[w2].id == id);
    assert(subs2[w2].id == subs1[w2].id);
    if w2 != li {
        assert(subs1[w2].id != subs1[li].id);
    }
    assert(status_of(subs2, id) == SubscriberStatus::Confirmed);
}

/// Confirmation is idempotent: the token of a confirmed subscriber
/// still resolves to the same subscriber (tokens are untouched by the
/// transition), that subscriber's status is `Confirmed`, and applying
/// the transition a second time changes no row at all.
pub proof fn lemma_confirm_idempotent(s: SubscriptionStore, tok: Seq<char>)
    requires
        s.wf(),
        has_token(s.tokens(), tok),
    ensures
        ({
            let id = token_owner(s.tokens(), tok);
            let once = with_confirmed(s.subscribers(), id);
            &&& has_id(s.subscribers(), id)
            &&& has_id(once, id)
            &&& status_of(once, id) == SubscriberStatus::Confirmed
            &&& with_confirmed(once, id) == once
        }),
{
    let id = token_owner(s.tokens(), tok);
    let subs = s.subscribers();
    let once = with_confirmed(subs, id);
    let v = token_index(s.tokens(), tok);
    assert(0 <= v < s.tokens().len() && s.tokens()[v].token@ == tok);
    assert(has_id(subs, id));
    let w = id_index(subs, id);
    assert(0 <= w < subs.len() && subs[w].id == id);
    assert(once[w].id == id);
    assert(has_id(once, id));
    let w2 = id_index(once, id);
    assert(0 <= w2 < once.len() && once[w2].id == id);
    assert(once[w2].id == subs[w2].id);
    assert(once[w2].status == SubscriberStatus::Confirmed);
    assert forall|i: int| 0 <= i < once.len() implies #[trigger] with_confirmed(once, id)[i]
        == once[i] by {
        assert(once[i].id == subs[i].id);
    }
    assert(with_confirmed(once, id) =~= once);
}

/// The status transition is one-way: a confirmation never returns any
/// subscriber to `Pending`; whoever is `Confirmed` stays so.
pub proof fn lemma_confirmation_one_way(subs: Seq<Subscriber>, id: u128)
    ensures
        forall|i: int|
            0 <= i < subs.len() && subs[i].status == SubscriberStatus::Confirmed
                ==> (#[trigger] with_confirmed(subs, id)[i]).status == SubscriberStatus::Confirmed,
{
}

/// Of competing submissions with one email, at most one wins: once a
/// submission's unit of work has committed, the store holds that
/// email, so `create_pending_subscriber` refuses every later
/// submission carrying it as `Duplicate` (its contract makes the
/// refusal exact). The store's email uniqueness is the sole arbiter.
pub proof fn lemma_duplicate_email_refused(
    s0: SubscriptionStore,
    s1: SubscriptionStore,
    e: Seq<char>,
)
    requires
        s1.subscribers() == s0.subscribers().push(s1.subscribers().last()),
        s1.subscribers().last().email@ == e,
    ensures
        has_email(s1.subscribers(), e),
{
    let subs1 = s1.subscribers();
    assert(subs1.len() == s0.subscribers().len() + 1);
    assert(subs1[subs1.len() - 1].email@ == e);
}

// ---------------------------------------------------------------------------
// Outside sources of freshness
// ---------------------------------------------------------------------------

/// Relies on `uuid::Uuid::new_v4`: draws a random version-4 UUID,
/// carried as its 128-bit value. Nothing is promised of the value;
/// in particular, distinct calls may in principle collide.
#[verifier::external_body]
fn fresh_subscriber_id() -> (r: u128) {
    uuid::Uuid::new_v4().as_u128()
}

/// Relies on `chrono::Utc::now`: the current time as seconds since the
/// Unix epoch. Nothing is promised of the value.
#[verifier::external_body]
fn current_timestamp() -> (r: i64) {
    chrono::Utc::now().timestamp()
}

} // verus!
