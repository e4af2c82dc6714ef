//! Admission control: one token bucket per user, made when the user is first
//! seen and kept for as long as the limiter lives.

use std::collections::HashMap;
use vstd::prelude::*;

verus! {

broadcast use vstd::std_specs::hash::group_hash_axioms;

/// `ratelimit::Ratelimiter`, a token bucket that reads the clock. Nothing of
/// its state is visible here.
#[verifier::external_type_specification]
#[verifier::external_body]
pub struct ExRatelimiter(::ratelimit::Ratelimiter);

/// Tokens added to a bucket at each refill.
pub const REFILL_AMOUNT: u64 = 30;

/// Seconds between two refills.
pub const REFILL_INTERVAL_SECS: u64 = 60;

/// Tokens in a bucket when it is made.
pub const INITIAL_TOKENS: u64 = 30;

/// The most tokens a bucket holds.
pub const MAX_TOKENS: u64 = 120;

/// The longest refill interval a quota may ask for, in seconds. With it, the
/// time of a refill stays far inside 64 bits of nanoseconds.
pub const MAX_INTERVAL_SECS: u64 = 4_000_000_000;

/// The most tokens a quota may speak of. With it, the tokens of all the
/// refills that are due at once stay inside 64 bits.
pub const MAX_QUOTA_TOKENS: u64 = 1_000_000;

/// The settings of every bucket of one limiter.
#[derive(Clone, Copy, Debug, PartialEq, Eq, Structural)]
pub struct Quota {
    /// Tokens added at each refill.
    pub refill_amount: u64,
    /// Seconds between two refills.
    pub interval_secs: u64,
    /// Tokens in a fresh bucket.
    pub initial: u64,
    /// The most tokens a bucket holds.
    pub capacity: u64,
}

impl Quota {
    /// A quota that a bucket can be made with: a refill fits into the bucket,
    /// a fresh bucket is not over-full, and the interval is at least a second.
    pub open spec fn valid(self) -> bool {
        &&& self.refill_amount <= self.capacity
        &&& self.initial <= self.capacity
        &&& self.capacity <= MAX_QUOTA_TOKENS
        &&& 1 <= self.interval_secs <= MAX_INTERVAL_SECS
    }

    /// The relay's quota, in contracts.
    pub open spec fn spec_standard() -> Quota {
        Quota {
            refill_amount: REFILL_AMOUNT,
            interval_secs: REFILL_INTERVAL_SECS,
            initial: INITIAL_TOKENS,
            capacity: MAX_TOKENS,
        }
    }

    /// The relay's quota: 30 tokens to start with, 30 more every 60 seconds,
    /// never more than 120.
    #[verifier::when_used_as_spec(spec_standard)]
    pub fn standard() -> (quota: Quota)
        ensures
            quota == Quota::standard(),
            quota.valid(),
    {
        Quota {
            refill_amount: REFILL_AMOUNT,
            interval_secs: REFILL_INTERVAL_SECS,
            initial: INITIAL_TOKENS,
            capacity: MAX_TOKENS,
        }
    }

    /// Whether a bucket can be made with this quota.
    pub fn is_valid(&self) -> (ok: bool)
        ensures
            ok == self.valid(),
    {
        self.refill_amount <= self.capacity && self.initial <= self.capacity && self.capacity
            <= MAX_QUOTA_TOKENS && 1 <= self.interval_secs && self.interval_secs
            <= MAX_INTERVAL_SECS
    }
}

/// How long to wait before the next token can be had.
#[derive(Clone, Copy, Debug, PartialEq, Eq, Structural)]
pub struct Delay {
    /// Whole seconds.
    pub secs: u64,
    /// The rest, in nanoseconds.
    pub nanos: u32,
}

impl Delay {
    /// The nanoseconds stay under one second.
    pub open spec fn valid(self) -> bool {
        self.nanos < 1_000_000_000
    }

    /// The delay is longer than nothing.
    pub open spec fn positive(self) -> bool {
        self.secs > 0 || self.nanos > 0
    }
}

/// The tokens that a bucket holds: the field `available` of
/// `ratelimit::Ratelimiter`. It changes in `try_wait` alone, which refills
/// the bucket as far as the clock has come and then takes a token.
pub uninterp spec fn tokens(bucket: ::ratelimit::Ratelimiter) -> nat;

/// The quota that a bucket was made with. The bucket keeps its capacity, its
/// refill and its interval for good: nothing here calls a setter.
pub uninterp spec fn made_with(bucket: ::ratelimit::Ratelimiter) -> Quota;

/// Builds a bucket with `ratelimit::Ratelimiter::builder`, the builder's
/// `initial_available` and `max_tokens`, and `build`. As the source of `build`
/// has it, the only refusals are a refill larger than the capacity and an
/// interval whose nanoseconds do not fit in 64 bits, so a valid quota always
/// yields a bucket; the bucket starts with the initial tokens and keeps the
/// rest of the quota as its parameters. The bound on the interval also keeps
/// the first refill time, the clock plus the interval, from overflowing.
#[verifier::external_body]
fn build_bucket(quota: Quota) -> (res: Option<::ratelimit::Ratelimiter>)
    requires
        quota.valid(),
    ensures
        res is Some,
        res matches Some(bucket) ==> tokens(bucket) == quota.initial,
        res matches Some(bucket) ==> made_with(bucket) == quota,
{
    ::ratelimit::Ratelimiter::builder(
        quota.refill_amount,
        std::time::Duration::from_secs(quota.interval_secs),
    ).initial_available(quota.initial).max_tokens(quota.capacity).build().ok()
}

/// `ratelimit::Ratelimiter::try_wait`, on a bucket that nothing else can
/// reach. It first refills the bucket as far as the clock has come, which
/// only adds tokens and stops at the capacity, and then takes one token if
/// one is there. So it succeeds wherever the bucket held a token, whatever
/// the clock reads, and leaves at most one token less than it found. Where
/// the bucket was empty the clock decides, and nothing is claimed of that. A
/// refusal comes only while the bucket is empty and the clock is before the
/// next refill; it leaves the bucket empty and carries the time that is left
/// until then, a whole number of nanoseconds, at least one.
///
/// What is required keeps the crate's own arithmetic in bounds: an interval
/// that is not zero, no more tokens than the capacity, and the limits of a
/// valid quota.
#[verifier::external_body]
fn try_wait(bucket: &mut ::ratelimit::Ratelimiter) -> (res: Result<(), Delay>)
    requires
        made_with(*old(bucket)).valid(),
        tokens(*old(bucket)) <= made_with(*old(bucket)).capacity,
    ensures
        made_with(*final(bucket)) == made_with(*old(bucket)),
        tokens(*final(bucket)) <= made_with(*old(bucket)).capacity,
        tokens(*old(bucket)) > 0 ==> res is Ok,
        res is Ok ==> tokens(*final(bucket)) + 1 >= tokens(*old(bucket)),
        res matches Err(delay) ==> delay.valid() && delay.positive() && tokens(*final(bucket))
            == 0,
{
    bucket.try_wait().map_err(|d| Delay { secs: d.as_secs(), nanos: d.subsec_nanos() })
}

/// How a limiter stands after one request of `user_id` that was answered with
/// `res`, against how it stood before.
///
/// The user has a bucket, and no other bucket was made. The tokens of every
/// other user are what they were. The request is admitted wherever the user
/// had a token left, whatever the clock reads; with no token left the clock
/// decides. An admitted request leaves at most one token less than there was,
/// a refill aside; a refused one leaves none, and names a wait that is not
/// zero. No bucket holds more than the capacity.
pub open spec fn asked_once(
    before: Limiter,
    after: Limiter,
    user_id: i64,
    res: Result<(), Delay>,
) -> bool {
    &&& after.identities() == before.identities().insert(user_id)
    &&& after.quota() == before.quota()
    &&& forall|other: i64|
        other != user_id ==> #[trigger] after.tokens_of(other) == before.tokens_of(other)
    &&& before.tokens_of(user_id) > 0 ==> res is Ok
    &&& res is Ok ==> after.tokens_of(user_id) + 1 >= before.tokens_of(user_id)
    &&& res matches Err(delay) ==> delay.valid() && delay.positive() && after.tokens_of(user_id)
        == 0
    &&& after.tokens_of(user_id) <= after.quota().capacity
}

/// The per-user rate limiter.
pub struct Limiter {
    buckets: HashMap<i64, ::ratelimit::Ratelimiter>,
    quota: Quota,
}

impl Limiter {
    /// The quota is valid, and every bucket was made with it and holds no more
    /// than its capacity.
    #[verifier::type_invariant]
    spec fn well_formed(self) -> bool {
        &&& self.quota.valid()
        &&& forall|user_id: i64| #[trigger]
            self.buckets@.contains_key(user_id) ==> made_with(self.buckets@[user_id])
                == self.quota && tokens(self.buckets@[user_id]) <= self.quota.capacity
    }

    /// The users that have a bucket.
    pub closed spec fn identities(&self) -> Set<i64> {
        self.buckets@.dom()
    }

    /// The quota that every bucket is made with.
    pub closed spec fn quota(&self) -> Quota {
        self.quota
    }

    /// The tokens that a user has left: those of the user's bucket, and for a
    /// user without a bucket the initial tokens, which the bucket will hold
    /// when it is made.
    pub closed spec fn tokens_of(&self, user_id: i64) -> nat {
        if self.buckets@.contains_key(user_id) {
            tokens(self.buckets@[user_id])
        } else {
            self.quota.initial as nat
        }
    }

    /// A limiter without buckets; `None` if no bucket could be made with the
    /// quota.
    pub fn new(quota: Quota) -> (res: Option<Limiter>)
        ensures
            res is Some <==> quota.valid(),
            res matches Some(limiter) ==> limiter.fresh(quota),
    {
        if quota.is_valid() {
            Some(Limiter { buckets: HashMap::new(), quota })
        } else {
            None
        }
    }

    /// A limiter that no user has asked yet: no bucket, and for every user the
    /// initial tokens of the quota.
    pub open spec fn fresh(&self, quota: Quota) -> bool {
        &&& self.quota() == quota
        &&& self.identities() == Set::<i64>::empty()
        &&& forall|user_id: i64| #[trigger] self.tokens_of(user_id) == quota.initial
    }

    /// Asks the user's bucket for one token, without blocking. The bucket is
    /// made on the user's first request, with the initial tokens. The request
    /// is admitted while the user has a token left; once the bucket is empty,
    /// the clock decides whether a refill has come. `Err` carries the time
    /// until the bucket is next refilled, which is never zero. No other
    /// user's tokens are touched.
    ///
    /// The exclusive borrow keeps two requests from running at once; callers
    /// that share a limiter put it behind a lock.
    pub fn wait(&mut self, user_id: i64) -> (res: Result<(), Delay>)
        ensures
            asked_once(*old(self), *final(self), user_id, res),
    {
        proof {
            use_type_invariant(&*self);
        }
        // The buckets are taken out while one of them is asked, and put back.
        let mut buckets: HashMap<i64, ::ratelimit::Ratelimiter> = HashMap::new();
        std::mem::swap(&mut self.buckets, &mut buckets);
        let mut bucket = match buckets.remove(&user_id) {
            Some(bucket) => bucket,
            None => match build_bucket(self.quota) {
                Some(bucket) => bucket,
                None => vstd::pervasive::unreached(),
            },
        };
        let res = try_wait(&mut bucket);
        buckets.insert(user_id, bucket);
        assert(buckets@.dom() =~= old(self).buckets@.dom().insert(user_id));
        std::mem::swap(&mut self.buckets, &mut buckets);
        res
    }
}

impl Default for Limiter {
    /// A limiter without buckets, with the relay's quota.
    fn default() -> (limiter: Limiter)
        ensures
            limiter.fresh(Quota::standard()),
    {
        Limiter { buckets: HashMap::new(), quota: Quota::standard() }
    }
}

/// The limiter that the relay starts with: no user seen yet, the relay's
/// quota.
pub fn limiter() -> (limiter: Limiter)
    ensures
        limiter.fresh(Quota::standard()),
{
    Limiter::default()
}

/// How often `user_id` asks in a run of requests.
pub open spec fn requests_of(users: Seq<i64>, user_id: i64) -> nat
    decreases users.len(),
{
    if users.len() == 0 {
        0
    } else {
        requests_of(users.drop_last(), user_id) + if users.last() == user_id {
            1nat
        } else {
            0nat
        }
    }
}

/// A run of requests to one limiter, made one after another at any times:
/// request `j` is made by `users[j]`, takes the limiter from `states[j]` to
/// `states[j + 1]`, and is answered with `results[j]`.
pub open spec fn run_of_requests(
    states: Seq<Limiter>,
    users: Seq<i64>,
    results: Seq<Result<(), Delay>>,
) -> bool {
    &&& states.len() == users.len() + 1
    &&& results.len() == users.len()
    &&& forall|j: int|
        #![trigger results[j]]
        0 <= j < users.len() ==> asked_once(states[j], states[j + 1], users[j], results[j])
}

/// In a run of requests, a user has at least as many tokens left as the user
/// had at the start, less one for each request of that user so far, as long
/// as those requests are no more than the tokens at the start.
proof fn tokens_go_one_by_one(
    states: Seq<Limiter>,
    users: Seq<i64>,
    results: Seq<Result<(), Delay>>,
    user_id: i64,
    n: int,
)
    requires
        run_of_requests(states, users, results),
        0 <= n <= users.len(),
        requests_of(users.take(n), user_id) <= states[0].tokens_of(user_id),
    ensures
        states[n].tokens_of(user_id) + requests_of(users.take(n), user_id) >= states[0].tokens_of(
            user_id,
        ),
    decreases n,
{
    if n > 0 {
        assert(users.take(n).drop_last() =~= users.take(n - 1));
        assert(users.take(n).last() == users[n - 1]);
        tokens_go_one_by_one(states, users, results, user_id, n - 1);
        assert(asked_once(states[n - 1], states[n - 1 + 1], users[n - 1], results[n - 1]));
    } else {
        assert(users.take(0).len() == 0);
    }
}

/// Tokens last as long as they were counted, and are never shared. In any run
/// of requests, by whatever users and at whatever times, a request is
/// admitted if its user has asked fewer times before than the user had tokens
/// at the start. What other users ask in between takes nothing from it.
pub proof fn admitted_while_tokens_last(
    states: Seq<Limiter>,
    users: Seq<i64>,
    results: Seq<Result<(), Delay>>,
    n: int,
)
    requires
        run_of_requests(states, users, results),
        0 <= n < users.len(),
        requests_of(users.take(n), users[n]) < states[0].tokens_of(users[n]),
    ensures
        results[n] is Ok,
{
    tokens_go_one_by_one(states, users, results, users[n], n);
    assert(asked_once(states[n], states[n + 1], users[n], results[n]));
}

/// The first requests of every user are admitted. In any run of requests to a
/// limiter that starts fresh, a request is admitted if its user has asked
/// fewer times before than the quota has initial tokens: with the relay's
/// quota, each user's first 30 requests, whatever the clock reads and
/// whatever other users have spent.
pub proof fn first_requests_are_admitted(
    states: Seq<Limiter>,
    users: Seq<i64>,
    results: Seq<Result<(), Delay>>,
    quota: Quota,
    n: int,
)
    requires
        run_of_requests(states, users, results),
        states[0].fresh(quota),
        0 <= n < users.len(),
        requests_of(users.take(n), users[n]) < quota.initial,
    ensures
        results[n] is Ok,
{
    admitted_while_tokens_last(states, users, results, n);
}

/// In a run of requests, no bucket ever holds more than the capacity, and a
/// refused request leaves its user without a token.
pub proof fn bucket_stays_within_capacity(
    states: Seq<Limiter>,
    users: Seq<i64>,
    results: Seq<Result<(), Delay>>,
    n: int,
)
    requires
        run_of_requests(states, users, results),
        0 <= n < users.len(),
    ensures
        states[n + 1].tokens_of(users[n]) <= states[n + 1].quota().capacity,
        results[n] is Err ==> states[n].tokens_of(users[n]) == 0 && states[n + 1].tokens_of(
            users[n],
        ) == 0,
{
    assert(asked_once(states[n], states[n + 1], users[n], results[n]));
}

} // verus!
