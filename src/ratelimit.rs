use vstd::prelude::*;
use std::time::Instant;

verus! {

#[verifier::external_type_specification]
#[verifier::external_body]
pub struct ExInstant(Instant);

/// Relies on `std::time::Instant::now`: a reading of the monotonic clock.
#[verifier::external_body]
fn clock_now() -> Instant {
    Instant::now()
}

/// Relies on `std::time::Instant::elapsed` and `Duration::as_nanos`: the whole
/// nanoseconds since `since`, a clock reading that nothing here can predict.
#[verifier::external_body]
fn nanos_since(since: &Instant) -> u128 {
    since.elapsed().as_nanos()
}

/// Nanoseconds in a second.
pub const NANOS_PER_SECOND: u128 = 1_000_000_000;

/// The time from `then` to `now`, none when the clock reads earlier.
pub open spec fn elapsed(then: u128, now: u128) -> int {
    if now >= then {
        now - then
    } else {
        0
    }
}

/// Whether a command may run at time `now` (nanoseconds on the limiter's
/// clock): it never ran, or more than the period has passed since it last did.
pub open spec fn allows(stamps: Map<Seq<char>, u128>, period_seconds: u64, key: Seq<char>, now: u128) -> bool {
    !stamps.contains_key(key) || elapsed(stamps[key], now) > period_seconds * NANOS_PER_SECOND
}

/// The stamps after a trigger at `now` that was allowed or not.
pub open spec fn after_trigger(stamps: Map<Seq<char>, u128>, allowed: bool, key: Seq<char>, now: u128) -> Map<Seq<char>, u128> {
    if allowed {
        stamps.insert(key, now)
    } else {
        stamps
    }
}

/// A per-command cool-down: each command key may run once per period.
pub struct Ratelimiter {
    period_seconds: u64,
    origin: Instant,
    limits: Vec<(String, u128)>,
    stamps: Ghost<Map<Seq<char>, u128>>,
}

impl Ratelimiter {
    /// The cool-down that applies to every key, in seconds.
    pub closed spec fn period(&self) -> u64 {
        self.period_seconds
    }

    /// When each key last ran, in nanoseconds on the limiter's clock.
    pub closed spec fn stamps(&self) -> Map<Seq<char>, u128> {
        self.stamps@
    }

    /// The list of stamps holds each key once and agrees with the model.
    pub closed spec fn wf(&self) -> bool {
        &&& forall|i: int, j: int|
            0 <= i < j < self.limits@.len() ==> self.limits@[i].0@ != self.limits@[j].0@
        &&& forall|i: int|
            0 <= i < self.limits@.len() ==> self.stamps@.contains_key(#[trigger] self.limits@[i].0@)
                && self.stamps@[self.limits@[i].0@] == self.limits@[i].1
        &&& forall|k: Seq<char>|
            #[trigger] self.stamps@.contains_key(k) ==> exists|i: int|
                0 <= i < self.limits@.len() && self.limits@[i].0@ == k
    }

    /// A limiter with the given cool-down, in seconds, under which no key has
    /// run yet.
    pub fn new(period_seconds: u64) -> (r: Self)
        ensures
            r.wf(),
            r.period() == period_seconds,
            r.stamps() == Map::<Seq<char>, u128>::empty(),
    {
        Ratelimiter {
            period_seconds,
            origin: clock_now(),
            limits: Vec::new(),
            stamps: Ghost(Map::empty()),
        }
    }

    /// Decides whether `key` may run at time `now`, in nanoseconds on this
    /// limiter's clock. When it may, its stamp becomes `now`; when it may not,
    /// nothing changes.
    pub fn trigger_at(&mut self, key: String, now: u128) -> (r: bool)
        requires
            old(self).wf(),
        ensures
            final(self).wf(),
            final(self).period() == old(self).period(),
            r == allows(old(self).stamps(), old(self).period(), key@, now),
            final(self).stamps() == after_trigger(old(self).stamps(), r, key@, now),
    {
        let limit: u128 = self.period_seconds as u128 * NANOS_PER_SECOND;
        let mut i: usize = 0;
        while i < self.limits.len()
            invariant
                self.wf(),
                self.stamps@ == old(self).stamps@,
                self.period_seconds == old(self).period_seconds,
                self.limits@ == old(self).limits@,
                limit == self.period_seconds * NANOS_PER_SECOND,
                i <= self.limits@.len(),
                forall|j: int| 0 <= j < i ==> self.limits@[j].0@ != key@,
            decreases self.limits@.len() - i,
        {
            if self.limits[i].0 == key {
                let then = self.limits[i].1;
                let passed: u128 = if now >= then {
                    now - then
                } else {
                    0
                };
                if passed > limit {
                    let ghost k = key@;
                    self.limits.set(i, (key, now));
                    proof {
                        self.stamps@ = self.stamps@.insert(k, now);
                        assert forall|k2: Seq<char>| #[trigger]
                            self.stamps@.contains_key(k2) implies exists|j: int|
                            0 <= j < self.limits@.len() && self.limits@[j].0@ == k2 by {
                            if k2 != k {
                                let j = choose|j: int|
                                    0 <= j < old(self).limits@.len() && old(self).limits@[j].0@ == k2;
                                assert(self.limits@[j].0@ == k2);
                            } else {
                                assert(self.limits@[i as int].0@ == k2);
                            }
                        }
                    }
                    return true;
                } else {
                    return false;
                }
            }
            i = i + 1;
        }
        proof {
            if self.stamps@.contains_key(key@) {
                let j = choose|j: int| 0 <= j < self.limits@.len() && self.limits@[j].0@ == key@;
                assert(false);
            }
        }
        let ghost k = key@;
        let ghost n = self.limits@.len();
        self.limits.push((key, now));
        proof {
            self.stamps@ = self.stamps@.insert(k, now);
            assert forall|k2: Seq<char>| #[trigger]
                self.stamps@.contains_key(k2) implies exists|j: int|
                0 <= j < self.limits@.len() && self.limits@[j].0@ == k2 by {
                if k2 != k {
                    let j = choose|j: int|
                        0 <= j < old(self).limits@.len() && old(self).limits@[j].0@ == k2;
                    assert(self.limits@[j].0@ == k2);
                } else {
                    assert(self.limits@[n as int].0@ == k2);
                }
            }
        }
        true
    }

    /// The time since this limiter was made, in nanoseconds: the clock that
    /// `trigger_at` takes its readings from.
    pub fn clock(&self) -> u128 {
        nanos_since(&self.origin)
    }

    /// Decides whether `key` may run now. The clock is read once; whatever it
    /// reads, the decision and the new stamps are those of `trigger_at` at
    /// that reading.
    pub fn trigger(&mut self, key: String) -> (r: bool)
        requires
            old(self).wf(),
        ensures
            final(self).wf(),
            final(self).period() == old(self).period(),
            exists|now: u128|
                r == allows(old(self).stamps(), old(self).period(), key@, now) && final(self).stamps()
                    == after_trigger(old(self).stamps(), r, key@, now),
    {
        let now = self.clock();
        self.trigger_at(key, now)
    }
}

/// A key that ran at time `t` may not run again until more than the period
/// has passed, may run once it has, and its run changes nothing for any other
/// key.
pub proof fn lemma_cooldown(
    stamps: Map<Seq<char>, u128>,
    period_seconds: u64,
    key: Seq<char>,
    other: Seq<char>,
    t: u128,
    later: u128,
)
    ensures
        t <= later <= t + period_seconds * NANOS_PER_SECOND ==> !allows(
            stamps.insert(key, t),
            period_seconds,
            key,
            later,
        ),
        later > t + period_seconds * NANOS_PER_SECOND ==> allows(
            stamps.insert(key, t),
            period_seconds,
            key,
            later,
        ),
        other != key ==> allows(stamps.insert(key, t), period_seconds, other, later) == allows(
            stamps,
            period_seconds,
            other,
            later,
        ),
{
}

} // verus!
