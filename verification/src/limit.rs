//! Global rate limiting: at most a fixed number of requests per fixed time
//! window, across the whole service.

use vstd::prelude::*;

verus! {

/// Nanoseconds in a second.
pub const NANOS_PER_SECOND: u128 = 1_000_000_000;

/// What a rate limiter holds, as mathematical values. Times are in
/// nanoseconds on a clock that does not go back.
pub ghost struct LimiterState {
    /// How many requests a window admits.
    pub quota: nat,
    /// How long a window lasts.
    pub window: nat,
    /// When the current window ends; a request at or after it opens a new one.
    pub window_end: nat,
    /// How many more requests the current window admits.
    pub remaining: nat,
}

impl LimiterState {
    /// A window never has more room left than the quota.
    pub open spec fn wf(self) -> bool {
        self.remaining <= self.quota
    }

    /// The limiter before its first request.
    pub open spec fn fresh(quota: nat, window: nat) -> LimiterState {
        LimiterState { quota, window, window_end: 0, remaining: quota }
    }

    /// The state in which a request at `now` is decided: a request at or
    /// after the end of the window opens a new window that starts with it.
    pub open spec fn opened(self, now: nat) -> LimiterState {
        if now >= self.window_end {
            LimiterState { window_end: now + self.window, remaining: self.quota, ..self }
        } else {
            self
        }
    }

    /// Whether a request at `now` is admitted.
    pub open spec fn admits(self, now: nat) -> bool {
        self.opened(now).remaining > 0
    }

    /// The state after a request at `now`: an admitted request uses up one
    /// place of its window, a rejected one none.
    pub open spec fn after(self, now: nat) -> LimiterState {
        let opened = self.opened(now);
        if opened.remaining > 0 {
            LimiterState { remaining: (opened.remaining - 1) as nat, ..opened }
        } else {
            opened
        }
    }

    /// How many of the requests at `times`, in this order, are admitted.
    pub open spec fn admitted(self, times: Seq<nat>) -> nat
        decreases times.len(),
    {
        if times.len() == 0 {
            0
        } else {
            (if self.admits(times[0]) {
                1nat
            } else {
                0nat
            }) + self.after(times[0]).admitted(times.drop_first())
        }
    }

    /// The current window ends among the requests, after at least one of
    /// them, and has room for all that come before its end. These then use
    /// the old window and the others a new one.
    pub open spec fn straddled_by(self, times: Seq<nat>) -> bool {
        let early = leading_below(times, self.window_end);
        0 < early < times.len() && early <= self.remaining
    }
}

/// Whether the times never go back.
pub open spec fn nondecreasing(times: Seq<nat>) -> bool {
    forall|i: int, j: int| 0 <= i <= j < times.len() ==> times[i] <= times[j]
}

/// Whether any two of the times are less than `span` apart.
pub open spec fn within(times: Seq<nat>, span: nat) -> bool {
    forall|i: int, j: int| 0 <= i <= j < times.len() ==> times[j] - times[i] < span
}

/// How many times stand at the front of `times` below `bound`.
pub open spec fn leading_below(times: Seq<nat>, bound: nat) -> nat
    decreases times.len(),
{
    if times.len() == 0 || times[0] >= bound {
        0
    } else {
        1 + leading_below(times.drop_first(), bound)
    }
}

/// The smaller of two numbers.
pub open spec fn least(a: nat, b: nat) -> nat {
    if a <= b {
        a
    } else {
        b
    }
}

proof fn lemma_leading_bounds(times: Seq<nat>, bound: nat)
    ensures
        leading_below(times, bound) <= times.len(),
        (forall|i: int| 0 <= i < times.len() ==> times[i] < bound) ==> leading_below(times, bound)
            == times.len(),
    decreases times.len(),
{
    if times.len() > 0 && times[0] < bound {
        let rest = times.drop_first();
        lemma_leading_bounds(rest, bound);
        if forall|i: int| 0 <= i < times.len() ==> times[i] < bound {
            assert forall|i: int| 0 <= i < rest.len() implies rest[i] < bound by {
                assert(rest[i] == times[i + 1]);
            }
        }
    } else if times.len() > 0 {
        assert(!(times[0] < bound));
    }
}

proof fn lemma_rest_keeps_order(times: Seq<nat>, span: nat)
    requires
        times.len() > 0,
        nondecreasing(times),
        within(times, span),
    ensures
        nondecreasing(times.drop_first()),
        within(times.drop_first(), span),
        forall|i: int|
            0 <= i < times.drop_first().len() ==> times[0] <= #[trigger] times.drop_first()[i]
                < times[0] + span,
{
    let rest = times.drop_first();
    assert forall|i: int, j: int| 0 <= i <= j < rest.len() implies rest[i] <= rest[j] && rest[j]
        - rest[i] < span by {
        assert(rest[i] == times[i + 1] && rest[j] == times[j + 1]);
    }
    assert forall|i: int| 0 <= i < rest.len() implies times[0] <= #[trigger] rest[i] < times[0]
        + span by {
        assert(rest[i] == times[i + 1]);
        assert(times[i + 1] - times[0] < span);
    }
}

/// How many requests are admitted when the times never go back and lie
/// less than a window apart: those before the end of the current window as
/// far as it has room, and those from its end on as far as the quota goes.
pub proof fn lemma_admitted_count(s: LimiterState, times: Seq<nat>)
    requires
        nondecreasing(times),
        within(times, s.window),
    ensures
        ({
            let early = leading_below(times, s.window_end);
            s.admitted(times) == least(early, s.remaining) + least(
                (times.len() - early) as nat,
                s.quota,
            )
        }),
        leading_below(times, s.window_end) <= times.len(),
    decreases times.len(),
{
    lemma_leading_bounds(times, s.window_end);
    if times.len() > 0 {
        let rest = times.drop_first();
        let next = s.after(times[0]);
        lemma_rest_keeps_order(times, s.window);
        lemma_admitted_count(next, rest);
        lemma_leading_bounds(rest, next.window_end);
        if times[0] >= s.window_end {
            assert(next.window_end == times[0] + s.window);
            assert(leading_below(rest, next.window_end) == rest.len());
        }
    }
}

/// Of one more request than the quota, made within less than a window, at
/// least one is rejected, unless the current window ends among them and
/// hands the later ones a new window; then all are admitted. A limiter that
/// has not seen a request yet always rejects one.
pub proof fn lemma_quota_enforced(s: LimiterState, times: Seq<nat>)
    requires
        s.wf(),
        times.len() == s.quota + 1,
        nondecreasing(times),
        within(times, s.window),
    ensures
        s.admitted(times) <= s.quota <==> !s.straddled_by(times),
        s.straddled_by(times) ==> s.admitted(times) == times.len(),
        s.window_end == 0 ==> !s.straddled_by(times),
{
    lemma_admitted_count(s, times);
    lemma_leading_bounds(times, s.window_end);
}

/// The rate limiter of the service: a counter for the current window and
/// the time at which that window ends.
pub struct RateLimiter {
    quota: u64,
    window: u128,
    window_end: u128,
    remaining: u64,
}

impl View for RateLimiter {
    type V = LimiterState;

    closed spec fn view(&self) -> LimiterState {
        LimiterState {
            quota: self.quota as nat,
            window: self.window as nat,
            window_end: self.window_end as nat,
            remaining: self.remaining as nat,
        }
    }
}

impl RateLimiter {
    #[verifier::type_invariant]
    spec fn inv(self) -> bool {
        &&& self.remaining <= self.quota
        &&& self.window <= u64::MAX * NANOS_PER_SECOND
        &&& self.window_end <= u64::MAX + self.window
    }

    /// A limiter that admits `quota` requests per window of `per_seconds`
    /// seconds and has not seen a request yet.
    pub fn new(quota: u64, per_seconds: u64) -> (limiter: RateLimiter)
        ensures
            limiter@ == LimiterState::fresh(quota as nat, per_seconds as nat * NANOS_PER_SECOND as nat),
            limiter@.wf(),
    {
        assert(per_seconds * NANOS_PER_SECOND <= u64::MAX * NANOS_PER_SECOND) by (nonlinear_arith)
            requires
                per_seconds <= u64::MAX,
        ;
        RateLimiter {
            quota,
            window: per_seconds as u128 * NANOS_PER_SECOND,
            window_end: 0,
            remaining: quota,
        }
    }

    /// Decides on a request that arrives `now` nanoseconds after the clock
    /// of the service started.
    pub fn allow(&mut self, now: u64) -> (admitted: bool)
        ensures
            admitted == old(self)@.admits(now as nat),
            final(self)@ == old(self)@.after(now as nat),
            old(self)@.wf() && final(self)@.wf(),
    {
        proof {
            use_type_invariant(&*self);
        }
        if now as u128 >= self.window_end {
            self.window_end = now as u128 + self.window;
            self.remaining = self.quota;
        }
        if self.remaining > 0 {
            self.remaining = self.remaining - 1;
            true
        } else {
            false
        }
    }

    /// How many requests a window admits.
    pub fn quota(&self) -> (quota: u64)
        ensures
            quota == self@.quota,
    {
        self.quota
    }

    /// How many more requests the current window admits.
    pub fn remaining(&self) -> (remaining: u64)
        ensures
            remaining == self@.remaining,
    {
        self.remaining
    }
}

} // verus!
