use vstd::prelude::*;

verus! {

/// Nanoseconds in one second.
pub const NANOS_PER_SEC: u64 = 1_000_000_000;

/// A cooldown that accumulates frame time, in nanoseconds, and fires once the
/// accumulated time exceeds its period. Firing resets the accumulated time to
/// zero.
#[derive(Clone, Copy, Debug, PartialEq, Eq, Structural)]
pub struct Timer {
    /// Time accumulated since the timer last fired.
    pub time: u64,
    /// The period: the timer fires once `time` is strictly greater.
    pub delay: u64,
}

impl Timer {
    /// The accumulated time never passes the period: every advance either
    /// resets it or leaves it at most at the period.
    pub open spec fn wf(&self) -> bool {
        self.time <= self.delay
    }

    /// Whether advancing by `delta` fires the timer.
    pub open spec fn fires(&self, delta: u64) -> bool {
        self.time + delta > self.delay
    }

    /// The timer after one advance by `delta`, and whether it fired.
    pub open spec fn step(&self, delta: u64) -> (Timer, bool) {
        if self.fires(delta) {
            (Timer { time: 0, delay: self.delay }, true)
        } else {
            (Timer { time: (self.time + delta) as u64, delay: self.delay }, false)
        }
    }

    /// A timer with the given period and nothing accumulated.
    pub fn new(delay: u64) -> (r: Timer)
        ensures
            r == (Timer { time: 0, delay }),
            r.wf(),
    {
        Timer { time: 0, delay }
    }

    /// Advances the timer by one frame's `delta`; returns whether it fired.
    pub fn ready(&mut self, delta: u64) -> (r: bool)
        requires
            old(self).wf(),
        ensures
            (*final(self), r) == old(self).step(delta),
            final(self).wf(),
    {
        // `time <= delay`, so `time + delta > delay` is `delta > delay - time`
        if delta > self.delay - self.time {
            self.time = 0;
            true
        } else {
            self.time = self.time + delta;
            false
        }
    }
}

/// The sum of a sequence of frame deltas.
pub open spec fn total(ds: Seq<u64>) -> int
    decreases ds.len(),
{
    if ds.len() == 0 {
        0
    } else {
        total(ds.drop_last()) + ds.last()
    }
}

/// The timer after advancing by each delta of `ds` in turn, and how many times
/// it fired.
pub open spec fn run(t: Timer, ds: Seq<u64>) -> (Timer, nat)
    decreases ds.len(),
{
    if ds.len() == 0 {
        (t, 0)
    } else {
        let (t1, n) = run(t, ds.drop_last());
        let (t2, fired) = t1.step(ds.last());
        (t2, if fired { n + 1 } else { n })
    }
}

proof fn lemma_run_accounts(t: Timer, ds: Seq<u64>)
    requires
        t.wf(),
    ensures
        run(t, ds).0.wf(),
        run(t, ds).0.delay == t.delay,
        run(t, ds).1 * (t.delay + 1) + run(t, ds).0.time <= t.time + total(ds),
    decreases ds.len(),
{
    if ds.len() > 0 {
        lemma_run_accounts(t, ds.drop_last());
        let (t1, n) = run(t, ds.drop_last());
        let d = t.delay + 1;
        assert((n + 1) * d == n * d + d) by (nonlinear_arith);
    }
}

/// Each firing consumes more than one period of accumulated time, so over any
/// sequence of deltas summing to `S`, a fresh timer with period `P > 0` fires
/// at most `S / P` times (rounded down).
pub proof fn lemma_fires_at_most(delay: u64, ds: Seq<u64>)
    requires
        delay > 0,
    ensures
        run(Timer { time: 0, delay }, ds).1 <= total(ds) / (delay as int),
{
    let t = Timer { time: 0, delay };
    lemma_run_accounts(t, ds);
    let n = run(t, ds).1;
    let s = total(ds);
    let p = delay as int;
    assert(n * p <= n * (p + 1)) by (nonlinear_arith)
        requires
            n >= 0,
            p > 0,
    ;
    assert(n * p <= s);
    vstd::arithmetic::div_mod::lemma_div_is_ordered(n * p, s, p);
    vstd::arithmetic::div_mod::lemma_div_multiples_vanish(n as int, p);
}

proof fn lemma_total_nonneg(ds: Seq<u64>)
    ensures
        total(ds) >= 0,
    decreases ds.len(),
{
    if ds.len() > 0 {
        lemma_total_nonneg(ds.drop_last());
    }
}

/// Advancing by deltas whose sum the timer does not pass fires nothing and
/// accumulates the sum.
proof fn lemma_run_quiet(t: Timer, ds: Seq<u64>)
    requires
        t.wf(),
        t.time + total(ds) <= t.delay,
    ensures
        run(t, ds) == (Timer { time: (t.time + total(ds)) as u64, delay: t.delay }, 0nat),
    decreases ds.len(),
{
    if ds.len() > 0 {
        lemma_total_nonneg(ds.drop_last());
        lemma_run_quiet(t, ds.drop_last());
    }
}

/// Time accumulates additively, however it is chunked: where the timer does
/// not fire before the last of a sequence of deltas, advancing by each in turn
/// ends exactly as one advance by their sum does, with the same number of
/// firings.
pub proof fn lemma_chunks_accumulate(t: Timer, ds: Seq<u64>)
    requires
        t.wf(),
        ds.len() > 0,
        t.time + total(ds.drop_last()) <= t.delay,
        total(ds) <= u64::MAX,
    ensures
        run(t, ds) == run(t, seq![total(ds) as u64]),
{
    lemma_total_nonneg(ds.drop_last());
    lemma_run_quiet(t, ds.drop_last());
    let one = seq![total(ds) as u64];
    assert(one.drop_last() =~= Seq::<u64>::empty());
    assert(run(t, Seq::<u64>::empty()) == (t, 0nat));
}

} // verus!
