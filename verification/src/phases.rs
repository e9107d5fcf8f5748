//! Accumulation by throttling phase.
//!
//! The accumulator lives with the sampling thread and not in the interface, because the
//! intended use is precisely the one where the interface does not run: the cap is toggled
//! during a game, panel hidden. One tick measured, one tick counted.
//!
//! This module keeps what decides the comparison: which phase a reading goes to, how
//! many cycles each phase lasted, and how many samples of each tracked quantity it got.

use vstd::prelude::*;

use crate::sensors::metric::{Metric, Reading};

verus! {

/// Number of quantities kept in the comparison.
pub const TRACKED_COUNT: usize = 5;

/// The quantities kept in the comparison. The others are measured and shown live, but
/// their average says nothing of the effect of the cap.
pub open spec fn tracked_metrics() -> Seq<Metric> {
    seq![
        Metric::CpuMaxCorePct,
        Metric::CpuTempC,
        Metric::CpuPowerW,
        Metric::GpuTempC,
        Metric::GpuPowerW,
    ]
}

pub fn kept() -> (v: Vec<Metric>)
    ensures
        v@ == tracked_metrics(),
{
    vec![
        Metric::CpuMaxCorePct,
        Metric::CpuTempC,
        Metric::CpuPowerW,
        Metric::GpuTempC,
        Metric::GpuPowerW,
    ]
}

/// Seconds of measure for `ticks` cycles of `period_ms` milliseconds, rounded to the
/// nearest second (halves away from zero), and bounded by what a `u64` holds.
pub open spec fn seconds_of(ticks: nat, period_ms: nat) -> nat {
    let s = (ticks * period_ms + 500) / 1000;
    if s > u64::MAX {
        u64::MAX as nat
    } else {
        s
    }
}

/// One phase: its cycles, and per tracked quantity the number of samples it received.
pub struct Tally {
    ticks: u64,
    counts: Vec<u64>,
}

impl Tally {
    pub closed spec fn well_formed(self) -> bool {
        self.counts.len() == TRACKED_COUNT
    }

    pub closed spec fn cycles(self) -> nat {
        self.ticks as nat
    }

    /// Samples of the `k`-th tracked quantity.
    pub closed spec fn samples(self, k: int) -> nat {
        self.counts@[k] as nat
    }

    fn empty() -> (t: Tally)
        ensures
            t.well_formed(),
            t.cycles() == 0,
            forall|k: int| 0 <= k < TRACKED_COUNT ==> t.samples(k) == 0,
            t.has_room(),
    {
        let mut counts: Vec<u64> = Vec::new();
        let mut i: usize = 0;
        while i < TRACKED_COUNT
            invariant
                i <= TRACKED_COUNT,
                counts.len() == i,
                forall|k: int| 0 <= k < i ==> counts@[k] == 0,
            decreases TRACKED_COUNT - i,
        {
            counts.push(0);
            i = i + 1;
        }
        Tally { ticks: 0, counts }
    }

    /// Room for one more cycle and one more sample of every quantity.
    pub closed spec fn has_room(self) -> bool {
        self.ticks < u64::MAX && forall|k: int| 0 <= k < TRACKED_COUNT ==> self.counts@[k] < u64::MAX
    }

    fn room(&self) -> (b: bool)
        requires
            self.well_formed(),
        ensures
            b == self.has_room(),
    {
        if self.ticks == u64::MAX {
            return false;
        }
        let mut i: usize = 0;
        while i < TRACKED_COUNT
            invariant
                i <= TRACKED_COUNT,
                self.counts.len() == TRACKED_COUNT,
                forall|k: int| 0 <= k < i ==> self.counts@[k] < u64::MAX,
            decreases TRACKED_COUNT - i,
        {
            if self.counts[i] == u64::MAX {
                return false;
            }
            i = i + 1;
        }
        true
    }

    fn push(&mut self, reading: &Reading)
        requires
            old(self).well_formed(),
            old(self).has_room(),
        ensures
            final(self).well_formed(),
            final(self).cycles() == old(self).cycles() + 1,
            forall|k: int|
                0 <= k < TRACKED_COUNT ==> final(self).samples(k) == old(self).samples(k) + (
                if reading.measured().contains_key(tracked_metrics()[k]) {
                    1int
                } else {
                    0int
                }),
    {
        let metrics = kept();
        self.ticks = self.ticks + 1;
        let mut counts: Vec<u64> = Vec::new();
        let mut i: usize = 0;
        while i < TRACKED_COUNT
            invariant
                i <= TRACKED_COUNT,
                metrics@ == tracked_metrics(),
                self.counts.len() == TRACKED_COUNT,
                forall|k: int| 0 <= k < TRACKED_COUNT ==> self.counts@[k] < u64::MAX,
                counts.len() == i,
                forall|k: int|
                    0 <= k < i ==> counts@[k] == self.counts@[k] + (if reading.measured().contains_key(
                        tracked_metrics()[k],
                    ) {
                        1int
                    } else {
                        0int
                    }),
            decreases TRACKED_COUNT - i,
        {
            let c = self.counts[i];
            if reading.has(metrics[i]) {
                counts.push(c + 1);
            } else {
                counts.push(c);
            }
            i = i + 1;
        }
        self.counts = counts;
    }
}

/// Two tallies, one per state of the cap, and the flag that says which one is fed.
pub struct PhaseRecorder {
    optimized: bool,
    on: Tally,
    off: Tally,
    period_ms: u64,
}

impl PhaseRecorder {
    pub closed spec fn well_formed(self) -> bool {
        self.on.well_formed() && self.off.well_formed()
    }

    /// The phase the next readings go to.
    pub closed spec fn routed_to_optimized(self) -> bool {
        self.optimized
    }

    pub closed spec fn period(self) -> nat {
        self.period_ms as nat
    }

    /// Cycles recorded in the optimized phase (`true`) or the free one (`false`).
    pub closed spec fn cycles(self, optimized: bool) -> nat {
        if optimized {
            self.on.cycles()
        } else {
            self.off.cycles()
        }
    }

    /// Samples of the `k`-th tracked quantity in a phase.
    pub closed spec fn samples(self, optimized: bool, k: int) -> nat {
        if optimized {
            self.on.samples(k)
        } else {
            self.off.samples(k)
        }
    }

    pub closed spec fn has_room(self) -> bool {
        if self.optimized {
            self.on.has_room()
        } else {
            self.off.has_room()
        }
    }

    /// The active phase has room exactly when its cycle counter and each of its sample
    /// counters can still grow.
    pub proof fn lemma_room(self)
        requires
            self.well_formed(),
        ensures
            self.has_room() == (self.cycles(self.routed_to_optimized()) < u64::MAX && forall|k: int|
                0 <= k < TRACKED_COUNT ==> #[trigger] self.samples(self.routed_to_optimized(), k)
                    < u64::MAX),
    {
        let o = self.routed_to_optimized();
        let t = if o { self.on } else { self.off };
        assert forall|k: int| 0 <= k < TRACKED_COUNT implies #[trigger] self.samples(o, k)
            == t.counts@[k] as nat by {}
        assert(self.has_room() == t.has_room());
        assert(self.cycles(o) == t.ticks as nat);
        if t.has_room() {
            assert forall|k: int| 0 <= k < TRACKED_COUNT implies #[trigger] self.samples(o, k)
                < u64::MAX by {
                assert(t.counts@[k] < u64::MAX);
            }
        }
        if self.cycles(o) < u64::MAX && forall|k: int|
            0 <= k < TRACKED_COUNT ==> #[trigger] self.samples(o, k) < u64::MAX {
            assert forall|k: int| 0 <= k < TRACKED_COUNT implies t.counts@[k] < u64::MAX by {
                assert(self.samples(o, k) < u64::MAX);
            }
        }
    }

    /// A recorder for a sampling period of `period_ms` milliseconds, routing to the free
    /// phase until told otherwise.
    pub fn new(period_ms: u64) -> (r: PhaseRecorder)
        ensures
            r.well_formed(),
            r.has_room(),
            r.period() == period_ms,
            !r.routed_to_optimized(),
            forall|o: bool| #[trigger] r.cycles(o) == 0,
            forall|o: bool, k: int| 0 <= k < TRACKED_COUNT ==> #[trigger] r.samples(o, k) == 0,
    {
        PhaseRecorder { optimized: false, on: Tally::empty(), off: Tally::empty(), period_ms }
    }

    /// Routes the next readings to one phase or the other. Called at start-up, on every
    /// toggle, and on every reread of the power state — the scheme can also change from
    /// Windows, without going through the application.
    pub fn set_optimized(&mut self, on: bool)
        requires
            old(self).well_formed(),
        ensures
            final(self).well_formed(),
            final(self).routed_to_optimized() == on,
            final(self).period() == old(self).period(),
            forall|o: bool| #[trigger] final(self).cycles(o) == old(self).cycles(o),
            forall|o: bool, k: int| #[trigger] final(self).samples(o, k) == old(self).samples(o, k),
    {
        self.optimized = on;
    }

    pub fn is_optimized(&self) -> (b: bool)
        ensures
            b == self.routed_to_optimized(),
    {
        self.optimized
    }

    /// The active phase can take one more reading without its counters overflowing.
    pub fn room(&self) -> (b: bool)
        requires
            self.well_formed(),
        ensures
            b == self.has_room(),
    {
        if self.optimized {
            self.on.room()
        } else {
            self.off.room()
        }
    }

    /// Counts a reading in the active phase, and says which phase that was (`true` for
    /// the optimized one). The other phase is left untouched.
    pub fn record(&mut self, reading: &Reading) -> (optimized: bool)
        requires
            old(self).well_formed(),
            old(self).has_room(),
        ensures
            final(self).well_formed(),
            optimized == old(self).routed_to_optimized(),
            final(self).routed_to_optimized() == old(self).routed_to_optimized(),
            final(self).period() == old(self).period(),
            final(self).cycles(optimized) == old(self).cycles(optimized) + 1,
            forall|o: bool| o != optimized ==> #[trigger] final(self).cycles(o) == old(self).cycles(o),
            forall|k: int|
                0 <= k < TRACKED_COUNT ==> #[trigger] final(self).samples(optimized, k) == old(
                    self,
                ).samples(optimized, k) + (if reading.measured().contains_key(tracked_metrics()[k]) {
                    1int
                } else {
                    0int
                }),
            forall|o: bool, k: int| o != optimized ==> #[trigger] final(self).samples(o, k) == old(
                self,
            ).samples(o, k),
    {
        if self.optimized {
            self.on.push(reading);
        } else {
            self.off.push(reading);
        }
        self.optimized
    }

    /// Clears both phases; the routing is kept.
    pub fn reset(&mut self)
        requires
            old(self).well_formed(),
        ensures
            final(self).well_formed(),
            final(self).has_room(),
            final(self).routed_to_optimized() == old(self).routed_to_optimized(),
            final(self).period() == old(self).period(),
            forall|o: bool| #[trigger] final(self).cycles(o) == 0,
            forall|o: bool, k: int| 0 <= k < TRACKED_COUNT ==> #[trigger] final(self).samples(o, k) == 0,
    {
        self.on = Tally::empty();
        self.off = Tally::empty();
    }

    /// Duration spent in a phase, in seconds of effective measure.
    pub fn seconds(&self, optimized: bool) -> (s: u64)
        ensures
            s == seconds_of(self.cycles(optimized), self.period()),
    {
        let ticks: u128 = if optimized { self.on.ticks as u128 } else { self.off.ticks as u128 };
        let period = self.period_ms as u128;
        assert(ticks * period <= 0xffff_ffff_ffff_ffffu128 * 0xffff_ffff_ffff_ffffu128) by (nonlinear_arith)
            requires
                ticks <= 0xffff_ffff_ffff_ffffu128,
                period <= 0xffff_ffff_ffff_ffffu128,
        ;
        let s = (ticks * period + 500) / 1000;
        if s > u64::MAX as u128 {
            u64::MAX
        } else {
            s as u64
        }
    }

    /// Samples of the `k`-th tracked quantity in a phase. A quantity nobody measured has
    /// none, and no statistics.
    pub fn count(&self, optimized: bool, k: usize) -> (n: u64)
        requires
            self.well_formed(),
            k < TRACKED_COUNT,
        ensures
            n == self.samples(optimized, k as int),
    {
        if optimized {
            self.on.counts[k]
        } else {
            self.off.counts[k]
        }
    }
}

} // verus!
