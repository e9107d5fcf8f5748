//! The sampling cycle, and the state of the providers.
//!
//! A dedicated thread holds COM, the WMI connections and the providers; this module
//! decides, cycle after cycle, what that thread does with each provider: probe it again,
//! read it, or leave it alone.

use vstd::prelude::*;

use crate::sensors::provider::{ProbeState, ProbeStateView, ProviderInfo, ProviderInfoView, Sampled};

verus! {

/// Number of cycles between two attempts on a provider that is not established. It lets
/// a tool be plugged in while the application runs.
pub const REPROBE_EVERY: u32 = 5;

/// A provider, and how its last probe went.
pub struct ProviderStatus {
    pub info: ProviderInfo,
    pub state: ProbeState,
}

/// The status of every provider, in registry order.
pub fn publish_statuses(infos: &Vec<ProviderInfo>, slots: &Vec<Slot>) -> (v: Vec<ProviderStatus>)
    ensures
        v.len() == vstd::math::min(infos.len() as int, slots.len() as int),
        forall|i: int|
            0 <= i < v.len() ==> (#[trigger] v@[i]).info@ == infos@[i]@ && v@[i].state@
                == slots@[i].state()@,
{
    let n = if infos.len() < slots.len() { infos.len() } else { slots.len() };
    let mut v: Vec<ProviderStatus> = Vec::new();
    let mut i: usize = 0;
    while i < n
        invariant
            i <= n,
            n <= infos.len(),
            n <= slots.len(),
            v.len() == i,
            forall|k: int|
                0 <= k < i ==> (#[trigger] v@[k]).info@ == infos@[k]@ && v@[k].state@
                    == slots@[k].state()@,
        decreases n - i,
    {
        v.push(ProviderStatus { info: infos[i].duplicate(), state: slots[i].status() });
        i = i + 1;
    }
    v
}

/// The cycle counter.
pub struct Cycle {
    tick: u32,
}

/// Whether a cycle retries the providers that are not established.
pub open spec fn retries(tick: u32) -> bool {
    tick % REPROBE_EVERY == 0
}

impl Cycle {
    pub closed spec fn count(self) -> u32 {
        self.tick
    }

    pub fn new() -> (c: Cycle)
        ensures
            c.count() == 0,
    {
        Cycle { tick: 0 }
    }

    /// Starts a cycle, and tells whether it retries the providers not established.
    pub fn begin(&mut self) -> (retry: bool)
        ensures
            final(self).count() == (if old(self).count() == u32::MAX {
                0
            } else {
                (old(self).count() + 1) as u32
            }),
            retry == retries(final(self).count()),
    {
        self.tick = self.tick.wrapping_add(1);
        self.tick % REPROBE_EVERY == 0
    }
}

/// Within `REPROBE_EVERY` consecutive cycles that do not wrap the counter, exactly one
/// retries the providers not established.
pub proof fn law_one_retry_per_period(tick: u32)
    requires
        tick as int + REPROBE_EVERY <= u32::MAX,
    ensures
        retries((tick + REPROBE_EVERY) as u32) == retries(tick),
        exists|k: int| 1 <= k <= REPROBE_EVERY && #[trigger] retries((tick + k) as u32),
{
    let k = REPROBE_EVERY - tick % REPROBE_EVERY;
    assert(retries((tick + k) as u32));
}

/// What the sampling thread does next with a provider.
#[derive(Debug, Clone, Copy, PartialEq, Eq, Structural)]
pub enum Step {
    Probe,
    Sample,
    Done,
}

/// Where a provider stands within the current cycle.
#[derive(Debug, Clone, Copy, PartialEq, Eq, Structural)]
pub enum Phase {
    Idle,
    /// Being probed; `after_loss` when the probe follows a sample that found the source
    /// gone, in which case the provider is not read again this cycle.
    Probing { after_loss: bool },
    Sampling,
}

/// What a provider answered to the step it was asked for.
#[derive(Debug, Clone, Copy, PartialEq, Eq, Structural)]
pub enum Answer {
    /// A probe, and whether it established the source.
    Probed(bool),
    /// A read, and what it learned about the source.
    Sampled(Sampled),
}

/// Where a cycle opens for a provider, given whether it is established and whether the
/// cycle retries the others.
pub open spec fn opened(ready: bool, retry: bool) -> (Phase, Step) {
    if ready {
        (Phase::Sampling, Step::Sample)
    } else if retry {
        (Phase::Probing { after_loss: false }, Step::Probe)
    } else {
        (Phase::Idle, Step::Done)
    }
}

/// Where a provider goes after answering: one that comes up is read in the same cycle,
/// unless the probe followed its loss; one that is lost is probed again.
pub open spec fn advance(phase: Phase, answer: Answer) -> (Phase, Step) {
    match answer {
        Answer::Probed(ready) => if ready && phase == (Phase::Probing { after_loss: false }) {
            (Phase::Sampling, Step::Sample)
        } else {
            (Phase::Idle, Step::Done)
        },
        Answer::Sampled(outcome) => if outcome == Sampled::Lost {
            (Phase::Probing { after_loss: true }, Step::Probe)
        } else {
            (Phase::Idle, Step::Done)
        },
    }
}

/// Whether an answer is one to the step asked.
pub open spec fn answers(step: Step, answer: Answer) -> bool {
    ||| step == Step::Probe && answer is Probed
    ||| step == Step::Sample && answer is Sampled
}

/// Within one cycle, whatever the provider answers, it is read at most once, and the
/// cycle is over for it after at most three answers: the loop over the providers ends.
pub proof fn law_a_cycle_reads_a_provider_at_most_once(
    ready: bool,
    retry: bool,
    a1: Answer,
    a2: Answer,
    a3: Answer,
)
    ensures
        ({
            let (p0, s0) = opened(ready, retry);
            let (p1, s1) = advance(p0, a1);
            let (p2, s2) = advance(p1, a2);
            let (_p3, s3) = advance(p2, a3);
            let ok1 = answers(s0, a1);
            let ok2 = ok1 && answers(s1, a2);
            let ok3 = ok2 && answers(s2, a3);
            &&& ok3 ==> s3 == Step::Done
            &&& !(s0 == Step::Sample && ok1 && s1 == Step::Sample)
            &&& !(s0 == Step::Sample && ok2 && s2 == Step::Sample)
            &&& !(ok1 && s1 == Step::Sample && ok2 && s2 == Step::Sample)
        }),
{
}

/// One whole cycle for one provider, as `opened` and `advance` lead it: whether it is
/// established after the cycle, and whether it was read. `probe` is what a probe at the
/// opening would answer, `sample` what a read would learn, `reprobe` what the probe after
/// a loss would answer.
pub open spec fn cycle_effect(
    ready: bool,
    retry: bool,
    probe: bool,
    sample: Sampled,
    reprobe: bool,
) -> (bool, bool) {
    let (p0, s0) = opened(ready, retry);
    if s0 == Step::Done {
        (ready, false)
    } else if s0 == Step::Probe {
        let (p1, s1) = advance(p0, Answer::Probed(probe));
        if s1 == Step::Sample {
            let (_p2, s2) = advance(p1, Answer::Sampled(sample));
            if s2 == Step::Probe {
                (reprobe, true)
            } else {
                (probe, true)
            }
        } else {
            (probe, false)
        }
    } else {
        let (_p1, s1) = advance(p0, Answer::Sampled(sample));
        if s1 == Step::Probe {
            (reprobe, true)
        } else {
            (ready, true)
        }
    }
}

/// Cycle `tick` of a provider: it is probed again at the opening exactly when it is not
/// established and the cycle is a retry one, and it is read exactly when it is
/// established by then. Afterwards it is established as its last probe said.
pub proof fn law_each_cycle_probes_and_reads_as_documented(
    ready: bool,
    tick: u32,
    probe: bool,
    sample: Sampled,
    reprobe: bool,
)
    ensures
        (opened(ready, retries(tick)).1 == Step::Probe) == (!ready && tick % REPROBE_EVERY == 0),
        cycle_effect(ready, retries(tick), probe, sample, reprobe).1 == (ready || (retries(tick)
            && probe)),
        sample == Sampled::Answered ==> cycle_effect(ready, retries(tick), probe, sample, reprobe).0
            == (ready || (retries(tick) && probe)),
{
}

/// A source found lost stops counting as established until a probe says otherwise: when
/// the probe that follows the loss fails, the next cycles read it only if they retry it
/// and the retry establishes it.
pub proof fn law_a_lost_source_is_not_read_until_probed_again(
    retry: bool,
    probe: bool,
    reprobe: bool,
    next_retry: bool,
    next_probe: bool,
    next_sample: Sampled,
    next_reprobe: bool,
)
    ensures
        cycle_effect(true, retry, probe, Sampled::Lost, reprobe) == (reprobe, true),
        !reprobe ==> cycle_effect(reprobe, next_retry, next_probe, next_sample, next_reprobe).1
            == (next_retry && next_probe),
{
}

/// A provider's state as the sampling thread tracks it.
pub struct Slot {
    state: ProbeState,
    phase: Phase,
}

impl Slot {
    pub closed spec fn state(self) -> ProbeState {
        self.state
    }

    pub closed spec fn phase(self) -> Phase {
        self.phase
    }

    /// A slot established by the first probe of the provider.
    pub fn new(initial: ProbeState) -> (s: Slot)
        ensures
            s.state() == initial,
            s.phase() == Phase::Idle,
    {
        Slot { state: initial, phase: Phase::Idle }
    }

    pub fn status(&self) -> (p: ProbeState)
        ensures
            p@ == self.state()@,
    {
        self.state.duplicate()
    }

    pub fn is_ready(&self) -> (b: bool)
        ensures
            b == self.state().ready(),
    {
        self.state.is_ready()
    }

    /// Opens the cycle for this provider: an established provider is read; one that is
    /// not is probed again on retry cycles, and otherwise left alone.
    pub fn start(&mut self, retry: bool) -> (step: Step)
        ensures
            final(self).state() == old(self).state(),
            (final(self).phase(), step) == opened(old(self).state().ready(), retry),
    {
        if self.state.is_ready() {
            self.phase = Phase::Sampling;
            Step::Sample
        } else if retry {
            self.phase = Phase::Probing { after_loss: false };
            Step::Probe
        } else {
            self.phase = Phase::Idle;
            Step::Done
        }
    }

    /// Records a fresh probe. A provider that comes up is read in the same cycle —
    /// unless the probe followed its loss. `changed` says whether its readiness flipped,
    /// which is when the published statuses must be refreshed.
    pub fn probed(&mut self, fresh: ProbeState) -> (r: (Step, bool))
        ensures
            final(self).state() == fresh,
            r.1 == (fresh.ready() != old(self).state().ready()),
            (final(self).phase(), r.0) == advance(old(self).phase(), Answer::Probed(fresh.ready())),
    {
        let changed = fresh.is_ready() != self.state.is_ready();
        let again = fresh.is_ready() && self.phase == (Phase::Probing { after_loss: false });
        self.state = fresh;
        if again {
            self.phase = Phase::Sampling;
            (Step::Sample, changed)
        } else {
            self.phase = Phase::Idle;
            (Step::Done, changed)
        }
    }

    /// Records what a read learned about the source. A source that no longer answers is
    /// probed again at once, so that it stops counting as established.
    pub fn sampled(&mut self, outcome: Sampled) -> (step: Step)
        ensures
            final(self).state() == old(self).state(),
            (final(self).phase(), step) == advance(old(self).phase(), Answer::Sampled(outcome)),
    {
        match outcome {
            Sampled::Lost => {
                self.phase = Phase::Probing { after_loss: true };
                Step::Probe
            },
            Sampled::Answered => {
                self.phase = Phase::Idle;
                Step::Done
            },
        }
    }
}

} // verus!
