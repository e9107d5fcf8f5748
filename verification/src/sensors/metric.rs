//! The measurable quantities, and the reading that gathers what every provider offered.
//!
//! No provider appears here: adding a source never touches this file, unless it measures
//! a genuinely new quantity.

use vstd::prelude::*;

verus! {

/// A measurable quantity, whoever knows how to provide it.
#[derive(Debug, Clone, Copy, PartialEq, Eq, Structural, PartialOrd, Ord, Hash)]
pub enum Metric {
    /// CPU package temperature: the hottest core.
    CpuTempC,
    /// Power drawn by the CPU package.
    CpuPowerW,
    /// Frequency of the fastest core, in % of nominal. Above 100, turbo is engaged.
    CpuMaxCorePct,
    /// Average over all logical processors, in % of nominal.
    CpuAvgPerfPct,
    CpuUtilPct,
    CpuNominalMhz,
    /// Motherboard thermal zone. Indicative only: this is not the die.
    BoardTempC,
    GpuTempC,
    GpuPowerW,
    GpuClockMhz,
    GpuUtilPct,
}

/// Number of quantities the pipeline knows.
pub const METRIC_COUNT: usize = 11;

/// The unit in which a quantity is expressed.
pub open spec fn unit_of(m: Metric) -> Seq<char> {
    match m {
        Metric::CpuTempC | Metric::BoardTempC | Metric::GpuTempC => "°C"@,
        Metric::CpuPowerW | Metric::GpuPowerW => "W"@,
        Metric::CpuMaxCorePct | Metric::CpuAvgPerfPct | Metric::CpuUtilPct
        | Metric::GpuUtilPct => "%"@,
        Metric::CpuNominalMhz | Metric::GpuClockMhz => "MHz"@,
    }
}

/// Every quantity, in declaration order: the order in which readings list them.
pub open spec fn all_metrics() -> Seq<Metric> {
    seq![
        Metric::CpuTempC,
        Metric::CpuPowerW,
        Metric::CpuMaxCorePct,
        Metric::CpuAvgPerfPct,
        Metric::CpuUtilPct,
        Metric::CpuNominalMhz,
        Metric::BoardTempC,
        Metric::GpuTempC,
        Metric::GpuPowerW,
        Metric::GpuClockMhz,
        Metric::GpuUtilPct,
    ]
}

impl Metric {
    /// Rank of the quantity in declaration order.
    pub open spec fn index(self) -> int {
        match self {
            Metric::CpuTempC => 0,
            Metric::CpuPowerW => 1,
            Metric::CpuMaxCorePct => 2,
            Metric::CpuAvgPerfPct => 3,
            Metric::CpuUtilPct => 4,
            Metric::CpuNominalMhz => 5,
            Metric::BoardTempC => 6,
            Metric::GpuTempC => 7,
            Metric::GpuPowerW => 8,
            Metric::GpuClockMhz => 9,
            Metric::GpuUtilPct => 10,
        }
    }

    pub fn rank(self) -> (i: usize)
        ensures
            i == self.index(),
            i < METRIC_COUNT,
    {
        match self {
            Metric::CpuTempC => 0,
            Metric::CpuPowerW => 1,
            Metric::CpuMaxCorePct => 2,
            Metric::CpuAvgPerfPct => 3,
            Metric::CpuUtilPct => 4,
            Metric::CpuNominalMhz => 5,
            Metric::BoardTempC => 6,
            Metric::GpuTempC => 7,
            Metric::GpuPowerW => 8,
            Metric::GpuClockMhz => 9,
            Metric::GpuUtilPct => 10,
        }
    }

    /// Every quantity known to the pipeline, to tell what is measured from what is missing.
    pub fn all() -> (v: Vec<Metric>)
        ensures
            v@ == all_metrics(),
    {
        vec![
            Metric::CpuTempC,
            Metric::CpuPowerW,
            Metric::CpuMaxCorePct,
            Metric::CpuAvgPerfPct,
            Metric::CpuUtilPct,
            Metric::CpuNominalMhz,
            Metric::BoardTempC,
            Metric::GpuTempC,
            Metric::GpuPowerW,
            Metric::GpuClockMhz,
            Metric::GpuUtilPct,
        ]
    }

    pub fn unit(self) -> (u: &'static str)
        ensures
            u@ == unit_of(self),
    {
        match self {
            Metric::CpuTempC | Metric::BoardTempC | Metric::GpuTempC => "°C",
            Metric::CpuPowerW | Metric::GpuPowerW => "W",
            Metric::CpuMaxCorePct | Metric::CpuAvgPerfPct | Metric::CpuUtilPct
            | Metric::GpuUtilPct => "%",
            Metric::CpuNominalMhz | Metric::GpuClockMhz => "MHz",
        }
    }
}

/// A measured value, held as the IEEE-754 binary64 pattern that the sensors produced.
///
/// The library only routes and compares values; it never computes with them, so the
/// exact bit pattern is the faithful representation.
#[derive(Debug, Clone, Copy, PartialEq, Eq, Structural)]
pub struct Value {
    pub bits: u64,
}

/// Exponent field of a binary64 pattern.
pub open spec fn exponent(bits: u64) -> u64 {
    (bits >> 52u64) & 0x7ffu64
}

impl Value {
    pub fn from_bits(bits: u64) -> (v: Value)
        ensures
            v.bits == bits,
    {
        Value { bits }
    }

    /// Neither infinite nor NaN: the exponent field is not all ones.
    pub open spec fn finite(self) -> bool {
        exponent(self.bits) != 0x7ffu64
    }

    pub fn is_finite(&self) -> (b: bool)
        ensures
            b == self.finite(),
    {
        (self.bits >> 52u64) & 0x7ffu64 != 0x7ffu64
    }
}

/// A value, and the provider that produced it. Provenance goes all the way to the user
/// interface: one must be able to tell where a number comes from.
#[derive(Debug, Clone, Copy)]
pub struct Sample {
    pub value: Value,
    pub provider: &'static str,
}

/// What offering `value` for `metric` does to the measured values: the first finite
/// offer for a quantity is kept, and nothing ever replaces it.
pub open spec fn offered(
    values: Map<Metric, Sample>,
    metric: Metric,
    value: Value,
    provider: &'static str,
) -> Map<Metric, Sample> {
    if value.finite() && !values.contains_key(metric) {
        values.insert(metric, Sample { value, provider })
    } else {
        values
    }
}

/// The measured values after a whole cycle of offers, made in order.
pub open spec fn offered_all(
    values: Map<Metric, Sample>,
    offers: Seq<(Metric, Value, &'static str)>,
) -> Map<Metric, Sample>
    decreases offers.len(),
{
    if offers.len() == 0 {
        values
    } else {
        let last = offers.last();
        offered(offered_all(values, offers.drop_last()), last.0, last.1, last.2)
    }
}

/// The first finite offer made for `metric`, if any.
pub open spec fn first_finite(offers: Seq<(Metric, Value, &'static str)>, metric: Metric) -> Option<
    Sample,
>
    decreases offers.len(),
{
    if offers.len() == 0 {
        None
    } else {
        match first_finite(offers.drop_last(), metric) {
            Some(s) => Some(s),
            None => {
                let last = offers.last();
                if last.0 == metric && last.1.finite() {
                    Some(Sample { value: last.1, provider: last.2 })
                } else {
                    None
                }
            },
        }
    }
}

/// An offer never removes nor alters a value already measured.
pub proof fn law_offer_keeps_measured(
    values: Map<Metric, Sample>,
    metric: Metric,
    value: Value,
    provider: &'static str,
)
    ensures
        forall|m: Metric| #[trigger] values.contains_key(m) ==> offered(
            values,
            metric,
            value,
            provider,
        ).contains_key(m) && offered(values, metric, value, provider)[m] == values[m],
{
}

/// A value that is not finite is no measurement: offering it changes nothing.
pub proof fn law_non_finite_rejected(
    values: Map<Metric, Sample>,
    metric: Metric,
    value: Value,
    provider: &'static str,
)
    requires
        !value.finite(),
    ensures
        offered(values, metric, value, provider) == values,
{
}

/// The arbitration rule of the whole pipeline: after a cycle of offers made in registry
/// order, each quantity holds the first finite value offered for it, with its provider;
/// a provider that failed (offered a non-finite value) leaves the place to the next.
pub proof fn law_first_served_wins(
    values: Map<Metric, Sample>,
    offers: Seq<(Metric, Value, &'static str)>,
    metric: Metric,
)
    ensures
        offered_all(values, offers).contains_key(metric) == (values.contains_key(metric)
            || first_finite(offers, metric) is Some),
        values.contains_key(metric) ==> offered_all(values, offers)[metric] == values[metric],
        !values.contains_key(metric) && first_finite(offers, metric) is Some ==> offered_all(
            values,
            offers,
        )[metric] == first_finite(offers, metric)->0,
    decreases offers.len(),
{
    if offers.len() > 0 {
        law_first_served_wins(values, offers.drop_last(), metric);
    }
}

/// Every quantity measured in `after` was already measured in `before`, or is one of
/// `allowed`.
pub open spec fn only_adds(before: Map<Metric, Sample>, after: Map<Metric, Sample>, allowed: Seq<Metric>) -> bool {
    forall|m: Metric| #[trigger] after.contains_key(m) ==> before.contains_key(m) || allowed.contains(m)
}

/// A cycle of offers adds no quantity it does not name.
pub proof fn lemma_offers_only_add_what_they_name(
    values: Map<Metric, Sample>,
    offers: Seq<(Metric, Value, &'static str)>,
    allowed: Seq<Metric>,
)
    requires
        forall|j: int| 0 <= j < offers.len() ==> allowed.contains(#[trigger] offers[j].0),
    ensures
        only_adds(values, offered_all(values, offers), allowed),
    decreases offers.len(),
{
    if offers.len() > 0 {
        assert forall|j: int| 0 <= j < offers.drop_last().len() implies allowed.contains(
            #[trigger] offers.drop_last()[j].0,
        ) by {
            assert(offers.drop_last()[j] == offers[j]);
        }
        lemma_offers_only_add_what_they_name(values, offers.drop_last(), allowed);
        assert(allowed.contains(offers[offers.len() - 1].0));
    }
}

/// A copy of `slots` with position `i` replaced.
fn replaced(slots: &Vec<Option<Sample>>, i: usize, slot: Option<Sample>) -> (r: Vec<Option<Sample>>)
    requires
        i < slots.len(),
    ensures
        r@ == slots@.update(i as int, slot),
{
    let mut r: Vec<Option<Sample>> = Vec::new();
    let mut j: usize = 0;
    while j < slots.len()
        invariant
            j <= slots.len(),
            i < slots.len(),
            r@ == slots@.update(i as int, slot).take(j as int),
        decreases slots.len() - j,
    {
        if j == i {
            r.push(slot);
        } else {
            r.push(slots[j]);
        }
        assert(slots@.update(i as int, slot).take(j as int + 1) == slots@.update(i as int, slot).take(
            j as int,
        ).push(slots@.update(i as int, slot)[j as int]));
        j = j + 1;
    }
    assert(slots@.update(i as int, slot).take(slots.len() as int) == slots@.update(i as int, slot));
    r
}

/// The reading of one cycle: what the providers together managed to measure.
pub struct Reading {
    values: Vec<Option<Sample>>,
    cpu_name: Option<String>,
    ts_ms: u64,
}

impl Reading {
    #[verifier::type_invariant]
    spec fn well_formed(self) -> bool {
        &&& self.values.len() == METRIC_COUNT
        &&& forall|i: int|
            0 <= i < METRIC_COUNT && (#[trigger] self.values@[i]) is Some
                ==> self.values@[i]->0.value.finite()
    }

    /// Measured values, by quantity. Only finite values ever count as measured.
    pub closed spec fn measured(self) -> Map<Metric, Sample> {
        Map::new(
            |m: Metric| self.values@[m.index()] is Some && self.values@[m.index()]->0.value.finite(),
            |m: Metric| self.values@[m.index()]->0,
        )
    }

    /// Name of the processor, when a provider could read it.
    pub closed spec fn cpu(self) -> Option<String> {
        self.cpu_name
    }

    /// Time stamp of the cycle, in milliseconds since the Unix epoch.
    pub closed spec fn stamp(self) -> u64 {
        self.ts_ms
    }

    /// A reading where nothing is measured yet.
    pub fn new() -> (r: Reading)
        ensures
            r.measured() == Map::<Metric, Sample>::empty(),
            r.cpu() is None,
            r.stamp() == 0,
    {
        let mut values: Vec<Option<Sample>> = Vec::new();
        let mut i: usize = 0;
        while i < METRIC_COUNT
            invariant
                i <= METRIC_COUNT,
                values.len() == i,
                forall|j: int| 0 <= j < i ==> (#[trigger] values@[j]) is None,
            decreases METRIC_COUNT - i,
        {
            values.push(None);
            i = i + 1;
        }
        let r = Reading { values, cpu_name: None, ts_ms: 0 };
        assert(r.measured() =~= Map::<Metric, Sample>::empty());
        r
    }

    /// Offers a value: **the first provider served wins**.
    ///
    /// The registry is walked by decreasing priority, so a less reliable source can never
    /// overwrite a more reliable one that came before. A value that is not finite is no
    /// measurement, and leaves the place free for the next provider.
    pub fn offer(&mut self, metric: Metric, value: Value, provider: &'static str)
        ensures
            final(self).measured() == offered(old(self).measured(), metric, value, provider),
            final(self).cpu() == old(self).cpu(),
            final(self).stamp() == old(self).stamp(),
    {
        proof {
            use_type_invariant(&*self);
        }
        if !value.is_finite() {
            return;
        }
        let i = metric.rank();
        if self.values[i].is_none() {
            self.values = replaced(&self.values, i, Some(Sample { value, provider }));
        }
        proof {
            let old_values = old(self).measured();
            if !old_values.contains_key(metric) {
                assert(self.measured() =~= old_values.insert(
                    metric,
                    Sample { value, provider },
                ));
            } else {
                assert(self.measured() =~= old_values);
            }
        }
    }

    pub fn get(&self, metric: Metric) -> (v: Option<Value>)
        ensures
            v == (if self.measured().contains_key(metric) {
                Some(self.measured()[metric].value)
            } else {
                None::<Value>
            }),
    {
        proof {
            use_type_invariant(self);
        }
        match self.values[metric.rank()] {
            Some(s) => Some(s.value),
            None => None,
        }
    }

    /// The value and its provenance.
    pub fn sample(&self, metric: Metric) -> (s: Option<Sample>)
        ensures
            s == (if self.measured().contains_key(metric) {
                Some(self.measured()[metric])
            } else {
                None::<Sample>
            }),
    {
        proof {
            use_type_invariant(self);
        }
        self.values[metric.rank()]
    }

    pub fn has(&self, metric: Metric) -> (b: bool)
        ensures
            b == self.measured().contains_key(metric),
    {
        proof {
            use_type_invariant(self);
        }
        self.values[metric.rank()].is_some()
    }

    pub fn cpu_name(&self) -> (n: Option<String>)
        ensures
            n == self.cpu(),
    {
        self.cpu_name.clone()
    }

    /// Offers the processor name, with the same rule as the values: the first readable
    /// (non-empty) name is kept.
    pub fn offer_cpu_name(&mut self, name: String)
        ensures
            final(self).cpu() == (if name@.len() > 0 && old(self).cpu() is None {
                Some(name)
            } else {
                old(self).cpu()
            }),
            final(self).measured() == old(self).measured(),
            final(self).stamp() == old(self).stamp(),
    {
        proof {
            use_type_invariant(&*self);
        }
        if !name.as_str().is_empty() && self.cpu_name.is_none() {
            self.cpu_name = Some(name);
        }
    }

    pub fn ts_ms(&self) -> (t: u64)
        ensures
            t == self.stamp(),
    {
        self.ts_ms
    }

    pub fn set_ts_ms(&mut self, ts_ms: u64)
        ensures
            final(self).stamp() == ts_ms,
            final(self).measured() == old(self).measured(),
            final(self).cpu() == old(self).cpu(),
    {
        proof {
            use_type_invariant(&*self);
        }
        self.ts_ms = ts_ms;
    }
}

} // verus!
