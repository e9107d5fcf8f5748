//! Windows performance counters driver — CPU frequency and load.
//!
//! The only source available everywhere: no driver to install, no privilege, no
//! third-party tool. And the decisive source, since `PercentProcessorPerformance` gives
//! the frequency in percent of nominal: above 100, turbo is engaged.
//!
//! The **maximum over cores** is kept, not the `_Total` average, which mixes all logical
//! processors, stays near 50 at idle and only crosses 100 in bursts.

use vstd::prelude::*;

use crate::sensors::metric::{
    lemma_offers_only_add_what_they_name, offered, offered_all, only_adds, Metric, Reading, Sample,
    Value,
};
use crate::sensors::wmi_context::{column_or_empty, column_text};
use crate::sensors::provider::{ProbeState, ProbeStateView, ProviderInfo, ProviderKind};
use crate::text::{concat, has_part, str_contains};

verus! {

pub const ID: &'static str = "perf-counters";

pub const NAMESPACE: &'static str = "root\\cimv2";

pub const QUERY: &'static str = "SELECT Name, PercentProcessorPerformance, PercentProcessorTime, ProcessorFrequency FROM Win32_PerfFormattedData_Counters_ProcessorInformation";

/// One instance of the processor counters, its columns decoded; a column missing or of
/// an unexpected type is `None`.
pub struct CounterRow {
    pub name: Option<String>,
    /// `PercentProcessorPerformance`: frequency in percent of nominal.
    pub performance: Option<Value>,
    /// `PercentProcessorTime`: load.
    pub time: Option<Value>,
    /// `ProcessorFrequency`: nominal frequency, in MHz.
    pub frequency: Option<Value>,
}

/// Whether a row is the `_Total` instance.
pub open spec fn total_row(r: CounterRow) -> bool {
    has_part(column_text(r.name), "_Total"@)
}

/// The offers one `_Total` row makes, in column order.
pub open spec fn row_offers(r: CounterRow) -> Seq<(Metric, Value, &'static str)> {
    let p = match r.performance {
        Some(v) => seq![(Metric::CpuAvgPerfPct, v, ID)],
        None => Seq::empty(),
    };
    let t = match r.time {
        Some(v) => seq![(Metric::CpuUtilPct, v, ID)],
        None => Seq::empty(),
    };
    let f = match r.frequency {
        Some(v) => seq![(Metric::CpuNominalMhz, v, ID)],
        None => Seq::empty(),
    };
    p + t + f
}

/// The offers of the `_Total` rows among `rows[..n]`, in order.
pub open spec fn total_offers(rows: Seq<CounterRow>, n: int) -> Seq<(Metric, Value, &'static str)>
    decreases n,
{
    if n <= 0 {
        Seq::empty()
    } else if total_row(rows[n - 1]) {
        total_offers(rows, n - 1) + row_offers(rows[n - 1])
    } else {
        total_offers(rows, n - 1)
    }
}

/// What one sampling of the counters does to the measured values: the averages of the
/// `_Total` instance, then the maximum over the cores.
pub open spec fn counters_effect(
    values: Map<Metric, Sample>,
    rows: Seq<CounterRow>,
    max_core: Option<Value>,
) -> Map<Metric, Sample> {
    let totals = offered_all(values, total_offers(rows, rows.len() as int));
    match max_core {
        Some(m) => offered(totals, Metric::CpuMaxCorePct, m, ID),
        None => totals,
    }
}

pub struct PerfCountersProvider {
    connected: bool,
}

impl PerfCountersProvider {
    /// A connection to the counters was established by the last probe.
    pub closed spec fn established(self) -> bool {
        self.connected
    }

    pub fn new() -> (p: PerfCountersProvider)
        ensures
            !p.established(),
    {
        PerfCountersProvider { connected: false }
    }

    pub fn info(&self) -> (i: ProviderInfo)
        ensures
            i.id == ID,
            i.name == "Compteurs de performance Windows",
            i.kind == ProviderKind::Builtin,
            i.provides@ == seq![
                Metric::CpuMaxCorePct,
                Metric::CpuAvgPerfPct,
                Metric::CpuUtilPct,
                Metric::CpuNominalMhz,
            ],
            i.url is None,
    {
        ProviderInfo {
            id: ID,
            name: "Compteurs de performance Windows",
            kind: ProviderKind::Builtin,
            provides: vec![
                Metric::CpuMaxCorePct,
                Metric::CpuAvgPerfPct,
                Metric::CpuUtilPct,
                Metric::CpuNominalMhz,
            ],
            url: None,
        }
    }

    /// Settles the probe: `com` says whether COM could be initialised, `connect` is the
    /// outcome of connecting to the namespace, `query` that of the counter query.
    pub fn probe_outcome(
        &mut self,
        com: bool,
        connect: Result<(), String>,
        query: Result<(), String>,
    ) -> (p: ProbeState)
        ensures
            !com ==> p@ == (ProbeStateView::Failed { error: "COM indisponible"@ }),
            com && connect is Err ==> p@ == (ProbeStateView::Failed { error: connect->Err_0@ }),
            com && connect is Ok && query is Err ==> p@ == (ProbeStateView::Failed {
                error: "classe de compteurs illisible : "@ + query->Err_0@,
            }),
            com && connect is Ok && query is Ok ==> p@ == ProbeStateView::Ready,
            final(self).established() == (old(self).established() || (com && connect is Ok
                && query is Ok)),
    {
        if !com {
            return ProbeState::failed("COM indisponible");
        }
        match connect {
            Err(e) => ProbeState::Failed { error: e },
            Ok(()) => match query {
                Err(e) => ProbeState::Failed {
                    error: concat("classe de compteurs illisible : ", e.as_str()),
                },
                Ok(()) => {
                    self.connected = true;
                    ProbeState::Ready
                },
            },
        }
    }

    /// The `_Total` instance carries the averages; every other instance is a core.
    pub fn is_total(name: &str) -> (b: bool)
        ensures
            b == has_part(name@, "_Total"@),
    {
        str_contains(name, "_Total")
    }

    /// One sampling of the counters. `max_core` is the highest performance among the rows
    /// that are not `_Total` and carry one, as the caller compared them.
    pub fn absorb(out: &mut Reading, rows: &Vec<CounterRow>, max_core: Option<Value>)
        ensures
            final(out).measured() == counters_effect(old(out).measured(), rows@, max_core),
            final(out).cpu() == old(out).cpu(),
            final(out).stamp() == old(out).stamp(),
    {
        let mut i: usize = 0;
        while i < rows.len()
            invariant
                i <= rows.len(),
                out.measured() == offered_all(old(out).measured(), total_offers(rows@, i as int)),
                out.cpu() == old(out).cpu(),
                out.stamp() == old(out).stamp(),
            decreases rows.len() - i,
        {
            let ghost before = total_offers(rows@, i as int);
            let name = column_or_empty(&rows[i].name);
            if Self::is_total(name.as_str()) {
                let r = &rows[i];
                let ghost b0 = before;
                match r.performance {
                    Some(v) => {
                        out.offer(Metric::CpuAvgPerfPct, v, ID);
                        assert(b0.push((Metric::CpuAvgPerfPct, v, ID)).drop_last() == b0);
                    },
                    None => {},
                }
                let ghost b1 = b0 + match r.performance {
                    Some(v) => seq![(Metric::CpuAvgPerfPct, v, ID)],
                    None => Seq::empty(),
                };
                assert(out.measured() == offered_all(old(out).measured(), b1)) by {
                    if r.performance is Some {
                        assert(b1 == b0.push((Metric::CpuAvgPerfPct, r.performance->0, ID)));
                    } else {
                        assert(b1 == b0);
                    }
                }
                match r.time {
                    Some(v) => {
                        out.offer(Metric::CpuUtilPct, v, ID);
                        assert(b1.push((Metric::CpuUtilPct, v, ID)).drop_last() == b1);
                    },
                    None => {},
                }
                let ghost b2 = b1 + match r.time {
                    Some(v) => seq![(Metric::CpuUtilPct, v, ID)],
                    None => Seq::empty(),
                };
                assert(out.measured() == offered_all(old(out).measured(), b2)) by {
                    if r.time is Some {
                        assert(b2 == b1.push((Metric::CpuUtilPct, r.time->0, ID)));
                    } else {
                        assert(b2 == b1);
                    }
                }
                match r.frequency {
                    Some(v) => {
                        out.offer(Metric::CpuNominalMhz, v, ID);
                        assert(b2.push((Metric::CpuNominalMhz, v, ID)).drop_last() == b2);
                    },
                    None => {},
                }
                let ghost b3 = b2 + match r.frequency {
                    Some(v) => seq![(Metric::CpuNominalMhz, v, ID)],
                    None => Seq::empty(),
                };
                assert(out.measured() == offered_all(old(out).measured(), b3)) by {
                    if r.frequency is Some {
                        assert(b3 == b2.push((Metric::CpuNominalMhz, r.frequency->0, ID)));
                    } else {
                        assert(b3 == b2);
                    }
                }
                assert(b3 == total_offers(rows@, i as int + 1));
            }
            i = i + 1;
        }
        match max_core {
            Some(m) => out.offer(Metric::CpuMaxCorePct, m, ID),
            None => {},
        }
    }
}

/// The quantities the `_Total` instance carries.
pub open spec fn total_metric(m: Metric) -> bool {
    m == Metric::CpuAvgPerfPct || m == Metric::CpuUtilPct || m == Metric::CpuNominalMhz
}

/// The offers of one `_Total` row name only the averages.
proof fn lemma_row_offers_named(r: CounterRow)
    ensures
        forall|j: int| 0 <= j < row_offers(r).len() ==> total_metric((#[trigger] row_offers(r)[j]).0),
{
    let p: Seq<(Metric, Value, &'static str)> = match r.performance {
        Some(v) => seq![(Metric::CpuAvgPerfPct, v, ID)],
        None => Seq::empty(),
    };
    let t: Seq<(Metric, Value, &'static str)> = match r.time {
        Some(v) => seq![(Metric::CpuUtilPct, v, ID)],
        None => Seq::empty(),
    };
    let f: Seq<(Metric, Value, &'static str)> = match r.frequency {
        Some(v) => seq![(Metric::CpuNominalMhz, v, ID)],
        None => Seq::empty(),
    };
    assert(row_offers(r) == p + t + f);
    assert forall|j: int| 0 <= j < (p + t + f).len() implies total_metric(#[trigger] (p + t + f)[j].0) by {
        if j < p.len() {
            assert((p + t + f)[j] == p[j]);
        } else if j < p.len() + t.len() {
            assert((p + t + f)[j] == t[j - p.len()]);
        } else {
            assert((p + t + f)[j] == f[j - p.len() - t.len()]);
        }
    }
}

/// The offers of the `_Total` rows name only the averages.
proof fn lemma_total_offers_named(rows: Seq<CounterRow>, n: int)
    ensures
        forall|j: int|
            0 <= j < total_offers(rows, n).len() ==> total_metric(
                (#[trigger] total_offers(rows, n)[j]).0,
            ),
    decreases n,
{
    if n > 0 {
        lemma_total_offers_named(rows, n - 1);
        if total_row(rows[n - 1]) {
            let prev = total_offers(rows, n - 1);
            let more = row_offers(rows[n - 1]);
            lemma_row_offers_named(rows[n - 1]);
            assert(total_offers(rows, n) == prev + more);
            assert forall|j: int| 0 <= j < (prev + more).len() implies total_metric(
                #[trigger] (prev + more)[j].0,
            ) by {
                if j >= prev.len() {
                    assert((prev + more)[j] == more[j - prev.len()]);
                } else {
                    assert((prev + more)[j] == prev[j]);
                }
            }
            assert forall|j: int| 0 <= j < total_offers(rows, n).len() implies total_metric(
                (#[trigger] total_offers(rows, n)[j]).0,
            ) by {
                assert(total_offers(rows, n)[j] == (prev + more)[j]);
            }
        } else {
            assert(total_offers(rows, n) == total_offers(rows, n - 1));
        }
    }
}

/// The driver measures nothing but what it declares: maximum and average performance,
/// load and nominal frequency.
pub proof fn law_perf_counters_offer_only_what_they_declare(
    values: Map<Metric, Sample>,
    rows: Seq<CounterRow>,
    max_core: Option<Value>,
)
    ensures
        only_adds(
            values,
            counters_effect(values, rows, max_core),
            seq![
                Metric::CpuMaxCorePct,
                Metric::CpuAvgPerfPct,
                Metric::CpuUtilPct,
                Metric::CpuNominalMhz,
            ],
        ),
{
    let allowed = seq![
        Metric::CpuMaxCorePct,
        Metric::CpuAvgPerfPct,
        Metric::CpuUtilPct,
        Metric::CpuNominalMhz,
    ];
    let offers = total_offers(rows, rows.len() as int);
    lemma_total_offers_named(rows, rows.len() as int);
    assert forall|j: int| 0 <= j < offers.len() implies allowed.contains(#[trigger] offers[j].0) by {
        assert(total_metric(offers[j].0));
        if offers[j].0 == Metric::CpuAvgPerfPct {
            assert(allowed[1] == offers[j].0);
        } else if offers[j].0 == Metric::CpuUtilPct {
            assert(allowed[2] == offers[j].0);
        } else {
            assert(allowed[3] == offers[j].0);
        }
    }
    lemma_offers_only_add_what_they_name(values, offers, allowed);
    assert(allowed[0] == Metric::CpuMaxCorePct);
}

} // verus!
