//! What the application can really do on this machine, and why not the rest.
//!
//! Nothing is greyed out without an explanation: every missing quantity is tied to the
//! providers that would supply it. A corporate workstation, a machine without an NVIDIA
//! GPU or a PC without a monitoring tool do not offer the same capabilities — and none of
//! these cases is an error.

use vstd::prelude::*;

use crate::i18n::{pick, wording, Lang};
use crate::power::PowerState;
use crate::sensors::hub::ProviderStatus;
use crate::sensors::metric::{all_metrics, unit_of, Metric};
use crate::tools::ToolStatus;

verus! {

/// What is known of one quantity.
pub struct MetricInfo {
    pub metric: Metric,
    pub unit: &'static str,
    /// True if at least one established provider measures it.
    pub available: bool,
    /// Every provider able to measure it, established or not: this is what lets the
    /// interface say *what to install* to fill a gap.
    pub provided_by: Vec<&'static str>,
}

/// What the application can do here.
pub struct Capabilities {
    pub providers: Vec<ProviderStatus>,
    /// State of the third-party tool each external provider depends on, by provider
    /// identifier. The provider says whether its measurement arrives; this says whether
    /// the tool is there, and what can be done about it.
    pub tools: Vec<(&'static str, ToolStatus)>,
    pub metrics: Vec<MetricInfo>,
    /// False on a workstation without administrator rights, or whose power schemes are
    /// locked by group policy.
    pub can_control_power: bool,
    pub power_blocked_reason: Option<String>,
}

/// Whether an established provider of the list measures `m`.
pub open spec fn measured_by(ps: Seq<ProviderStatus>, m: Metric) -> bool {
    exists|i: int| 0 <= i < ps.len() && (#[trigger] ps[i]).state.ready() && ps[i].info.provides@.contains(m)
}

/// The names of the providers of the list able to measure `m`, in list order.
pub open spec fn providing(ps: Seq<ProviderStatus>, m: Metric) -> Seq<&'static str>
    decreases ps.len(),
{
    if ps.len() == 0 {
        Seq::empty()
    } else {
        let earlier = providing(ps.drop_last(), m);
        if ps.last().info.provides@.contains(m) {
            earlier.push(ps.last().info.name)
        } else {
            earlier
        }
    }
}

/// What is reported of `m`, given the providers.
pub open spec fn describes_metric(info: MetricInfo, m: Metric, ps: Seq<ProviderStatus>) -> bool {
    &&& info.metric == m
    &&& info.unit@ == unit_of(m)
    &&& info.available == measured_by(ps, m)
    &&& info.provided_by@ == providing(ps, m)
}

/// The message that tells why the power scheme cannot be changed, when the cause is the
/// missing rights.
pub open spec fn rights_required(lang: Lang) -> &'static str {
    wording(
        lang,
        "administrator rights are required to change the power scheme",
        "droits administrateur requis pour modifier le schema d'alimentation",
    )
}

fn lists(provides: &Vec<Metric>, m: Metric) -> (b: bool)
    ensures
        b == provides@.contains(m),
{
    let mut k: usize = 0;
    while k < provides.len()
        invariant
            k <= provides.len(),
            forall|j: int| 0 <= j < k ==> provides@[j] != m,
        decreases provides.len() - k,
    {
        if provides[k] == m {
            assert(provides@[k as int] == m);
            return true;
        }
        k = k + 1;
    }
    false
}

/// What is known of one quantity, given the providers.
pub fn metric_info(m: Metric, providers: &Vec<ProviderStatus>) -> (info: MetricInfo)
    ensures
        describes_metric(info, m, providers@),
{
    let mut available = false;
    let mut provided_by: Vec<&'static str> = Vec::new();
    let mut i: usize = 0;
    while i < providers.len()
        invariant
            i <= providers.len(),
            available == measured_by(providers@.take(i as int), m),
            provided_by@ == providing(providers@.take(i as int), m),
        decreases providers.len() - i,
    {
        let ghost before = providers@.take(i as int);
        let ghost after = providers@.take(i as int + 1);
        assert(after.drop_last() == before);
        assert(after.last() == providers@[i as int]);
        let listed = lists(&providers[i].info.provides, m);
        if listed {
            provided_by.push(providers[i].info.name);
        }
        if listed && providers[i].state.is_ready() {
            available = true;
            assert(after[i as int] == providers@[i as int]);
        }
        proof {
            if measured_by(after, m) && !measured_by(before, m) {
                let w = choose|w: int|
                    0 <= w < after.len() && (#[trigger] after[w]).state.ready()
                        && after[w].info.provides@.contains(m);
                if w < i {
                    assert(before[w] == after[w]);
                }
            }
            if measured_by(before, m) {
                let w = choose|w: int|
                    0 <= w < before.len() && (#[trigger] before[w]).state.ready()
                        && before[w].info.provides@.contains(m);
                assert(after[w] == before[w]);
            }
        }
        i = i + 1;
    }
    assert(providers@.take(providers.len() as int) == providers@);
    MetricInfo { metric: m, unit: m.unit(), available, provided_by }
}

/// Gathers what the application can do: the providers' states, the tools' states, each
/// quantity with whether it is measured and by whom it could be, and whether the power
/// scheme can be changed given what reading it gave.
pub fn collect(
    providers: Vec<ProviderStatus>,
    tools: Vec<(&'static str, ToolStatus)>,
    power: &Result<PowerState, String>,
    lang: Lang,
) -> (c: Capabilities)
    ensures
        c.providers@ == providers@,
        c.tools@ == tools@,
        c.metrics.len() == all_metrics().len(),
        forall|k: int|
            0 <= k < c.metrics.len() ==> describes_metric(
                #[trigger] c.metrics@[k],
                all_metrics()[k],
                providers@,
            ),
        c.can_control_power == (power matches Ok(s) && s.elevated),
        match power {
            Ok(s) => if s.elevated {
                c.power_blocked_reason is None
            } else {
                c.power_blocked_reason matches Some(r) && r@ == rights_required(lang)@
            },
            Err(e) => c.power_blocked_reason matches Some(r) && r@ == e@,
        },
{
    let all = Metric::all();
    let mut metrics: Vec<MetricInfo> = Vec::new();
    let mut k: usize = 0;
    while k < all.len()
        invariant
            k <= all.len(),
            all@ == all_metrics(),
            metrics.len() == k,
            forall|j: int|
                0 <= j < k ==> describes_metric(#[trigger] metrics@[j], all_metrics()[j], providers@),
        decreases all.len() - k,
    {
        metrics.push(metric_info(all[k], &providers));
        k = k + 1;
    }
    let (can_control_power, power_blocked_reason) = match power {
        Ok(s) => if s.elevated {
            (true, None)
        } else {
            let why = pick(
                lang,
                "administrator rights are required to change the power scheme",
                "droits administrateur requis pour modifier le schema d'alimentation",
            );
            (false, Some(why.to_owned()))
        },
        Err(e) => (false, Some(e.clone())),
    };
    Capabilities { providers, tools, metrics, can_control_power, power_blocked_reason }
}

/// A quantity measured by an established provider always names who provides it: nothing
/// is offered without an explanation of where it comes from.
pub proof fn law_available_metric_names_its_provider(ps: Seq<ProviderStatus>, m: Metric)
    requires
        measured_by(ps, m),
    ensures
        providing(ps, m).len() > 0,
    decreases ps.len(),
{
    let w = choose|w: int|
        0 <= w < ps.len() && (#[trigger] ps[w]).state.ready() && ps[w].info.provides@.contains(m);
    if w < ps.len() - 1 {
        assert(ps.drop_last()[w] == ps[w]);
        law_available_metric_names_its_provider(ps.drop_last(), m);
    }
}

/// Every provider able to measure a quantity is named for it, established or not: a
/// missing quantity tells what to install.
pub proof fn law_every_capable_provider_is_named(ps: Seq<ProviderStatus>, m: Metric, i: int)
    requires
        0 <= i < ps.len(),
        ps[i].info.provides@.contains(m),
    ensures
        providing(ps, m).contains(ps[i].info.name),
    decreases ps.len(),
{
    if i == ps.len() - 1 {
        assert(providing(ps, m).last() == ps[i].info.name);
    } else {
        assert(ps.drop_last()[i] == ps[i]);
        law_every_capable_provider_is_named(ps.drop_last(), m, i);
        let earlier = providing(ps.drop_last(), m);
        let k = choose|k: int| 0 <= k < earlier.len() && earlier[k] == ps[i].info.name;
        if ps.last().info.provides@.contains(m) {
            assert(providing(ps, m)[k] == ps[i].info.name);
        }
    }
}

} // verus!
