//! LibreHardwareMonitor driver — WMI namespace `root\LibreHardwareMonitor`.
//!
//! LHM, and its ancestor OpenHardwareMonitor, publish their sensors as a WMI class
//! `Sensor`. Each sensor carries a hierarchical `Identifier` (`/intelcpu/0/...`) which
//! tells the CPU apart from the rest without trusting the label.

use vstd::prelude::*;

use crate::sensors::metric::{
    lemma_offers_only_add_what_they_name, offered, offered_all, only_adds, Metric, Reading, Sample,
    Value,
};
use crate::sensors::provider::{ProbeState, ProbeStateView, ProviderInfo, ProviderKind};
use crate::sensors::wmi_context::{column_or_empty, column_text, WmiRow};
use crate::text::{has_part, lowercase, str_contains, str_eq, to_lowercase};

verus! {

pub const ID: &'static str = "libre-hw";

/// What a sensor row is to the driver. The « Package » sensor is the right one; failing
/// that, the hottest core amounts to the same within a fraction of a degree.
#[derive(Debug, Clone, Copy, PartialEq, Eq, Structural)]
pub enum Role {
    PackageTemp,
    CoreTemp,
    PackagePower,
    Ignored,
}

pub open spec fn role(r: WmiRow) -> Role {
    let name = lowercase(column_text(r.name));
    if !has_part(lowercase(column_text(r.identifier)), "cpu"@) || r.value is None {
        Role::Ignored
    } else if column_text(r.sensor_type) == "Temperature"@ {
        if has_part(name, "package"@) || has_part(name, "tdie"@) || has_part(name, "tctl"@) {
            Role::PackageTemp
        } else {
            Role::CoreTemp
        }
    } else if column_text(r.sensor_type) == "Power"@ && has_part(name, "package"@) {
        Role::PackagePower
    } else {
        Role::Ignored
    }
}

/// The package-power offers of `rows[..n]`, in row order.
pub open spec fn power_offers(rows: Seq<WmiRow>, n: int) -> Seq<(Metric, Value, &'static str)>
    decreases n,
{
    if n <= 0 {
        Seq::empty()
    } else if role(rows[n - 1]) == Role::PackagePower {
        power_offers(rows, n - 1).push((Metric::CpuPowerW, rows[n - 1].value->0, ID))
    } else {
        power_offers(rows, n - 1)
    }
}

/// The value of the last package-temperature row among `rows[..n]`.
pub open spec fn package_temp(rows: Seq<WmiRow>, n: int) -> Option<Value>
    decreases n,
{
    if n <= 0 {
        None
    } else if role(rows[n - 1]) == Role::PackageTemp {
        Some(rows[n - 1].value->0)
    } else {
        package_temp(rows, n - 1)
    }
}

/// What one sampling of the rows does to the measured values: the package power as the
/// rows give it, then the package temperature, or failing it the hottest core.
pub open spec fn libre_effect(
    values: Map<Metric, Sample>,
    rows: Seq<WmiRow>,
    hottest_core: Option<Value>,
) -> Map<Metric, Sample> {
    let powered = offered_all(values, power_offers(rows, rows.len() as int));
    let temp = match package_temp(rows, rows.len() as int) {
        Some(t) => Some(t),
        None => hottest_core,
    };
    match temp {
        Some(t) => offered(powered, Metric::CpuTempC, t, ID),
        None => powered,
    }
}

/// A row is a CPU sensor exactly when its lowercased identifier contains « cpu »,
/// whatever its label says (LHM labels an AMD package power just « Package »): a row whose
/// identifier lacks it is never offered, and a CPU power row with a value whose label
/// contains « package » is offered as the package power, alone of a sampling.
pub proof fn law_cpu_rows_are_told_by_their_identifier(values: Map<Metric, Sample>, r: WmiRow)
    ensures
        !has_part(lowercase(column_text(r.identifier)), "cpu"@) ==> role(r) == Role::Ignored
            && libre_effect(values, seq![r], None) == values,
        has_part(lowercase(column_text(r.identifier)), "cpu"@) && r.value is Some && column_text(
            r.sensor_type,
        ) == "Power"@ && has_part(lowercase(column_text(r.name)), "package"@) ==> role(r)
            == Role::PackagePower && libre_effect(values, seq![r], None) == offered(
            values,
            Metric::CpuPowerW,
            r.value->0,
            ID,
        ),
        has_part(lowercase(column_text(r.identifier)), "cpu"@) && r.value is Some && column_text(
            r.sensor_type,
        ) == "Temperature"@ ==> role(r) == Role::PackageTemp || role(r) == Role::CoreTemp,
{
    reveal_strlit("Temperature");
    reveal_strlit("Power");
    let rows = seq![r];
    assert(rows[0] == r);
    assert(offered_all(values, Seq::<(Metric, Value, &'static str)>::empty()) == values);
    let offers = power_offers(rows, 1);
    assert(power_offers(rows, 0) =~= Seq::<(Metric, Value, &'static str)>::empty());
    assert(package_temp(rows, 0) is None);
    if role(r) == Role::PackagePower {
        assert(offers =~= seq![(Metric::CpuPowerW, r.value->0, ID)]);
        assert(offers.drop_last() =~= Seq::<(Metric, Value, &'static str)>::empty());
        assert(offered_all(values, offers) == offered(values, Metric::CpuPowerW, r.value->0, ID));
        assert(libre_effect(values, rows, None) == offered_all(values, offers));
    } else {
        assert(offers =~= Seq::<(Metric, Value, &'static str)>::empty());
    }
    if has_part(lowercase(column_text(r.identifier)), "cpu"@) && r.value is Some && column_text(
        r.sensor_type,
    ) == "Power"@ && has_part(lowercase(column_text(r.name)), "package"@) {
        assert("Power"@.len() == 5 && "Temperature"@.len() == 11);
        assert(column_text(r.sensor_type) != "Temperature"@);
        assert(role(r) == Role::PackagePower);
    }
}

pub struct LibreHwProvider {
    connected: bool,
}

impl LibreHwProvider {
    /// A connection to the sensors was established by the last probe.
    pub closed spec fn established(self) -> bool {
        self.connected
    }

    pub fn new() -> (p: LibreHwProvider)
        ensures
            !p.established(),
    {
        LibreHwProvider { connected: false }
    }

    pub fn info(&self) -> (i: ProviderInfo)
        ensures
            i.id == ID,
            i.name == "LibreHardwareMonitor",
            i.kind == ProviderKind::External,
            i.provides@ == seq![Metric::CpuTempC, Metric::CpuPowerW],
            i.url == Some("https://github.com/LibreHardwareMonitor/LibreHardwareMonitor"),
    {
        ProviderInfo {
            id: ID,
            name: "LibreHardwareMonitor",
            kind: ProviderKind::External,
            provides: vec![Metric::CpuTempC, Metric::CpuPowerW],
            url: Some("https://github.com/LibreHardwareMonitor/LibreHardwareMonitor"),
        }
    }

    /// Settles the probe: `com` says whether COM could be initialised, `connected`
    /// whether a namespace answered the sensor query.
    pub fn probe_outcome(&mut self, com: bool, connected: bool) -> (p: ProbeState)
        ensures
            !com ==> p@ == (ProbeStateView::Failed { error: "COM indisponible"@ })
                && final(self).established() == old(self).established(),
            com ==> final(self).established() == connected,
            com && connected ==> p@ == ProbeStateView::Ready,
            com && !connected ==> p@ == (ProbeStateView::Unavailable {
                reason: "LibreHardwareMonitor ne tourne pas"@,
                hint: Some("Lancer LibreHardwareMonitor en administrateur."@),
            }),
    {
        if !com {
            return ProbeState::failed("COM indisponible");
        }
        self.connected = connected;
        if connected {
            ProbeState::Ready
        } else {
            ProbeState::unavailable(
                "LibreHardwareMonitor ne tourne pas",
                "Lancer LibreHardwareMonitor en administrateur.",
            )
        }
    }

    /// What a sensor row is to the driver.
    pub fn role_of(r: &WmiRow) -> (k: Role)
        ensures
            k == role(*r),
    {
        proof {
            reveal_strlit("Temperature");
            reveal_strlit("Power");
        }
        let id = to_lowercase(column_or_empty(&r.identifier).as_str());
        let name = to_lowercase(column_or_empty(&r.name).as_str());
        if !str_contains(id.as_str(), "cpu") || r.value.is_none() {
            return Role::Ignored;
        }
        let kind = column_or_empty(&r.sensor_type);
        if str_eq(kind.as_str(), "Temperature") {
            if str_contains(name.as_str(), "package") || str_contains(name.as_str(), "tdie")
                || str_contains(name.as_str(), "tctl") {
                Role::PackageTemp
            } else {
                Role::CoreTemp
            }
        } else if str_eq(kind.as_str(), "Power") && str_contains(name.as_str(), "package") {
            Role::PackagePower
        } else {
            Role::Ignored
        }
    }

    /// One sampling of the sensor rows. `hottest_core` is the highest temperature among
    /// the rows whose role is `CoreTemp`, as the caller compared them.
    pub fn absorb(out: &mut Reading, rows: &Vec<WmiRow>, hottest_core: Option<Value>)
        ensures
            final(out).measured() == libre_effect(old(out).measured(), rows@, hottest_core),
            final(out).cpu() == old(out).cpu(),
            final(out).stamp() == old(out).stamp(),
    {
        let mut package: Option<Value> = None;
        let mut i: usize = 0;
        while i < rows.len()
            invariant
                i <= rows.len(),
                out.measured() == offered_all(old(out).measured(), power_offers(rows@, i as int)),
                package == package_temp(rows@, i as int),
                out.cpu() == old(out).cpu(),
                out.stamp() == old(out).stamp(),
            decreases rows.len() - i,
        {
            let ghost before = power_offers(rows@, i as int);
            match Self::role_of(&rows[i]) {
                Role::PackageTemp => {
                    package = rows[i].value;
                },
                Role::PackagePower => {
                    out.offer(Metric::CpuPowerW, rows[i].value.unwrap(), ID);
                    assert(before.push((Metric::CpuPowerW, rows@[i as int].value->0, ID)).drop_last()
                        == before);
                },
                _ => {},
            }
            i = i + 1;
        }
        let temp = if package.is_some() { package } else { hottest_core };
        match temp {
            Some(t) => out.offer(Metric::CpuTempC, t, ID),
            None => {},
        }
    }
}

/// The power offers name the package power only.
proof fn lemma_power_offers_named(rows: Seq<WmiRow>, n: int)
    ensures
        forall|j: int|
            0 <= j < power_offers(rows, n).len() ==> (#[trigger] power_offers(rows, n)[j]).0
                == Metric::CpuPowerW,
    decreases n,
{
    if n > 0 {
        lemma_power_offers_named(rows, n - 1);
    }
}

/// The driver measures nothing but what it declares: CPU temperature and power.
pub proof fn law_libre_hw_offers_only_what_it_declares(
    values: Map<Metric, Sample>,
    rows: Seq<WmiRow>,
    hottest_core: Option<Value>,
)
    ensures
        only_adds(values, libre_effect(values, rows, hottest_core), seq![Metric::CpuTempC, Metric::CpuPowerW]),
{
    let allowed = seq![Metric::CpuTempC, Metric::CpuPowerW];
    let offers = power_offers(rows, rows.len() as int);
    lemma_power_offers_named(rows, rows.len() as int);
    assert forall|j: int| 0 <= j < offers.len() implies allowed.contains(#[trigger] offers[j].0) by {
        assert(allowed[1] == offers[j].0);
    }
    lemma_offers_only_add_what_they_name(values, offers, allowed);
    assert(allowed[0] == Metric::CpuTempC);
}

} // verus!
