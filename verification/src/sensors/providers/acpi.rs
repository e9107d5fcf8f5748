//! ACPI thermal zone driver — `MSAcpi_ThermalZoneTemperature`.
//!
//! Available without installing anything, but one must know what is read: these zones
//! measure a point of the motherboard, not the processor die — hence a distinct quantity,
//! `BoardTempC`, which cannot stand in for the CPU temperature.

use vstd::prelude::*;

use crate::i18n::{pick, wording, Lang};
use crate::sensors::metric::Metric;
use crate::sensors::provider::{ProbeState, ProbeStateView, ProviderInfo, ProviderKind};
use crate::text::concat3;

verus! {

pub const ID: &'static str = "acpi";

pub const NAMESPACE: &'static str = "root\\WMI";

pub const QUERY: &'static str = "SELECT CurrentTemperature FROM MSAcpi_ThermalZoneTemperature";

pub struct AcpiProvider {
    connected: bool,
}

impl AcpiProvider {
    /// A thermal zone was found by the last probe.
    pub closed spec fn established(self) -> bool {
        self.connected
    }

    pub fn new() -> (p: AcpiProvider)
        ensures
            !p.established(),
    {
        AcpiProvider { connected: false }
    }

    pub fn info(&self, lang: Lang) -> (i: ProviderInfo)
        ensures
            i.id == ID,
            i.name == wording(lang, "ACPI thermal zone", "Zone thermique ACPI"),
            i.kind == ProviderKind::Builtin,
            i.provides@ == seq![Metric::BoardTempC],
            i.url is None,
    {
        ProviderInfo {
            id: ID,
            name: pick(lang, "ACPI thermal zone", "Zone thermique ACPI"),
            kind: ProviderKind::Builtin,
            provides: vec![Metric::BoardTempC],
            url: None,
        }
    }

    /// Settles the probe: `com` says whether COM could be initialised, `connected`
    /// whether the namespace could be reached, `zones` the number of thermal zones the
    /// query returned (`None` when it failed).
    pub fn probe_outcome(&mut self, lang: Lang, com: bool, connected: bool, zones: Option<usize>) -> (p: ProbeState)
        ensures
            !com ==> p@ == (ProbeStateView::Failed {
                error: wording(lang, "COM unavailable", "COM indisponible")@,
            }),
            com && !connected ==> p@ == (ProbeStateView::Failed {
                error: wording(lang, "namespace ", "espace de noms ")@ + NAMESPACE@ + wording(
                    lang,
                    " unreachable",
                    " inaccessible",
                )@,
            }),
            com && connected && (zones is Some && zones->0 > 0) ==> p@
                == ProbeStateView::Ready,
            com && connected && !(zones is Some && zones->0 > 0) ==> p@ == (
            ProbeStateView::Unavailable {
                reason: wording(
                    lang,
                    "this motherboard exposes no thermal zone",
                    "aucune zone thermique exposee par cette carte mere",
                )@,
                hint: None,
            }),
            final(self).established() == (old(self).established() || (com && connected && (
            zones is Some && zones->0 > 0))),
    {
        if !com {
            return ProbeState::failed(pick(lang, "COM unavailable", "COM indisponible"));
        }
        if !connected {
            let error = concat3(
                pick(lang, "namespace ", "espace de noms "),
                NAMESPACE,
                pick(lang, " unreachable", " inaccessible"),
            );
            return ProbeState::Failed { error };
        }
        let found = match zones {
            Some(n) => n > 0,
            None => false,
        };
        if found {
            self.connected = true;
            ProbeState::Ready
        } else {
            ProbeState::unavailable_only(
                pick(
                    lang,
                    "this motherboard exposes no thermal zone",
                    "aucune zone thermique exposee par cette carte mere",
                ),
            )
        }
    }
}

} // verus!
