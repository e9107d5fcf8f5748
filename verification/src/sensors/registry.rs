//! Composition of the pipeline: which providers, and in which order.
//!
//! **The order is the priority.** `Reading::offer` keeps the first value offered for a
//! quantity, so a provider placed higher cannot be overwritten by a later one. The
//! ranking follows the fidelity of the measure:
//!
//! 1. the tools with a kernel driver, the only ones to read the MSR registers (die
//!    temperature, package power), Core Temp before HWiNFO since it needs no setting;
//! 2. the AMD GPU through LibreHardwareMonitor, the only source of its quantities;
//! 3. the Windows counters and `nvidia-smi`, which do not overlap the previous ones;
//! 4. the ACPI zone, which does not measure the CPU and feeds a distinct quantity.

use vstd::prelude::*;

use crate::i18n::{wording, Lang};
use crate::sensors::metric::Metric;
use crate::sensors::provider::{card, ProviderInfo, ProviderInfoView, ProviderKind};
use crate::sensors::providers::{
    acpi::AcpiProvider, amd_gpu::AmdGpuProvider, core_temp::CoreTempProvider,
    hwinfo::HwInfoProvider, libre_hw::LibreHwProvider, nvidia::NvidiaProvider,
    perf_counters::PerfCountersProvider,
};
use crate::sensors::providers::{acpi, amd_gpu, core_temp, hwinfo, libre_hw, nvidia, perf_counters};

verus! {

/// The identity cards of the providers, in priority order.
pub open spec fn registry(lang: Lang) -> Seq<ProviderInfoView> {
    seq![
        card(
            core_temp::ID,
            "Core Temp",
            ProviderKind::External,
            seq![Metric::CpuTempC, Metric::CpuPowerW],
            Some("https://www.alcpu.com/CoreTemp/"),
        ),
        card(
            hwinfo::ID,
            "HWiNFO",
            ProviderKind::External,
            seq![Metric::CpuTempC, Metric::CpuPowerW],
            Some("https://www.hwinfo.com/"),
        ),
        card(
            libre_hw::ID,
            "LibreHardwareMonitor",
            ProviderKind::External,
            seq![Metric::CpuTempC, Metric::CpuPowerW],
            Some("https://github.com/LibreHardwareMonitor/LibreHardwareMonitor"),
        ),
        card(
            amd_gpu::ID,
            "GPU AMD (LibreHardwareMonitor)",
            ProviderKind::External,
            seq![Metric::GpuTempC, Metric::GpuPowerW, Metric::GpuClockMhz, Metric::GpuUtilPct],
            Some("https://github.com/LibreHardwareMonitor/LibreHardwareMonitor"),
        ),
        card(
            perf_counters::ID,
            "Compteurs de performance Windows",
            ProviderKind::Builtin,
            seq![
                Metric::CpuMaxCorePct,
                Metric::CpuAvgPerfPct,
                Metric::CpuUtilPct,
                Metric::CpuNominalMhz,
            ],
            None,
        ),
        card(
            nvidia::ID,
            "NVIDIA (nvidia-smi)",
            ProviderKind::Builtin,
            seq![Metric::GpuTempC, Metric::GpuPowerW, Metric::GpuClockMhz, Metric::GpuUtilPct],
            None,
        ),
        card(
            acpi::ID,
            wording(lang, "ACPI thermal zone", "Zone thermique ACPI"),
            ProviderKind::Builtin,
            seq![Metric::BoardTempC],
            None,
        ),
    ]
}

/// The identity cards of every provider, in priority order.
pub fn infos(lang: Lang) -> (v: Vec<ProviderInfo>)
    ensures
        v@.map_values(|i: ProviderInfo| i@) == registry(lang),
{
    let mut v: Vec<ProviderInfo> = Vec::new();
    v.push(CoreTempProvider::new().info());
    v.push(HwInfoProvider::new().info());
    v.push(LibreHwProvider::new().info());
    v.push(AmdGpuProvider::new().info());
    v.push(PerfCountersProvider::new().info());
    v.push(NvidiaProvider::new().info());
    v.push(AcpiProvider::new().info(lang));
    assert(v@.map_values(|i: ProviderInfo| i@) =~= registry(lang));
    v
}

/// No two providers share an identifier: provenance designates one source.
pub proof fn law_identifiers_are_unique(lang: Lang)
    ensures
        forall|i: int, j: int|
            0 <= i < j < registry(lang).len() ==> (#[trigger] registry(lang)[i]).id != (
            #[trigger] registry(lang)[j]).id,
{
    reveal_strlit("core-temp");
    reveal_strlit("hwinfo");
    reveal_strlit("libre-hw");
    reveal_strlit("amd-gpu");
    reveal_strlit("perf-counters");
    reveal_strlit("nvidia-smi");
    reveal_strlit("acpi");
    assert(registry(lang)[0].id == "core-temp"@);
    assert(registry(lang)[1].id == "hwinfo"@);
    assert(registry(lang)[2].id == "libre-hw"@);
    assert(registry(lang)[3].id == "amd-gpu"@);
    assert(registry(lang)[4].id == "perf-counters"@);
    assert(registry(lang)[5].id == "nvidia-smi"@);
    assert(registry(lang)[6].id == "acpi"@);
}

/// Every provider has a name and claims at least one quantity.
pub proof fn law_every_provider_declares_what_it_measures(lang: Lang)
    ensures
        forall|i: int|
            0 <= i < registry(lang).len() ==> (#[trigger] registry(lang)[i]).provides.len() > 0
                && registry(lang)[i].name.len() > 0,
{
    reveal_strlit("Core Temp");
    reveal_strlit("HWiNFO");
    reveal_strlit("LibreHardwareMonitor");
    reveal_strlit("GPU AMD (LibreHardwareMonitor)");
    reveal_strlit("Compteurs de performance Windows");
    reveal_strlit("NVIDIA (nvidia-smi)");
    reveal_strlit("ACPI thermal zone");
    reveal_strlit("Zone thermique ACPI");
}

/// An external provider tells where to get its tool: without it, the user would be left
/// without recourse when it is missing.
pub proof fn law_external_providers_tell_where_to_get_them(lang: Lang)
    ensures
        forall|i: int|
            0 <= i < registry(lang).len() && (#[trigger] registry(lang)[i]).kind
                == ProviderKind::External ==> registry(lang)[i].url is Some,
{
}

/// The kernel-backed (external) providers come before the built-in ones, so that an
/// approximate measure can never take the place of an exact one.
pub proof fn law_kernel_backed_providers_come_first(lang: Lang)
    ensures
        forall|i: int, j: int|
            0 <= i < j < registry(lang).len() && (#[trigger] registry(lang)[j]).kind
                == ProviderKind::External ==> (#[trigger] registry(lang)[i]).kind
                == ProviderKind::External,
{
}

} // verus!
