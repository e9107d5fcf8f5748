//! Core Temp driver — shared memory `CoreTempMappingObjectEx`.
//!
//! Core Temp ships its own signed kernel driver and publishes its readings in a named
//! section. It must be running, and started as administrator so that its driver loads.

use vstd::prelude::*;

use crate::sensors::metric::{Metric, Reading};
use crate::sensors::provider::{ProbeState, ProbeStateView, ProviderInfo, ProviderKind};
use crate::sensors::shared_memory::{bytes_at, c_string, c_text, le_u32, read_u32_le};

verus! {

pub const ID: &'static str = "core-temp";

/// Number of per-core temperature slots in the published structure.
pub const TEMP_SLOTS: usize = 256;

/// The section names to try, newest layout first.
pub fn sections() -> (v: Vec<&'static str>)
    ensures
        v@ == seq!["CoreTempMappingObjectEx", "CoreTempMappingObject"],
{
    vec!["CoreTempMappingObjectEx", "CoreTempMappingObject"]
}

/// Size of `CoreTempSharedDataEx` in bytes, natural C alignment.
pub const DATA_SIZE: usize = 4740;

/// Offsets of the fields read, in bytes: `uiTjMax[0]`, `uiCoreCnt`, `uiCPUCnt`,
/// `fTemp[0]`, `sCPUName`, `ucFahrenheit`, `ucDeltaToTjMax`, `ucPowerSupported`,
/// `fPower[0]`.
pub const TJ_MAX_OFFSET: usize = 1024;

pub const CORE_COUNT_OFFSET: usize = 1536;

pub const CPU_COUNT_OFFSET: usize = 1540;

pub const TEMP_OFFSET: usize = 1544;

pub const CPU_NAME_OFFSET: usize = 2584;

pub const CPU_NAME_SIZE: usize = 100;

pub const FAHRENHEIT_OFFSET: usize = 2684;

pub const DELTA_OFFSET: usize = 2685;

pub const POWER_SUPPORTED_OFFSET: usize = 2687;

pub const POWER_OFFSET: usize = 3204;

/// What the driver reads of the published structure. Temperatures and power are single
/// precision floats, kept here as their bit patterns.
#[derive(Debug, Clone)]
pub struct SharedData {
    /// TjMax of the first processor.
    pub tj_max: u32,
    pub core_count: u32,
    pub cpu_count: u32,
    /// The temperature slots, in order.
    pub temp_bits: Vec<u32>,
    pub cpu_name: Vec<u8>,
    /// Temperatures are in Fahrenheit.
    pub fahrenheit: bool,
    /// Temperatures are distances to TjMax.
    pub delta_to_tjmax: bool,
    pub power_supported: bool,
    /// Package power of the first processor.
    pub power_bits: u32,
}

/// Decodes the published structure; `None` when the bytes are too few to hold it.
pub fn parse_data(bytes: &[u8]) -> (d: Option<SharedData>)
    ensures
        d is Some <==> bytes@.len() >= DATA_SIZE,
        d matches Some(x) ==> x.tj_max == le_u32(bytes@, TJ_MAX_OFFSET as int) && x.core_count
            == le_u32(bytes@, CORE_COUNT_OFFSET as int) && x.cpu_count == le_u32(
            bytes@,
            CPU_COUNT_OFFSET as int,
        ) && x.temp_bits@.len() == TEMP_SLOTS && (forall|k: int|
            0 <= k < TEMP_SLOTS ==> #[trigger] x.temp_bits@[k] == le_u32(
                bytes@,
                TEMP_OFFSET + 4 * k,
            )) && x.cpu_name@ == bytes@.subrange(
            CPU_NAME_OFFSET as int,
            CPU_NAME_OFFSET + CPU_NAME_SIZE,
        ) && x.fahrenheit == (bytes@[FAHRENHEIT_OFFSET as int] != 0) && x.delta_to_tjmax == (
        bytes@[DELTA_OFFSET as int] != 0) && x.power_supported == (bytes@[POWER_SUPPORTED_OFFSET as int]
            != 0) && x.power_bits == le_u32(bytes@, POWER_OFFSET as int),
{
    if bytes.len() < DATA_SIZE {
        return None;
    }
    let mut temp_bits: Vec<u32> = Vec::new();
    let mut k: usize = 0;
    while k < TEMP_SLOTS
        invariant
            k <= TEMP_SLOTS,
            bytes@.len() >= DATA_SIZE,
            temp_bits@.len() == k,
            forall|j: int| 0 <= j < k ==> #[trigger] temp_bits@[j] == le_u32(bytes@, TEMP_OFFSET + 4 * j),
        decreases TEMP_SLOTS - k,
    {
        temp_bits.push(read_u32_le(bytes, TEMP_OFFSET + 4 * k));
        k = k + 1;
    }
    Some(
        SharedData {
            tj_max: read_u32_le(bytes, TJ_MAX_OFFSET),
            core_count: read_u32_le(bytes, CORE_COUNT_OFFSET),
            cpu_count: read_u32_le(bytes, CPU_COUNT_OFFSET),
            temp_bits,
            cpu_name: bytes_at(bytes, CPU_NAME_OFFSET, CPU_NAME_SIZE),
            fahrenheit: bytes[FAHRENHEIT_OFFSET] != 0,
            delta_to_tjmax: bytes[DELTA_OFFSET] != 0,
            power_supported: bytes[POWER_SUPPORTED_OFFSET] != 0,
            power_bits: read_u32_le(bytes, POWER_OFFSET),
        },
    )
}

pub struct CoreTempProvider {
    section: Option<&'static str>,
}

impl CoreTempProvider {
    /// The section established by the last probe.
    pub closed spec fn established(self) -> Option<&'static str> {
        self.section
    }

    pub fn new() -> (p: CoreTempProvider)
        ensures
            p.established() is None,
    {
        CoreTempProvider { section: None }
    }

    pub fn section(&self) -> (s: Option<&'static str>)
        ensures
            s == self.established(),
    {
        self.section
    }

    pub fn info(&self) -> (i: ProviderInfo)
        ensures
            i.id == ID,
            i.name == "Core Temp",
            i.kind == ProviderKind::External,
            i.provides@ == seq![Metric::CpuTempC, Metric::CpuPowerW],
            i.url == Some("https://www.alcpu.com/CoreTemp/"),
    {
        ProviderInfo {
            id: ID,
            name: "Core Temp",
            kind: ProviderKind::External,
            provides: vec![Metric::CpuTempC, Metric::CpuPowerW],
            url: Some("https://www.alcpu.com/CoreTemp/"),
        }
    }

    /// Settles the probe from what the section gave: `found` is the first section that
    /// could be opened, `cpu_name` the name field of the structure read from it (`None`
    /// when the structure could not be read). A section that is there but yields no
    /// readable processor name has an unexpected layout: that is a failure, not an
    /// absence.
    pub fn probe_outcome(&mut self, found: Option<&'static str>, cpu_name: Option<&[u8]>) -> (p: ProbeState)
        ensures
            final(self).established() == found,
            found is None ==> p@ == (ProbeStateView::Unavailable {
                reason: "Core Temp ne tourne pas"@,
                hint: Some("Lancer Core Temp en administrateur."@),
            }),
            found is Some && cpu_name is None ==> p@ == (ProbeStateView::Failed {
                error: "section presente mais structure illisible"@,
            }),
            found is Some && cpu_name is Some && c_text(cpu_name->0@).len() == 0 ==> p@ == (
            ProbeStateView::Failed { error: "nom de CPU vide : disposition memoire inattendue"@ }),
            found is Some && cpu_name is Some && c_text(cpu_name->0@).len() > 0 ==> p@
                == ProbeStateView::Ready,
    {
        self.section = found;
        match found {
            None => ProbeState::unavailable(
                "Core Temp ne tourne pas",
                "Lancer Core Temp en administrateur.",
            ),
            Some(_) => match cpu_name {
                None => ProbeState::failed("section presente mais structure illisible"),
                Some(bytes) => {
                    let name = c_string(bytes);
                    if name.as_str().is_empty() {
                        ProbeState::failed("nom de CPU vide : disposition memoire inattendue")
                    } else {
                        ProbeState::Ready
                    }
                },
            },
        }
    }

    /// Number of temperature slots worth reading: cores per processor times processors
    /// (at least one), bounded by the slots the structure has.
    pub fn cores_to_read(core_count: u32, cpu_count: u32) -> (n: usize)
        ensures
            n as int == vstd::math::min(
                core_count as int * vstd::math::max(cpu_count as int, 1),
                TEMP_SLOTS as int,
            ),
    {
        let cpus: u64 = if cpu_count > 1 { cpu_count as u64 } else { 1 };
        let cores = core_count as u64;
        assert(cores * cpus <= 0xffff_ffffu64 * 0xffff_ffffu64) by (nonlinear_arith)
            requires
                cores <= 0xffff_ffffu64,
                cpus <= 0xffff_ffffu64,
        ;
        let total: u64 = cores * cpus;
        if total < TEMP_SLOTS as u64 {
            total as usize
        } else {
            TEMP_SLOTS
        }
    }

    /// The processor name of the structure goes into the reading, unless another
    /// provider already named the processor.
    pub fn absorb_name(out: &mut Reading, cpu_name: &[u8])
        ensures
            final(out).cpu() is Some == (old(out).cpu() is Some || c_text(cpu_name@).len() > 0),
            old(out).cpu() is Some ==> final(out).cpu() == old(out).cpu(),
            old(out).cpu() is None && c_text(cpu_name@).len() > 0 ==> final(out).cpu()->0@
                == c_text(cpu_name@),
            final(out).measured() == old(out).measured(),
            final(out).stamp() == old(out).stamp(),
    {
        let name = c_string(cpu_name);
        out.offer_cpu_name(name);
    }
}

} // verus!
