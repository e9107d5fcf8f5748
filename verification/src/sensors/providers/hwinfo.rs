//! HWiNFO driver — shared memory `HWiNFO_SENS_SM2`.
//!
//! HWiNFO publishes a flat array of readings described by a header: offsets, element size
//! and count. The size of an element is therefore not assumed, but read from the header.
//!
//! On the user's side, HWiNFO must run **and** have « Shared Memory Support » enabled in
//! its settings: it is off by default.

use vstd::prelude::*;

use crate::sensors::metric::{offered, only_adds, Metric, Reading, Value};
use crate::sensors::provider::{ProbeState, ProbeStateView, ProviderInfo, ProviderKind, Sampled};
use crate::sensors::shared_memory::{
    bytes_at, c_string, c_text, le_u32, le_u64, read_u32_le, read_u64_le,
};
use crate::text::{has_part, lowercase, str_contains, to_lowercase};

verus! {

pub const ID: &'static str = "hwinfo";

pub const SECTION: &'static str = "Global\\HWiNFO_SENS_SM2";

/// Signature "SiWH" in little-endian.
pub const SIGNATURE: u32 = 0x4857_6953;

/// Safety bound: beyond it, the header is incoherent and no loop is attempted.
pub const MAX_ELEMENTS: u32 = 8192;

pub const READING_TYPE_TEMP: u32 = 1;

pub const READING_TYPE_POWER: u32 = 5;

/// The header of the section, field for field as HWiNFO publishes it: three DWORDs,
/// four bytes of padding, a `__time64_t`, then six DWORDs.
#[derive(Debug, Clone, Copy)]
pub struct Header {
    pub signature: u32,
    pub version: u32,
    pub revision: u32,
    pub poll_time: i64,
    pub sensor_offset: u32,
    pub sensor_element_size: u32,
    pub sensor_count: u32,
    pub reading_offset: u32,
    pub reading_element_size: u32,
    pub reading_count: u32,
}

/// What a reading element holds that the driver looks at.
#[derive(Debug, Clone)]
pub struct Element {
    pub reading_type: u32,
    /// `szLabelOrig`: the original label, which the user cannot rename.
    pub label_orig: Vec<u8>,
    pub value: Value,
}

/// Size of the header in bytes.
pub const HEADER_SIZE: usize = 48;

/// Size of a reading element in bytes.
pub const ELEMENT_SIZE: usize = 320;

/// Where `szLabelOrig` lies in a reading element, and its width.
pub const LABEL_OFFSET: usize = 12;

pub const LABEL_SIZE: usize = 128;

/// Where the current value (a little-endian binary64) lies in a reading element: after
/// the three strings, aligned on 8.
pub const VALUE_OFFSET: usize = 288;

/// The header laid out in `bytes`: little-endian fields at their C offsets.
pub open spec fn header_in(bytes: Seq<u8>) -> Header {
    Header {
        signature: le_u32(bytes, 0) as u32,
        version: le_u32(bytes, 4) as u32,
        revision: le_u32(bytes, 8) as u32,
        poll_time: le_u64(bytes, 16) as i64,
        sensor_offset: le_u32(bytes, 24) as u32,
        sensor_element_size: le_u32(bytes, 28) as u32,
        sensor_count: le_u32(bytes, 32) as u32,
        reading_offset: le_u32(bytes, 36) as u32,
        reading_element_size: le_u32(bytes, 40) as u32,
        reading_count: le_u32(bytes, 44) as u32,
    }
}

/// Decodes the header at the start of the section; `None` when the bytes are too few to
/// hold one.
pub fn parse_header(bytes: &[u8]) -> (h: Option<Header>)
    ensures
        h is Some <==> bytes@.len() >= HEADER_SIZE,
        h matches Some(x) ==> x == header_in(bytes@),
{
    if bytes.len() < HEADER_SIZE {
        return None;
    }
    Some(
        Header {
            signature: read_u32_le(bytes, 0),
            version: read_u32_le(bytes, 4),
            revision: read_u32_le(bytes, 8),
            poll_time: read_u64_le(bytes, 16) as i64,
            sensor_offset: read_u32_le(bytes, 24),
            sensor_element_size: read_u32_le(bytes, 28),
            sensor_count: read_u32_le(bytes, 32),
            reading_offset: read_u32_le(bytes, 36),
            reading_element_size: read_u32_le(bytes, 40),
            reading_count: read_u32_le(bytes, 44),
        },
    )
}

/// Decodes a reading element: its type, its original label and its current value; `None`
/// when the bytes are too few to hold one.
pub fn parse_element(bytes: &[u8]) -> (e: Option<Element>)
    ensures
        e is Some <==> bytes@.len() >= ELEMENT_SIZE,
        e matches Some(x) ==> x.reading_type == le_u32(bytes@, 0) && x.label_orig@
            == bytes@.subrange(LABEL_OFFSET as int, LABEL_OFFSET + LABEL_SIZE) && x.value.bits
            == le_u64(bytes@, VALUE_OFFSET as int),
{
    if bytes.len() < ELEMENT_SIZE {
        return None;
    }
    Some(
        Element {
            reading_type: read_u32_le(bytes, 0),
            label_orig: bytes_at(bytes, LABEL_OFFSET, LABEL_SIZE),
            value: Value::from_bits(read_u64_le(bytes, VALUE_OFFSET)),
        },
    )
}

/// A header the driver accepts: the right signature, and a sane number of readings.
pub open spec fn header_valid(h: Header) -> bool {
    h.signature == SIGNATURE && h.reading_count <= MAX_ELEMENTS
}

/// The quantity a reading stands for, from its type and its lowercased original label.
pub open spec fn classified(reading_type: u32, label: Seq<char>) -> Option<Metric> {
    if reading_type == READING_TYPE_TEMP && has_part(label, "cpu package"@) {
        Some(Metric::CpuTempC)
    } else if reading_type == READING_TYPE_POWER && has_part(label, "cpu package power"@) {
        Some(Metric::CpuPowerW)
    } else {
        None
    }
}

/// What one element does to the measured values.
pub open spec fn element_effect(values: Map<Metric, crate::sensors::metric::Sample>, e: Element) -> Map<
    Metric,
    crate::sensors::metric::Sample,
> {
    if !e.value.finite() {
        values
    } else {
        match classified(e.reading_type, lowercase(c_text(e.label_orig@))) {
            Some(m) => offered(values, m, e.value, ID),
            None => values,
        }
    }
}

/// The readable elements: those before the first that could not be read.
pub open spec fn readable_prefix(elements: Seq<Option<Element>>) -> int
    decreases elements.len(),
{
    if elements.len() == 0 {
        0
    } else if elements[0] is None {
        0
    } else {
        1 + readable_prefix(elements.drop_first())
    }
}

/// The elements the header announces, among those handed over: the first
/// `reading_count` of them.
pub open spec fn announced(elements: Seq<Option<Element>>, h: Header) -> Seq<Option<Element>> {
    if elements.len() <= h.reading_count {
        elements
    } else {
        elements.take(h.reading_count as int)
    }
}

/// The measured values after the elements `elements[..n]` were absorbed in order.
pub open spec fn absorbed(
    values: Map<Metric, crate::sensors::metric::Sample>,
    elements: Seq<Option<Element>>,
    n: int,
) -> Map<Metric, crate::sensors::metric::Sample>
    decreases n,
{
    if n <= 0 {
        values
    } else {
        element_effect(absorbed(values, elements, n - 1), elements[n - 1]->0)
    }
}

pub struct HwInfoProvider {
    available: bool,
}

impl HwInfoProvider {
    /// The last probe found a valid section.
    pub closed spec fn established(self) -> bool {
        self.available
    }

    pub fn new() -> (p: HwInfoProvider)
        ensures
            !p.established(),
    {
        HwInfoProvider { available: false }
    }

    pub fn info(&self) -> (i: ProviderInfo)
        ensures
            i.id == ID,
            i.name == "HWiNFO",
            i.kind == ProviderKind::External,
            i.provides@ == seq![Metric::CpuTempC, Metric::CpuPowerW],
            i.url == Some("https://www.hwinfo.com/"),
    {
        ProviderInfo {
            id: ID,
            name: "HWiNFO",
            kind: ProviderKind::External,
            provides: vec![Metric::CpuTempC, Metric::CpuPowerW],
            url: Some("https://www.hwinfo.com/"),
        }
    }

    pub fn header_ok(h: &Header) -> (b: bool)
        ensures
            b == header_valid(*h),
    {
        h.signature == SIGNATURE && h.reading_count <= MAX_ELEMENTS
    }

    /// Settles the probe. `section` is `None` when the section could not be opened, and
    /// `Some(None)` when it was too small to hold a header.
    pub fn probe_outcome(&mut self, section: Option<Option<Header>>) -> (p: ProbeState)
        ensures
            final(self).established() == (section matches Some(Some(h)) && header_valid(h)),
            section is None ==> p@ == (ProbeStateView::Unavailable {
                reason: "HWiNFO ne tourne pas, ou sa memoire partagee est desactivee"@,
                hint: Some(
                    "Dans HWiNFO : Settings > Main Settings > cocher « Shared Memory Support »."@,
                ),
            }),
            section is Some && !(section matches Some(Some(h)) && header_valid(h)) ==> p@ == (
            ProbeStateView::Failed {
                error: "signature ou en-tete inattendu dans la section partagee"@,
            }),
            (section matches Some(Some(h)) && header_valid(h)) ==> p@ == ProbeStateView::Ready,
    {
        self.available = false;
        match section {
            None => ProbeState::unavailable(
                "HWiNFO ne tourne pas, ou sa memoire partagee est desactivee",
                "Dans HWiNFO : Settings > Main Settings > cocher « Shared Memory Support ».",
            ),
            Some(header) => {
                let valid = match header {
                    Some(h) => Self::header_ok(&h),
                    None => false,
                };
                if valid {
                    self.available = true;
                    ProbeState::Ready
                } else {
                    ProbeState::failed("signature ou en-tete inattendu dans la section partagee")
                }
            },
        }
    }

    /// Byte offset of reading element `i`.
    pub fn element_offset(h: &Header, i: u32) -> (o: u64)
        ensures
            o == h.reading_offset as int + i as int * h.reading_element_size as int,
    {
        assert(i as u64 * h.reading_element_size as u64 <= 0xffff_ffffu64 * 0xffff_ffffu64)
            by (nonlinear_arith)
            requires
                i <= 0xffff_ffffu32,
                h.reading_element_size <= 0xffff_ffffu32,
        ;
        h.reading_offset as u64 + i as u64 * h.reading_element_size as u64
    }

    /// The quantity a reading stands for.
    pub fn classify(reading_type: u32, label: &str) -> (m: Option<Metric>)
        ensures
            m == classified(reading_type, label@),
    {
        if reading_type == READING_TYPE_TEMP && str_contains(label, "cpu package") {
            Some(Metric::CpuTempC)
        } else if reading_type == READING_TYPE_POWER && str_contains(label, "cpu package power") {
            Some(Metric::CpuPowerW)
        } else {
            None
        }
    }

    /// One sampling cycle. `section` is what the section gave this time (as for the
    /// probe), `elements` the reading elements read at the offsets the header announces,
    /// `None` from the first one that lies outside the view. The temperature and power of
    /// the CPU package are offered; only the first `reading_count` elements that the header
    /// announces count, and none after the first unreadable one is looked at.
    pub fn sample(
        &self,
        out: &mut Reading,
        section: Option<Option<Header>>,
        elements: &Vec<Option<Element>>,
    ) -> (s: Sampled)
        ensures
            s == (if self.established() && (section matches Some(Some(h)) && header_valid(h)) {
                Sampled::Answered
            } else {
                Sampled::Lost
            }),
            section matches Some(Some(h)) ==> (s == Sampled::Answered ==> final(out).measured()
                == absorbed(old(out).measured(), elements@, readable_prefix(announced(elements@, h)))),
            s == Sampled::Lost ==> final(out).measured() == old(out).measured(),
            final(out).cpu() == old(out).cpu(),
            final(out).stamp() == old(out).stamp(),
    {
        if !self.available {
            return Sampled::Lost;
        }
        let h = match section {
            Some(Some(h)) => h,
            _ => return Sampled::Lost,
        };
        if !Self::header_ok(&h) {
            return Sampled::Lost;
        }
        let limit: usize = if elements.len() <= h.reading_count as usize {
            elements.len()
        } else {
            h.reading_count as usize
        };
        let ghost counted = announced(elements@, h);
        assert(counted.len() == limit);
        let mut i: usize = 0;
        while i < limit
            invariant
                limit <= elements.len(),
                i <= limit,
                forall|j: int| 0 <= j < i ==> (#[trigger] elements@[j]) is Some,
                out.measured() == absorbed(old(out).measured(), elements@, i as int),
                out.cpu() == old(out).cpu(),
                out.stamp() == old(out).stamp(),
            ensures
                i <= limit,
                forall|j: int| 0 <= j < i ==> (#[trigger] elements@[j]) is Some,
                i == limit || elements@[i as int] is None,
                out.measured() == absorbed(old(out).measured(), elements@, i as int),
                out.cpu() == old(out).cpu(),
                out.stamp() == old(out).stamp(),
            decreases limit - i,
        {
            let e = match &elements[i] {
                Some(e) => e,
                None => {
                    break;
                },
            };
            if e.value.is_finite() {
                let label = to_lowercase(c_string(e.label_orig.as_slice()).as_str());
                match Self::classify(e.reading_type, label.as_str()) {
                    Some(m) => out.offer(m, e.value, ID),
                    None => {},
                }
            }
            i = i + 1;
        }
        proof {
            assert forall|j: int| 0 <= j < i implies (#[trigger] counted[j]) is Some by {
                assert(counted[j] == elements@[j]);
            }
            if i < limit {
                assert(counted[i as int] == elements@[i as int]);
            }
            lemma_readable_prefix(counted, i as int);
        }
        Sampled::Answered
    }
}

proof fn lemma_readable_prefix(elements: Seq<Option<Element>>, i: int)
    requires
        0 <= i <= elements.len(),
        forall|j: int| 0 <= j < i ==> (#[trigger] elements[j]) is Some,
        i == elements.len() || elements[i] is None,
    ensures
        readable_prefix(elements) == i,
    decreases i,
{
    if i > 0 {
        assert forall|j: int| 0 <= j < i - 1 implies (#[trigger] elements.drop_first()[j]) is Some by {
            assert(elements.drop_first()[j] == elements[j + 1]);
        }
        lemma_readable_prefix(elements.drop_first(), i - 1);
    }
}

/// A finite power reading (type 5) is the package power exactly when its lowercased
/// original label contains « cpu package power »; any other power reading, such as the
/// core power that HWiNFO lists before it on a Ryzen, offers nothing. Likewise a finite
/// temperature reading (type 1) is the package temperature exactly when the label
/// contains « cpu package ».
pub proof fn law_only_the_package_readings_count(values: Map<Metric, crate::sensors::metric::Sample>, e: Element)
    requires
        e.value.finite(),
    ensures
        e.reading_type == 5 ==> element_effect(values, e) == (if has_part(
            lowercase(c_text(e.label_orig@)),
            "cpu package power"@,
        ) {
            offered(values, Metric::CpuPowerW, e.value, ID)
        } else {
            values
        }),
        e.reading_type == 1 ==> element_effect(values, e) == (if has_part(
            lowercase(c_text(e.label_orig@)),
            "cpu package"@,
        ) {
            offered(values, Metric::CpuTempC, e.value, ID)
        } else {
            values
        }),
        e.reading_type != 1 && e.reading_type != 5 ==> element_effect(values, e) == values,
{
}

/// The driver measures nothing but what it declares: CPU package temperature and power.
pub proof fn law_hwinfo_offers_only_what_it_declares(
    values: Map<Metric, crate::sensors::metric::Sample>,
    elements: Seq<Option<Element>>,
    n: int,
)
    ensures
        only_adds(values, absorbed(values, elements, n), seq![Metric::CpuTempC, Metric::CpuPowerW]),
    decreases n,
{
    let allowed = seq![Metric::CpuTempC, Metric::CpuPowerW];
    if n > 0 {
        law_hwinfo_offers_only_what_it_declares(values, elements, n - 1);
        assert(allowed[0] == Metric::CpuTempC);
        assert(allowed[1] == Metric::CpuPowerW);
    }
}

} // verus!
