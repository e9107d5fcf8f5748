//! AMD/Radeon GPU driver — WMI namespace `root\LibreHardwareMonitor`.
//!
//! AMD ships no equivalent of `nvidia-smi` with its graphics driver: the only way without
//! a native SDK goes through LibreHardwareMonitor, which publishes the card's sensors
//! under the identifiers `/gpu-amd/<n>/...` (`/amdgpu/<n>/...` on OpenHardwareMonitor).
//! Same source as `libre_hw`, but a distinct provider: `provides` must stay exact.
//!
//! **One card only**: the one with the smallest index.

use vstd::prelude::*;

use crate::sensors::metric::{
    first_finite, law_first_served_wins, lemma_offers_only_add_what_they_name, offered, only_adds,
    Metric, Reading, Sample, Value,
};
use crate::sensors::provider::{ProbeState, ProbeStateView, ProviderInfo, ProviderKind};
use crate::sensors::wmi_context::{column_or_empty, column_text, WmiRow};
use crate::text::{
    begins_with, chars_of, concat, has_part, lowercase, parse_u64, parsed_u64, precedes,
    starts_with, str_contains, str_eq, str_starts_with, string_of_range, to_lowercase,
};

verus! {

pub const ID: &'static str = "amd-gpu";

/// The two spellings met: LHM renamed the hardware type, OHM keeps the old one.
pub const MARKER_LHM: &'static str = "/gpu-amd/";

pub const MARKER_OHM: &'static str = "/amdgpu/";

pub open spec fn amd_marked(id: Seq<char>) -> bool {
    begins_with(id, MARKER_LHM@) || begins_with(id, MARKER_OHM@)
}

/// Index of the `n`-th (from zero) slash at or after position `i`.
pub open spec fn slash_from(s: Seq<char>, i: int, n: nat) -> Option<int>
    decreases s.len() - i,
{
    if i < 0 || i >= s.len() {
        None
    } else if s[i] == '/' {
        if n == 0 {
            Some(i)
        } else {
            slash_from(s, i + 1, (n - 1) as nat)
        }
    } else {
        slash_from(s, i + 1, n)
    }
}

/// `/gpu-amd/0/temperature/0` → `/gpu-amd/0`: the identifier up to its third slash,
/// for the identifiers of an AMD card. Without a third slash the identifier is truncated,
/// with no sensor behind it.
pub open spec fn amd_prefix(id: Seq<char>) -> Option<Seq<char>> {
    if !amd_marked(id) {
        None
    } else {
        match slash_from(id, 0, 2) {
            Some(k) => Some(id.take(k)),
            None => None,
        }
    }
}

/// The card a sensor identifier belongs to. Serves to keep a single card.
pub fn instance_prefix(identifier: &str) -> (r: Option<String>)
    ensures
        r matches Some(p) ==> amd_prefix(identifier@) == Some(p@),
        r is None ==> amd_prefix(identifier@) is None,
{
    if !(str_starts_with(identifier, MARKER_LHM) || str_starts_with(identifier, MARKER_OHM)) {
        return None;
    }
    let v = chars_of(identifier);
    let mut i: usize = 0;
    let mut left: u64 = 2;
    while i < v.len()
        invariant
            i <= v.len(),
            v@ == identifier@,
            left <= 2,
            amd_marked(identifier@),
            slash_from(v@, 0, 2) == slash_from(v@, i as int, left as nat),
        decreases v.len() - i,
    {
        if v[i] == '/' {
            if left == 0 {
                let p = string_of_range(&v, 0, i);
                assert(v@.subrange(0, i as int) == v@.take(i as int));
                assert(slash_from(v@, i as int, 0) == Some(i as int));
                assert(amd_marked(identifier@));
                return Some(p);
            }
            left = left - 1;
        }
        i = i + 1;
    }
    None
}

/// The card a row belongs to, if it is an AMD card's sensor.
pub open spec fn row_prefix(r: WmiRow) -> Option<Seq<char>> {
    match r.identifier {
        Some(id) => amd_prefix(id@),
        None => None,
    }
}

/// The text of a card's index: what follows the marker in its prefix.
pub open spec fn index_text(p: Seq<char>) -> Seq<char> {
    if begins_with(p, MARKER_LHM@) {
        p.skip(MARKER_LHM@.len() as int)
    } else if begins_with(p, MARKER_OHM@) {
        p.skip(MARKER_OHM@.len() as int)
    } else {
        p
    }
}

/// The index of a card, when it is a decimal number.
pub open spec fn card_index(p: Seq<char>) -> Option<nat> {
    parsed_u64(index_text(p))
}

/// Card `p` comes before card `q`: by index, as numbers — `/gpu-amd/2` before
/// `/gpu-amd/10`. A numbered card comes before one whose index is no number, and the
/// text decides between two cards that the numbers do not tell apart.
pub open spec fn card_before(p: Seq<char>, q: Seq<char>) -> bool {
    match (card_index(p), card_index(q)) {
        (Some(a), Some(b)) => a < b || (a == b && precedes(p, q)),
        (Some(_), None) => true,
        (None, Some(_)) => false,
        (None, None) => precedes(p, q),
    }
}

/// The card with the smallest index among the rows `rows[..n]`.
pub open spec fn lowest_prefix(rows: Seq<WmiRow>, n: int) -> Option<Seq<char>>
    decreases n,
{
    if n <= 0 {
        None
    } else {
        let acc = lowest_prefix(rows, n - 1);
        match row_prefix(rows[n - 1]) {
            Some(p) => if acc is None || card_before(p, acc->0) {
                Some(p)
            } else {
                acc
            },
            None => acc,
        }
    }
}

/// The card kept has the smallest index: no card among the rows has a smaller number,
/// and a card is kept as soon as one of them has a numbered index.
pub proof fn law_the_card_with_the_smallest_index_is_kept(rows: Seq<WmiRow>, n: int, i: int)
    requires
        0 <= i < n <= rows.len(),
        row_prefix(rows[i]) is Some,
        card_index(row_prefix(rows[i])->0) is Some,
    ensures
        lowest_prefix(rows, n) is Some,
        card_index(lowest_prefix(rows, n)->0) is Some,
        card_index(lowest_prefix(rows, n)->0)->0 <= card_index(row_prefix(rows[i])->0)->0,
    decreases n,
{
    let acc = lowest_prefix(rows, n - 1);
    if i < n - 1 {
        law_the_card_with_the_smallest_index_is_kept(rows, n - 1, i);
    } else {
        lemma_numbered_card_stays_numbered(rows, n - 1);
    }
}

/// Once a numbered card was met, the card kept stays numbered, and never grows.
proof fn lemma_numbered_card_stays_numbered(rows: Seq<WmiRow>, n: int)
    requires
        0 <= n <= rows.len(),
    ensures
        lowest_prefix(rows, n) is Some && card_index(lowest_prefix(rows, n)->0) is Some
            ==> lowest_prefix(rows, n + 1) is Some && card_index(lowest_prefix(rows, n + 1)->0) is Some
            && card_index(lowest_prefix(rows, n + 1)->0)->0 <= card_index(lowest_prefix(rows, n)->0)->0,
{
}

/// The rows of the retained card that carry a value. The final separator keeps
/// `/gpu-amd/1` from capturing the sensors of `/gpu-amd/10`.
pub open spec fn of_card(r: WmiRow, target: Seq<char>) -> bool {
    &&& r.identifier is Some
    &&& begins_with(r.identifier->0@, target + "/"@)
    &&& r.value is Some
}

pub open spec fn kind_is(r: WmiRow, kind: Seq<char>) -> bool {
    column_text(r.sensor_type) == kind
}

pub open spec fn name_has(r: WmiRow, part: Seq<char>) -> bool {
    has_part(lowercase(column_text(r.name)), part)
}

/// What a row is to the driver. « GPU Core » is the reference temperature and the first
/// other temperature the fallback (hot spot without core on some RDNA); package (or PPT)
/// power is the reference and core power the fallback.
#[derive(Debug, Clone, Copy, PartialEq, Eq, Structural)]
pub enum Role {
    CoreTemp,
    OtherTemp,
    BoardPower,
    CorePower,
    Clock,
    Load,
    Ignored,
}

pub open spec fn role(r: WmiRow, target: Seq<char>) -> Role {
    if !of_card(r, target) {
        Role::Ignored
    } else if kind_is(r, "Temperature"@) {
        if name_has(r, "core"@) {
            Role::CoreTemp
        } else {
            Role::OtherTemp
        }
    } else if kind_is(r, "Power"@) {
        if name_has(r, "package"@) || name_has(r, "ppt"@) {
            Role::BoardPower
        } else if name_has(r, "core"@) {
            Role::CorePower
        } else {
            Role::Ignored
        }
    } else if kind_is(r, "Clock"@) && name_has(r, "core"@) {
        Role::Clock
    } else if kind_is(r, "Load"@) && name_has(r, "core"@) {
        Role::Load
    } else {
        Role::Ignored
    }
}

/// The clock and load offers of the card's rows, in row order.
pub open spec fn direct_offers(rows: Seq<WmiRow>, target: Seq<char>, n: int) -> Seq<
    (Metric, Value, &'static str),
>
    decreases n,
{
    if n <= 0 {
        Seq::empty()
    } else {
        let prev = direct_offers(rows, target, n - 1);
        let r = rows[n - 1];
        match role(r, target) {
            Role::Clock => prev.push((Metric::GpuClockMhz, r.value->0, ID)),
            Role::Load => prev.push((Metric::GpuUtilPct, r.value->0, ID)),
            _ => prev,
        }
    }
}

/// The value of the last of `rows[..n]` that plays `which`.
pub open spec fn last_value(rows: Seq<WmiRow>, target: Seq<char>, which: Role, n: int) -> Option<
    Value,
>
    decreases n,
{
    if n <= 0 {
        None
    } else if role(rows[n - 1], target) == which {
        Some(rows[n - 1].value->0)
    } else {
        last_value(rows, target, which, n - 1)
    }
}

/// The value of the first of `rows[..n]` that plays `which`.
pub open spec fn first_value(rows: Seq<WmiRow>, target: Seq<char>, which: Role, n: int) -> Option<
    Value,
>
    decreases n,
{
    if n <= 0 {
        None
    } else {
        match first_value(rows, target, which, n - 1) {
            Some(v) => Some(v),
            None => if role(rows[n - 1], target) == which {
                Some(rows[n - 1].value->0)
            } else {
                None
            },
        }
    }
}

pub open spec fn either(a: Option<Value>, b: Option<Value>) -> Option<Value> {
    if a is Some {
        a
    } else {
        b
    }
}

pub open spec fn offer_opt(
    values: Map<Metric, Sample>,
    m: Metric,
    v: Option<Value>,
) -> Map<Metric, Sample> {
    match v {
        Some(x) => offered(values, m, x, ID),
        None => values,
    }
}

/// What one sampling of the rows does to the measured values.
pub open spec fn amd_effect(values: Map<Metric, Sample>, rows: Seq<WmiRow>) -> Map<Metric, Sample> {
    match lowest_prefix(rows, rows.len() as int) {
        None => values,
        Some(target) => {
            let n = rows.len() as int;
            let direct = crate::sensors::metric::offered_all(values, direct_offers(rows, target, n));
            let with_temp = offer_opt(
                direct,
                Metric::GpuTempC,
                either(
                    last_value(rows, target, Role::CoreTemp, n),
                    first_value(rows, target, Role::OtherTemp, n),
                ),
            );
            offer_opt(
                with_temp,
                Metric::GpuPowerW,
                either(
                    last_value(rows, target, Role::BoardPower, n),
                    last_value(rows, target, Role::CorePower, n),
                ),
            )
        },
    }
}

/// LHM is running and publishes at least one sensor of an AMD card.
pub open spec fn has_amd(rows: Seq<WmiRow>) -> bool {
    exists|i: int| 0 <= i < rows.len() && (#[trigger] row_prefix(rows[i])) is Some
}

pub struct AmdGpuProvider {
    connected: bool,
}

impl AmdGpuProvider {
    /// A connection to the sensors was established by the last probe.
    pub closed spec fn established(self) -> bool {
        self.connected
    }

    pub fn new() -> (p: AmdGpuProvider)
        ensures
            !p.established(),
    {
        AmdGpuProvider { connected: false }
    }

    pub fn info(&self) -> (i: ProviderInfo)
        ensures
            i.id == ID,
            i.name == "GPU AMD (LibreHardwareMonitor)",
            i.kind == ProviderKind::External,
            i.provides@ == seq![
                Metric::GpuTempC,
                Metric::GpuPowerW,
                Metric::GpuClockMhz,
                Metric::GpuUtilPct,
            ],
            i.url == Some("https://github.com/LibreHardwareMonitor/LibreHardwareMonitor"),
    {
        ProviderInfo {
            id: ID,
            name: "GPU AMD (LibreHardwareMonitor)",
            kind: ProviderKind::External,
            provides: vec![
                Metric::GpuTempC,
                Metric::GpuPowerW,
                Metric::GpuClockMhz,
                Metric::GpuUtilPct,
            ],
            url: Some("https://github.com/LibreHardwareMonitor/LibreHardwareMonitor"),
        }
    }

    /// Whether any row is a sensor of an AMD card.
    pub fn any_amd(rows: &Vec<WmiRow>) -> (b: bool)
        ensures
            b == has_amd(rows@),
    {
        let mut i: usize = 0;
        while i < rows.len()
            invariant
                i <= rows.len(),
                forall|j: int| 0 <= j < i ==> (#[trigger] row_prefix(rows@[j])) is None,
            decreases rows.len() - i,
        {
            let found = match &rows[i].identifier {
                Some(id) => instance_prefix(id.as_str()).is_some(),
                None => false,
            };
            if found {
                assert(row_prefix(rows@[i as int]) is Some);
                return true;
            }
            i = i + 1;
        }
        false
    }

    /// Settles the probe from the sensors read (`None` when no namespace answered, or
    /// when COM was missing — `com` says which). LHM present does not mean an AMD card
    /// present: without a `/gpu-amd/` sensor nothing would ever be measured, and saying
    /// so beats declaring itself ready.
    pub fn probe_outcome(&mut self, com: bool, rows: Option<&Vec<WmiRow>>) -> (p: ProbeState)
        ensures
            !com ==> p@ == (ProbeStateView::Failed { error: "COM indisponible"@ })
                && final(self).established() == old(self).established(),
            com && rows is None ==> !final(self).established() && p@ == (
            ProbeStateView::Unavailable {
                reason: "LibreHardwareMonitor ne tourne pas"@,
                hint: Some("Lancer LibreHardwareMonitor en administrateur."@),
            }),
            (com && (rows matches Some(r) && !has_amd(r@))) ==> !final(self).established() && p@
                == (ProbeStateView::Unavailable {
                reason: "aucun GPU AMD parmi les capteurs de LibreHardwareMonitor"@,
                hint: None,
            }),
            (com && (rows matches Some(r) && has_amd(r@))) ==> final(self).established() && p@
                == ProbeStateView::Ready,
    {
        if !com {
            return ProbeState::failed("COM indisponible");
        }
        match rows {
            None => {
                self.connected = false;
                ProbeState::unavailable(
                    "LibreHardwareMonitor ne tourne pas",
                    "Lancer LibreHardwareMonitor en administrateur.",
                )
            },
            Some(rows) => {
                if Self::any_amd(rows) {
                    self.connected = true;
                    ProbeState::Ready
                } else {
                    self.connected = false;
                    ProbeState::unavailable_only(
                        "aucun GPU AMD parmi les capteurs de LibreHardwareMonitor",
                    )
                }
            },
        }
    }

    /// The index of a card, when it is a decimal number.
    fn index_of(p: &Vec<char>) -> (r: Option<u64>)
        ensures
            match r {
                Some(k) => card_index(p@) == Some(k as nat),
                None => card_index(p@) is None,
            },
    {
        proof {
            reveal_strlit("/gpu-amd/");
            reveal_strlit("/amdgpu/");
        }
        let lhm = chars_of(MARKER_LHM);
        let ohm = chars_of(MARKER_OHM);
        let from: usize = if starts_with(p, &lhm) {
            9
        } else if starts_with(p, &ohm) {
            8
        } else {
            0
        };
        let text = string_of_range(p, from, p.len());
        let digits = chars_of(text.as_str());
        assert(digits@ == index_text(p@));
        parse_u64(&digits)
    }

    /// Card `p` comes before card `q`.
    fn before(p: &Vec<char>, q: &Vec<char>) -> (b: bool)
        ensures
            b == card_before(p@, q@),
    {
        match (Self::index_of(p), Self::index_of(q)) {
            (Some(a), Some(b)) => a < b || (a == b && crate::text::less(p, q)),
            (Some(_), None) => true,
            (None, Some(_)) => false,
            (None, None) => crate::text::less(p, q),
        }
    }

    /// The card with the smallest index among the rows.
    pub fn target(rows: &Vec<WmiRow>) -> (t: Option<String>)
        ensures
            t matches Some(s) ==> lowest_prefix(rows@, rows.len() as int) == Some(s@),
            t is None ==> lowest_prefix(rows@, rows.len() as int) is None,
    {
        let mut target: Option<Vec<char>> = None;
        let mut i: usize = 0;
        while i < rows.len()
            invariant
                i <= rows.len(),
                target matches Some(t) ==> lowest_prefix(rows@, i as int) == Some(t@),
                target is None ==> lowest_prefix(rows@, i as int) is None,
            decreases rows.len() - i,
        {
            let prefix = match &rows[i].identifier {
                Some(id) => instance_prefix(id.as_str()),
                None => None,
            };
            match prefix {
                Some(p) => {
                    let pv = chars_of(p.as_str());
                    let better = match &target {
                        None => true,
                        Some(t) => Self::before(&pv, t),
                    };
                    if better {
                        target = Some(pv);
                    }
                },
                None => {},
            }
            i = i + 1;
        }
        match target {
            Some(t) => Some(crate::text::string_of(&t)),
            None => None,
        }
    }

    /// What a row is to the driver, `card` being the retained card followed by a slash.
    fn role_of(r: &WmiRow, card: &String, Ghost(target): Ghost<Seq<char>>) -> (k: Role)
        requires
            card@ == target + "/"@,
        ensures
            k == role(*r, target),
            k != Role::Ignored ==> r.value is Some,
    {
        proof {
            reveal_strlit("Temperature");
            reveal_strlit("Power");
            reveal_strlit("Clock");
            reveal_strlit("Load");
        }
        let on_card = match &r.identifier {
            Some(id) => str_starts_with(id.as_str(), card.as_str()),
            None => false,
        };
        if !on_card || r.value.is_none() {
            return Role::Ignored;
        }
        let kind = column_or_empty(&r.sensor_type);
        let name = to_lowercase(column_or_empty(&r.name).as_str());
        if str_eq(kind.as_str(), "Temperature") {
            if str_contains(name.as_str(), "core") {
                Role::CoreTemp
            } else {
                Role::OtherTemp
            }
        } else if str_eq(kind.as_str(), "Power") {
            if str_contains(name.as_str(), "package") || str_contains(name.as_str(), "ppt") {
                Role::BoardPower
            } else if str_contains(name.as_str(), "core") {
                Role::CorePower
            } else {
                Role::Ignored
            }
        } else if str_eq(kind.as_str(), "Clock") && str_contains(name.as_str(), "core") {
            Role::Clock
        } else if str_eq(kind.as_str(), "Load") && str_contains(name.as_str(), "core") {
            Role::Load
        } else {
            Role::Ignored
        }
    }

    /// One sampling of the sensors read. Only the retained card's sensors count; the
    /// reference measure of each quantity is preferred to its fallbacks.
    pub fn absorb(out: &mut Reading, rows: &Vec<WmiRow>)
        ensures
            final(out).measured() == amd_effect(old(out).measured(), rows@),
            final(out).cpu() == old(out).cpu(),
            final(out).stamp() == old(out).stamp(),
    {
        let target = match Self::target(rows) {
            Some(t) => t,
            None => return,
        };
        let card = concat(target.as_str(), "/");
        let ghost t = target@;
        let ghost n = rows.len() as int;
        let mut core_t: Option<Value> = None;
        let mut any_t: Option<Value> = None;
        let mut board_p: Option<Value> = None;
        let mut core_p: Option<Value> = None;
        let mut i: usize = 0;
        while i < rows.len()
            invariant
                i <= rows.len(),
                card@ == t + "/"@,
                lowest_prefix(rows@, rows.len() as int) == Some(t),
                out.measured() == crate::sensors::metric::offered_all(
                    old(out).measured(),
                    direct_offers(rows@, t, i as int),
                ),
                core_t == last_value(rows@, t, Role::CoreTemp, i as int),
                any_t == first_value(rows@, t, Role::OtherTemp, i as int),
                board_p == last_value(rows@, t, Role::BoardPower, i as int),
                core_p == last_value(rows@, t, Role::CorePower, i as int),
                out.cpu() == old(out).cpu(),
                out.stamp() == old(out).stamp(),
            decreases rows.len() - i,
        {
            let ghost before = direct_offers(rows@, t, i as int);
            let which = Self::role_of(&rows[i], &card, Ghost(t));
            match which {
                Role::CoreTemp => {
                    core_t = rows[i].value;
                },
                Role::OtherTemp => {
                    if any_t.is_none() {
                        any_t = rows[i].value;
                    }
                },
                Role::BoardPower => {
                    board_p = rows[i].value;
                },
                Role::CorePower => {
                    core_p = rows[i].value;
                },
                Role::Clock => {
                    out.offer(Metric::GpuClockMhz, rows[i].value.unwrap(), ID);
                    assert(before.push((Metric::GpuClockMhz, rows@[i as int].value->0, ID)).drop_last()
                        == before);
                },
                Role::Load => {
                    out.offer(Metric::GpuUtilPct, rows[i].value.unwrap(), ID);
                    assert(before.push((Metric::GpuUtilPct, rows@[i as int].value->0, ID)).drop_last()
                        == before);
                },
                Role::Ignored => {},
            }
            i = i + 1;
        }
        let temp = if core_t.is_some() { core_t } else { any_t };
        match temp {
            Some(v) => out.offer(Metric::GpuTempC, v, ID),
            None => {},
        }
        let power = if board_p.is_some() { board_p } else { core_p };
        match power {
            Some(v) => out.offer(Metric::GpuPowerW, v, ID),
            None => {},
        }
    }
}

/// The clock and load offers of the card name only those two quantities.
proof fn lemma_direct_offers_named(rows: Seq<WmiRow>, target: Seq<char>, n: int)
    ensures
        forall|j: int|
            0 <= j < direct_offers(rows, target, n).len() ==> (#[trigger] direct_offers(
                rows,
                target,
                n,
            )[j]).0 == Metric::GpuClockMhz || direct_offers(rows, target, n)[j].0
                == Metric::GpuUtilPct,
    decreases n,
{
    if n > 0 {
        lemma_direct_offers_named(rows, target, n - 1);
    }
}

/// The driver measures nothing but what its card declares: GPU temperature, power,
/// clock and load.
pub proof fn law_amd_offers_only_what_it_declares(values: Map<Metric, Sample>, rows: Seq<WmiRow>)
    ensures
        only_adds(
            values,
            amd_effect(values, rows),
            seq![Metric::GpuTempC, Metric::GpuPowerW, Metric::GpuClockMhz, Metric::GpuUtilPct],
        ),
{
    let allowed = seq![Metric::GpuTempC, Metric::GpuPowerW, Metric::GpuClockMhz, Metric::GpuUtilPct];
    match lowest_prefix(rows, rows.len() as int) {
        None => {},
        Some(t) => {
            let offers = direct_offers(rows, t, rows.len() as int);
            lemma_direct_offers_named(rows, t, rows.len() as int);
            assert forall|j: int| 0 <= j < offers.len() implies allowed.contains(
                #[trigger] offers[j].0,
            ) by {
                if offers[j].0 == Metric::GpuClockMhz {
                    assert(allowed[2] == offers[j].0);
                } else {
                    assert(allowed[3] == offers[j].0);
                }
            }
            lemma_offers_only_add_what_they_name(values, offers, allowed);
            assert(allowed[0] == Metric::GpuTempC);
            assert(allowed[1] == Metric::GpuPowerW);
        },
    }
}

/// A temperature sensor of card `target` whose label names the core.
pub open spec fn core_temp_row(r: WmiRow, target: Seq<char>) -> bool {
    of_card(r, target) && kind_is(r, "Temperature"@) && name_has(r, "core"@)
}

/// The clock and load offers name no temperature and no power.
proof fn lemma_direct_offers_skip_temperature_and_power(rows: Seq<WmiRow>, target: Seq<char>, n: int)
    ensures
        first_finite(direct_offers(rows, target, n), Metric::GpuTempC) is None,
        first_finite(direct_offers(rows, target, n), Metric::GpuPowerW) is None,
    decreases n,
{
    if n > 0 {
        lemma_direct_offers_skip_temperature_and_power(rows, target, n - 1);
        let prev = direct_offers(rows, target, n - 1);
        let r = rows[n - 1];
        match role(r, target) {
            Role::Clock => {
                assert(prev.push((Metric::GpuClockMhz, r.value->0, ID)).drop_last() =~= prev);
            },
            Role::Load => {
                assert(prev.push((Metric::GpuUtilPct, r.value->0, ID)).drop_last() =~= prev);
            },
            _ => {},
        }
    }
}

/// The last row among `rows[..n]` that plays `which` is row `i`.
proof fn lemma_last_value_is(rows: Seq<WmiRow>, target: Seq<char>, which: Role, i: int, n: int)
    requires
        0 <= i < n <= rows.len(),
        role(rows[i], target) == which,
        forall|j: int| i < j < n ==> role(#[trigger] rows[j], target) != which,
    ensures
        last_value(rows, target, which, n) == Some(rows[i].value->0),
    decreases n,
{
    if n - 1 > i {
        lemma_last_value_is(rows, target, which, i, n - 1);
    }
}

/// The first row among `rows[..n]` that plays `which` is row `i`.
proof fn lemma_first_value_is(rows: Seq<WmiRow>, target: Seq<char>, which: Role, i: int, n: int)
    requires
        0 <= i < n <= rows.len(),
        role(rows[i], target) == which,
        forall|j: int| 0 <= j < i ==> role(#[trigger] rows[j], target) != which,
    ensures
        first_value(rows, target, which, n) == Some(rows[i].value->0),
    decreases n,
{
    if n - 1 > i {
        lemma_first_value_is(rows, target, which, i, n - 1);
    } else {
        lemma_first_value_none(rows, target, which, i);
    }
}

proof fn lemma_first_value_none(rows: Seq<WmiRow>, target: Seq<char>, which: Role, n: int)
    requires
        0 <= n <= rows.len(),
        forall|j: int| 0 <= j < n ==> role(#[trigger] rows[j], target) != which,
    ensures
        first_value(rows, target, which, n) is None,
    decreases n,
{
    if n > 0 {
        lemma_first_value_none(rows, target, which, n - 1);
    }
}

proof fn lemma_last_value_none(rows: Seq<WmiRow>, target: Seq<char>, which: Role, n: int)
    requires
        0 <= n <= rows.len(),
        forall|j: int| 0 <= j < n ==> role(#[trigger] rows[j], target) != which,
    ensures
        last_value(rows, target, which, n) is None,
    decreases n,
{
    if n > 0 {
        lemma_last_value_none(rows, target, which, n - 1);
    }
}

/// The temperature the sampling gives, when it picks the finite value `v`.
proof fn lemma_temperature_taken(values: Map<Metric, Sample>, rows: Seq<WmiRow>, v: Value)
    requires
        lowest_prefix(rows, rows.len() as int) is Some,
        !values.contains_key(Metric::GpuTempC),
        v.finite(),
        ({
            let target = lowest_prefix(rows, rows.len() as int)->0;
            let n = rows.len() as int;
            either(
                last_value(rows, target, Role::CoreTemp, n),
                first_value(rows, target, Role::OtherTemp, n),
            ) == Some(v)
        }),
    ensures
        amd_effect(values, rows).contains_key(Metric::GpuTempC),
        amd_effect(values, rows)[Metric::GpuTempC] == (Sample { value: v, provider: ID }),
{
    let target = lowest_prefix(rows, rows.len() as int)->0;
    let n = rows.len() as int;
    let offers = direct_offers(rows, target, n);
    lemma_direct_offers_skip_temperature_and_power(rows, target, n);
    law_first_served_wins(values, offers, Metric::GpuTempC);
}

/// « GPU Core » is the reference temperature of the retained card: when the card has a
/// temperature sensor whose label names the core, the GPU temperature is the value of the
/// last such sensor, whatever other temperatures (such as the hot spot) the card reports.
pub proof fn law_the_core_temperature_is_the_reference(
    values: Map<Metric, Sample>,
    rows: Seq<WmiRow>,
    i: int,
)
    requires
        lowest_prefix(rows, rows.len() as int) is Some,
        0 <= i < rows.len(),
        core_temp_row(rows[i], lowest_prefix(rows, rows.len() as int)->0),
        forall|j: int|
            i < j < rows.len() ==> !core_temp_row(
                #[trigger] rows[j],
                lowest_prefix(rows, rows.len() as int)->0,
            ),
        rows[i].value->0.finite(),
        !values.contains_key(Metric::GpuTempC),
    ensures
        amd_effect(values, rows).contains_key(Metric::GpuTempC),
        amd_effect(values, rows)[Metric::GpuTempC] == (Sample { value: rows[i].value->0, provider: ID }),
{
    let target = lowest_prefix(rows, rows.len() as int)->0;
    let n = rows.len() as int;
    assert forall|j: int| i < j < n implies role(#[trigger] rows[j], target) != Role::CoreTemp by {
        assert(!core_temp_row(rows[j], target));
    }
    lemma_last_value_is(rows, target, Role::CoreTemp, i, n);
    lemma_temperature_taken(values, rows, rows[i].value->0);
}

/// Another temperature (hot spot, junction) is only the fallback: with no sensor of the
/// retained card naming the core, the GPU temperature is the first other temperature of
/// that card.
pub proof fn law_another_temperature_is_only_the_fallback(
    values: Map<Metric, Sample>,
    rows: Seq<WmiRow>,
    i: int,
)
    requires
        lowest_prefix(rows, rows.len() as int) is Some,
        forall|j: int|
            0 <= j < rows.len() ==> !core_temp_row(
                #[trigger] rows[j],
                lowest_prefix(rows, rows.len() as int)->0,
            ),
        0 <= i < rows.len(),
        of_card(rows[i], lowest_prefix(rows, rows.len() as int)->0),
        kind_is(rows[i], "Temperature"@),
        forall|j: int|
            0 <= j < i ==> !(of_card(#[trigger] rows[j], lowest_prefix(rows, rows.len() as int)->0)
                && kind_is(rows[j], "Temperature"@)),
        rows[i].value->0.finite(),
        !values.contains_key(Metric::GpuTempC),
    ensures
        amd_effect(values, rows).contains_key(Metric::GpuTempC),
        amd_effect(values, rows)[Metric::GpuTempC] == (Sample { value: rows[i].value->0, provider: ID }),
{
    let target = lowest_prefix(rows, rows.len() as int)->0;
    let n = rows.len() as int;
    assert forall|j: int| 0 <= j < n implies role(#[trigger] rows[j], target) != Role::CoreTemp by {
        assert(!core_temp_row(rows[j], target));
    }
    assert(!core_temp_row(rows[i], target));
    assert forall|j: int| 0 <= j < i implies role(#[trigger] rows[j], target) != Role::OtherTemp by {
        assert(!(of_card(rows[j], target) && kind_is(rows[j], "Temperature"@)));
    }
    lemma_last_value_none(rows, target, Role::CoreTemp, n);
    lemma_first_value_is(rows, target, Role::OtherTemp, i, n);
    lemma_temperature_taken(values, rows, rows[i].value->0);
}

} // verus!
