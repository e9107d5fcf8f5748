//! NVIDIA GPU driver — `nvidia-smi`.
//!
//! The tool is installed with the graphics driver: nothing more to provide, and no
//! privilege required. A process per poll costs little at 1 Hz, in exchange for a stable
//! and documented interface.

use vstd::prelude::*;

use crate::i18n::{pick, wording, Lang};
use crate::sensors::metric::{offered, only_adds, Metric, Reading, Sample, Value};
use crate::sensors::provider::{ProbeState, ProbeStateView, ProviderInfo, ProviderKind, Sampled};
use crate::text::{first_line, first_line_of, has_part, split, split_on, str_contains, str_trim, trimmed, views};

verus! {

pub const ID: &'static str = "nvidia-smi";

pub const QUERY: &'static str = "--query-gpu=temperature.gpu,power.draw,clocks.sm,utilization.gpu";

pub const FORMAT: &'static str = "--format=csv,noheader,nounits";

/// The quantities of the columns, in the order of `QUERY`.
pub open spec fn column_metrics() -> Seq<Metric> {
    seq![Metric::GpuTempC, Metric::GpuPowerW, Metric::GpuClockMhz, Metric::GpuUtilPct]
}

pub fn columns() -> (v: Vec<Metric>)
    ensures
        v@ == column_metrics(),
{
    vec![Metric::GpuTempC, Metric::GpuPowerW, Metric::GpuClockMhz, Metric::GpuUtilPct]
}

/// The first line of the answer is a line of values: it holds a comma.
pub open spec fn answers_values(output: Seq<char>) -> bool {
    first_line(output) matches Some(l) && has_part(l, ","@)
}

/// The measured values after the parsed fields `fields[..n]` were offered, field `i`
/// standing for column `i`.
pub open spec fn columns_absorbed(
    values: Map<Metric, Sample>,
    fields: Seq<Option<Value>>,
    n: int,
) -> Map<Metric, Sample>
    decreases n,
{
    if n <= 0 {
        values
    } else {
        let prev = columns_absorbed(values, fields, n - 1);
        match fields[n - 1] {
            Some(v) => offered(prev, column_metrics()[n - 1], v, ID),
            None => prev,
        }
    }
}

pub struct NvidiaProvider {
    available: bool,
}

impl NvidiaProvider {
    /// The tool answered the last probe.
    pub closed spec fn established(self) -> bool {
        self.available
    }

    pub fn new() -> (p: NvidiaProvider)
        ensures
            !p.established(),
    {
        NvidiaProvider { available: false }
    }

    pub fn info(&self) -> (i: ProviderInfo)
        ensures
            i.id == ID,
            i.name == "NVIDIA (nvidia-smi)",
            i.kind == ProviderKind::Builtin,
            i.provides@ == column_metrics(),
            i.url is None,
    {
        ProviderInfo {
            id: ID,
            name: "NVIDIA (nvidia-smi)",
            kind: ProviderKind::Builtin,
            provides: columns(),
            url: None,
        }
    }

    /// Settles the probe from the output of the query (`None` when the tool could not be
    /// run or failed). An answer whose first line holds no comma is not the expected
    /// format: a failure, which leaves the previous establishment as it was.
    pub fn probe_outcome(&mut self, lang: Lang, output: Option<&str>) -> (p: ProbeState)
        ensures
            output matches Some(o) && answers_values(o@) ==> final(self).established()
                && p@ == ProbeStateView::Ready,
            output matches Some(o) && !answers_values(o@) ==> final(self).established()
                == old(self).established() && p@ == (ProbeStateView::Failed {
                error: wording(
                    lang,
                    "nvidia-smi answered in an unexpected format",
                    "nvidia-smi a repondu un format inattendu",
                )@,
            }),
            output is None ==> !final(self).established() && p@ == (ProbeStateView::Unavailable {
                reason: wording(
                    lang,
                    "no NVIDIA GPU, or driver missing",
                    "aucun GPU NVIDIA, ou pilote absent",
                )@,
                hint: None,
            }),
    {
        match output {
            Some(text) => {
                let values = match first_line_of(text) {
                    Some(line) => str_contains(line.as_str(), ","),
                    None => false,
                };
                if values {
                    self.available = true;
                    ProbeState::Ready
                } else {
                    ProbeState::failed(
                        pick(
                            lang,
                            "nvidia-smi answered in an unexpected format",
                            "nvidia-smi a repondu un format inattendu",
                        ),
                    )
                }
            },
            None => {
                self.available = false;
                ProbeState::unavailable_only(
                    pick(lang, "no NVIDIA GPU, or driver missing", "aucun GPU NVIDIA, ou pilote absent"),
                )
            },
        }
    }

    /// The trimmed fields of the first GPU's line, ready to be parsed; `None` when the
    /// source is lost: not established, no answer, or an empty answer. Only the first
    /// GPU is read.
    pub fn fields(&self, output: Option<&str>) -> (r: Option<Vec<String>>)
        ensures
            r is None <==> (!self.established() || output is None || first_line(output->0@) is None),
            r matches Some(f) ==> views(f@) == split_on(first_line(output->0@)->0, ',').map_values(
                |p: Seq<char>| trimmed(p),
            ),
    {
        if !self.available {
            return None;
        }
        let text = match output {
            Some(t) => t,
            None => return None,
        };
        let line = match first_line_of(text) {
            Some(l) => l,
            None => return None,
        };
        let pieces = split(line.as_str(), ',');
        let mut out: Vec<String> = Vec::new();
        let mut i: usize = 0;
        while i < pieces.len()
            invariant
                i <= pieces.len(),
                views(pieces@) == split_on(first_line(text@)->0, ','),
                views(out@) == views(pieces@).take(i as int).map_values(|p: Seq<char>| trimmed(p)),
            decreases pieces.len() - i,
        {
            let ghost before = out@;
            let t = str_trim(pieces[i].as_str());
            out.push(t);
            assert(views(out@) =~= views(before).push(t@));
            assert(views(pieces@).take(i as int + 1) =~= views(pieces@).take(i as int).push(
                pieces@[i as int]@,
            ));
            assert(views(out@) =~= views(pieces@).take(i as int + 1).map_values(
                |p: Seq<char>| trimmed(p),
            ));
            i = i + 1;
        }
        assert(views(pieces@).take(pieces.len() as int) =~= views(pieces@));
        Some(out)
    }

    /// Offers the parsed fields, each as the quantity of its column; a field that could
    /// not be parsed offers nothing. Fields beyond the known columns are ignored.
    pub fn absorb(out: &mut Reading, fields: &Vec<Option<Value>>) -> (s: Sampled)
        ensures
            s == Sampled::Answered,
            final(out).measured() == columns_absorbed(
                old(out).measured(),
                fields@,
                vstd::math::min(fields.len() as int, 4),
            ),
            final(out).cpu() == old(out).cpu(),
            final(out).stamp() == old(out).stamp(),
    {
        let cols = columns();
        let n: usize = if fields.len() < 4 { fields.len() } else { 4 };
        let mut i: usize = 0;
        while i < n
            invariant
                i <= n,
                n == vstd::math::min(fields.len() as int, 4),
                cols@ == column_metrics(),
                out.measured() == columns_absorbed(old(out).measured(), fields@, i as int),
                out.cpu() == old(out).cpu(),
                out.stamp() == old(out).stamp(),
            decreases n - i,
        {
            match fields[i] {
                Some(v) => out.offer(cols[i], v, ID),
                None => {},
            }
            i = i + 1;
        }
        Sampled::Answered
    }
}

/// The driver measures nothing but what it declares: the quantities of its columns.
pub proof fn law_nvidia_offers_only_what_it_declares(
    values: Map<Metric, Sample>,
    fields: Seq<Option<Value>>,
    n: int,
)
    requires
        n <= column_metrics().len(),
    ensures
        only_adds(values, columns_absorbed(values, fields, n), column_metrics()),
    decreases n,
{
    if n > 0 {
        law_nvidia_offers_only_what_it_declares(values, fields, n - 1);
        assert(column_metrics().contains(column_metrics()[n - 1]));
    }
}

} // verus!
