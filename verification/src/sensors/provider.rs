//! What every measurement source declares about itself, and the outcome of establishing it.
//!
//! A provider knows nothing of the others: arbitration belongs to the registry (priority
//! order) and to `Reading::offer` (first served wins).

use vstd::prelude::*;

use crate::sensors::metric::Metric;

verus! {

/// What a provider depends on to work.
#[derive(Debug, Clone, Copy, PartialEq, Eq, Structural)]
pub enum ProviderKind {
    /// Depends on Windows only: available on every machine, without privilege.
    Builtin,
    /// Depends on a third-party tool installed and running, which brings its own
    /// kernel driver.
    External,
}

/// Outcome of an attempt to establish a source.
#[derive(Debug, Clone)]
pub enum ProbeState {
    /// Operational.
    Ready,
    /// Absent for an expected reason — not an error, and `hint` tells what to do.
    Unavailable { reason: String, hint: Option<String> },
    /// Present but broken: the source answered something else than expected.
    Failed { error: String },
}

/// A probe outcome, its texts taken as character sequences.
pub enum ProbeStateView {
    Ready,
    Unavailable { reason: Seq<char>, hint: Option<Seq<char>> },
    Failed { error: Seq<char> },
}

impl View for ProbeState {
    type V = ProbeStateView;

    open spec fn view(&self) -> ProbeStateView {
        match self {
            ProbeState::Ready => ProbeStateView::Ready,
            ProbeState::Unavailable { reason, hint } => ProbeStateView::Unavailable {
                reason: reason@,
                hint: match hint {
                    Some(h) => Some(h@),
                    None => None,
                },
            },
            ProbeState::Failed { error } => ProbeStateView::Failed { error: error@ },
        }
    }
}

impl ProbeState {
    pub open spec fn ready(&self) -> bool {
        self is Ready
    }

    /// A copy with the same texts.
    pub fn duplicate(&self) -> (p: ProbeState)
        ensures
            p@ == self@,
    {
        match self {
            ProbeState::Ready => ProbeState::Ready,
            ProbeState::Unavailable { reason, hint } => ProbeState::Unavailable {
                reason: reason.clone(),
                hint: match hint {
                    Some(h) => Some(h.clone()),
                    None => None,
                },
            },
            ProbeState::Failed { error } => ProbeState::Failed { error: error.clone() },
        }
    }

    pub fn is_ready(&self) -> (b: bool)
        ensures
            b == self.ready(),
    {
        match self {
            ProbeState::Ready => true,
            _ => false,
        }
    }

    /// Absent, with what to do about it.
    pub fn unavailable(reason: &str, hint: &str) -> (p: ProbeState)
        ensures
            p@ == (ProbeStateView::Unavailable { reason: reason@, hint: Some(hint@) }),
    {
        ProbeState::Unavailable { reason: reason.to_owned(), hint: Some(hint.to_owned()) }
    }

    /// Absent with nothing to do about it: the reason says it all.
    pub fn unavailable_only(reason: &str) -> (p: ProbeState)
        ensures
            p@ == (ProbeStateView::Unavailable { reason: reason@, hint: None }),
    {
        ProbeState::Unavailable { reason: reason.to_owned(), hint: None }
    }

    /// Present but broken.
    pub fn failed(error: &str) -> (p: ProbeState)
        ensures
            p@ == (ProbeStateView::Failed { error: error@ }),
    {
        ProbeState::Failed { error: error.to_owned() }
    }
}

/// Identity card of a provider, as shown to the user.
#[derive(Debug, Clone)]
pub struct ProviderInfo {
    /// Stable identifier, used as provenance in `Sample`.
    pub id: &'static str,
    pub name: &'static str,
    pub kind: ProviderKind,
    /// The quantities this provider claims. They tell the user what installing a given
    /// tool would bring.
    pub provides: Vec<Metric>,
    /// Where to get the tool, for external providers.
    pub url: Option<&'static str>,
}

impl ProviderInfo {
    /// A copy of the card.
    pub fn duplicate(&self) -> (i: ProviderInfo)
        ensures
            i@ == self@,
    {
        let mut provides: Vec<Metric> = Vec::new();
        let mut k: usize = 0;
        while k < self.provides.len()
            invariant
                k <= self.provides.len(),
                provides@ == self.provides@.take(k as int),
            decreases self.provides.len() - k,
        {
            provides.push(self.provides[k]);
            assert(self.provides@.take(k as int + 1) == self.provides@.take(k as int).push(
                self.provides@[k as int],
            ));
            k = k + 1;
        }
        assert(self.provides@.take(self.provides.len() as int) == self.provides@);
        ProviderInfo { id: self.id, name: self.name, kind: self.kind, provides, url: self.url }
    }
}

/// A provider's identity card, as plain values.
pub struct ProviderInfoView {
    pub id: Seq<char>,
    pub name: Seq<char>,
    pub kind: ProviderKind,
    pub provides: Seq<Metric>,
    pub url: Option<Seq<char>>,
}

impl View for ProviderInfo {
    type V = ProviderInfoView;

    open spec fn view(&self) -> ProviderInfoView {
        ProviderInfoView {
            id: self.id@,
            name: self.name@,
            kind: self.kind,
            provides: self.provides@,
            url: match self.url {
                Some(u) => Some(u@),
                None => None,
            },
        }
    }
}

/// The card of a provider, from its parts.
pub open spec fn card(
    id: &'static str,
    name: &'static str,
    kind: ProviderKind,
    provides: Seq<Metric>,
    url: Option<&'static str>,
) -> ProviderInfoView {
    ProviderInfoView {
        id: id@,
        name: name@,
        kind,
        provides,
        url: match url {
            Some(u) => Some(u@),
            None => None,
        },
    }
}

/// What one measurement cycle learns about the source itself, whatever values it offered.
#[derive(Debug, Clone, Copy, PartialEq, Eq, Structural)]
pub enum Sampled {
    /// The source answered — even if it brought nothing, because a more reliable
    /// source had already set its quantities.
    Answered,
    /// The source no longer answers: the tool was closed, its section vanished.
    Lost,
}

} // verus!
