//! Automatic update: what the interface is shown, and how the download reports progress.
//!
//! The trust chain rests on a signature checked by the updater against the public key of
//! the application's configuration; this module only decides what is shown.

use vstd::prelude::*;

verus! {

/// What the interface needs to offer the update without imposing it: both version
/// numbers, and the release notes if the release carries some.
pub struct UpdateInfo {
    pub version: String,
    pub current: String,
    pub notes: Option<String>,
}

/// Progress of the download. `total` stays `None` when the server does not announce it:
/// the bar then falls back on the bytes received, which at least say that it moves.
#[derive(Debug, Clone, Copy, PartialEq, Eq, Structural)]
pub struct Progress {
    pub downloaded: u64,
    pub total: Option<u64>,
}

/// One event per chunk received would flood the bridge for nothing: at 3 MB the webview
/// would get thousands to draw a hundred bar positions. An event goes out only when the
/// whole percentage changes, and without an announced size, every 256 KiB.
pub const PROGRESS_STEP_BYTES: u64 = 262144;

/// The position of the bar after `downloaded` bytes: the whole percentage of an announced,
/// non-zero size, or else the number of whole steps received.
pub open spec fn mark_of(downloaded: u64, total: Option<u64>) -> int {
    match total {
        Some(t) if t > 0 => (downloaded * 100) / (t as int),
        _ => (downloaded as int) / (PROGRESS_STEP_BYTES as int),
    }
}

/// The bar position for `downloaded` bytes.
pub fn progress_mark(downloaded: u64, total: Option<u64>) -> (m: u64)
    requires
        total matches Some(t) && t > 0 ==> downloaded * 100 <= u64::MAX,
    ensures
        m == mark_of(downloaded, total),
{
    match total {
        Some(t) if t > 0 => downloaded * 100 / t,
        _ => downloaded / PROGRESS_STEP_BYTES,
    }
}

/// A download under way: the bytes received and the last position reported.
pub struct Download {
    downloaded: u64,
    last_mark: u64,
}

impl Download {
    pub closed spec fn received(&self) -> u64 {
        self.downloaded
    }

    pub closed spec fn reported(&self) -> u64 {
        self.last_mark
    }

    pub fn new() -> (d: Download)
        ensures
            d.received() == 0,
            d.reported() == 0,
    {
        Download { downloaded: 0, last_mark: 0 }
    }

    /// Bytes received so far.
    pub fn downloaded(&self) -> (n: u64)
        ensures
            n == self.received(),
    {
        self.downloaded
    }

    /// A chunk arrived. The progress to report, when the bar moved.
    pub fn chunk(&mut self, size: u64, total: Option<u64>) -> (event: Option<Progress>)
        requires
            old(self).received() + size <= u64::MAX,
            total matches Some(t) && t > 0 ==> (old(self).received() + size) * 100 <= u64::MAX,
        ensures
            final(self).received() == old(self).received() + size,
            final(self).reported() == mark_of(final(self).received(), total),
            event is Some <==> mark_of(final(self).received(), total) != old(self).reported(),
            event matches Some(p) ==> p == (Progress { downloaded: final(self).received(), total }),
    {
        self.downloaded = self.downloaded + size;
        let mark = progress_mark(self.downloaded, total);
        if mark != self.last_mark {
            self.last_mark = mark;
            Some(Progress { downloaded: self.downloaded, total })
        } else {
            None
        }
    }
}

} // verus!
