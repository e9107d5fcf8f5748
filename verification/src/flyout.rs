//! The panel: a borderless window anchored on the notification-area icon.
//!
//! It behaves like the Windows 11 system flyouts (volume, network): a click on the icon
//! opens the panel right above it, a click elsewhere closes it. Closing it never quits the
//! application. This module decides, event by event, whether the panel opens, closes or
//! stays; the window itself is driven by the caller, with times in milliseconds of a
//! monotonic clock.

use vstd::prelude::*;

verus! {

/// Clicking the icon while the panel is open first makes the panel lose the focus — it
/// hides — then triggers the click handler, which would find it hidden and reopen it at
/// once: the panel could never be closed by its icon. An opening request that follows a
/// focus-loss hiding this closely is ignored.
pub const REOPEN_GUARD_MS: u64 = 350;

/// Grace period after an opening. Windows does not always grant the focus to a window that
/// shows itself: launched from a terminal, or recalled while a game holds the foreground,
/// it can receive it and lose it right away. Without this delay the panel would vanish
/// before being seen.
pub const SETTLE_MS: u64 = 600;

/// Time elapsed since `at`, as a monotonic clock reports it: never negative.
pub open spec fn elapsed(at: u64, now: u64) -> int {
    if now >= at {
        now - at
    } else {
        0
    }
}

/// Whether the moment `at`, if any, lies less than `span` before `now`.
pub open spec fn recent(at: Option<u64>, now: u64, span: u64) -> bool {
    at matches Some(t) && elapsed(t, now) < span
}

/// The panel's state.
pub struct Flyout {
    pinned: bool,
    autohide: bool,
    armed: bool,
    hidden_at: Option<u64>,
    shown_at: Option<u64>,
}

/// The panel's state, as plain values.
pub struct FlyoutView {
    /// Pinned: the panel stays open despite the loss of focus, and is no longer placed
    /// again. Needed as soon as one wants to watch it while playing, that is while the
    /// focus is elsewhere by construction.
    pub pinned: bool,
    /// Development escape hatch: hiding on focus loss makes the devtools unusable, since
    /// opening them steals the focus from the panel.
    pub autohide: bool,
    /// Hiding on focus loss is armed only once the focus was obtained. Without that, a
    /// panel shown while another window keeps the focus would get an immediate focus loss
    /// and vanish before being seen.
    pub armed: bool,
    /// When the panel was last hidden by a focus loss, until a click consumes it.
    pub hidden_at: Option<u64>,
    /// When the panel was last shown.
    pub shown_at: Option<u64>,
}

impl View for Flyout {
    type V = FlyoutView;

    closed spec fn view(&self) -> FlyoutView {
        FlyoutView {
            pinned: self.pinned,
            autohide: self.autohide,
            armed: self.armed,
            hidden_at: self.hidden_at,
            shown_at: self.shown_at,
        }
    }
}

/// What a click on the icon does to the panel.
#[derive(Debug, Clone, Copy, PartialEq, Eq, Structural)]
pub enum Toggle {
    /// Nothing: this click is the one whose focus loss just hid the panel.
    Ignore,
    Hide,
    /// Show it, placing it against the icon first unless it is pinned.
    Show { place: bool },
}

/// The state after the panel is shown at `now`.
pub open spec fn shown(f: FlyoutView, now: u64) -> FlyoutView {
    FlyoutView {
        pinned: f.pinned,
        autohide: f.autohide,
        armed: false,
        hidden_at: f.hidden_at,
        shown_at: Some(now),
    }
}

/// The state after a click on the icon at `now`, and what the click does, given whether
/// the panel is visible.
pub open spec fn after_toggle(f: FlyoutView, now: u64, visible: bool) -> (FlyoutView, Toggle) {
    let consumed = FlyoutView {
        pinned: f.pinned,
        autohide: f.autohide,
        armed: f.armed,
        hidden_at: None,
        shown_at: f.shown_at,
    };
    if recent(f.hidden_at, now, REOPEN_GUARD_MS) {
        (consumed, Toggle::Ignore)
    } else if visible {
        (consumed, Toggle::Hide)
    } else {
        (shown(consumed, now), Toggle::Show { place: !f.pinned })
    }
}

/// The state after the panel loses the focus at `now`, and whether it hides.
pub open spec fn after_focus_lost(f: FlyoutView, now: u64) -> (FlyoutView, bool) {
    if !f.autohide || f.pinned || recent(f.shown_at, now, SETTLE_MS) || !f.armed {
        (f, false)
    } else {
        (
            FlyoutView {
                pinned: f.pinned,
                autohide: f.autohide,
                armed: false,
                hidden_at: Some(now),
                shown_at: f.shown_at,
            },
            true,
        )
    }
}

impl Flyout {
    /// A hidden, unpinned panel. `autohide` is false only for development.
    pub fn new(autohide: bool) -> (f: Flyout)
        ensures
            f@ == (FlyoutView {
                pinned: false,
                autohide,
                armed: false,
                hidden_at: None,
                shown_at: None,
            }),
    {
        Flyout { pinned: false, autohide, armed: false, hidden_at: None, shown_at: None }
    }

    pub fn is_pinned(&self) -> (b: bool)
        ensures
            b == self@.pinned,
    {
        self.pinned
    }

    pub fn set_pinned(&mut self, on: bool)
        ensures
            final(self)@ == (FlyoutView { pinned: on, ..old(self)@ }),
    {
        self.pinned = on;
    }

    /// The panel is shown at `now`. Whether to place it against the icon: a pinned panel
    /// belongs to the user, who may have moved it.
    pub fn show(&mut self, now: u64) -> (place: bool)
        ensures
            final(self)@ == shown(old(self)@, now),
            place == !old(self)@.pinned,
    {
        self.armed = false;
        self.shown_at = Some(now);
        !self.pinned
    }

    /// Left click on the icon at `now`: opens or closes.
    pub fn toggle(&mut self, now: u64, visible: bool) -> (t: Toggle)
        ensures
            (final(self)@, t) == after_toggle(old(self)@, now, visible),
    {
        let guard = match self.hidden_at {
            Some(at) => {
                let since = if now >= at { now - at } else { 0 };
                since < REOPEN_GUARD_MS
            },
            None => false,
        };
        self.hidden_at = None;
        if guard {
            Toggle::Ignore
        } else if visible {
            Toggle::Hide
        } else {
            let place = self.show(now);
            Toggle::Show { place }
        }
    }

    /// Focus obtained: from now on, losing it means something.
    pub fn on_focus_gained(&mut self)
        ensures
            final(self)@ == (FlyoutView { armed: true, ..old(self)@ }),
    {
        self.armed = true;
    }

    /// Focus lost at `now`: whether the panel hides, which it does unless pinned, freshly
    /// shown, or never focused since it was shown.
    pub fn on_focus_lost(&mut self, now: u64) -> (hide: bool)
        ensures
            (final(self)@, hide) == after_focus_lost(old(self)@, now),
    {
        let settling = match self.shown_at {
            Some(at) => {
                let since = if now >= at { now - at } else { 0 };
                since < SETTLE_MS
            },
            None => false,
        };
        if !self.autohide || self.pinned || settling || !self.armed {
            return false;
        }
        self.armed = false;
        self.hidden_at = Some(now);
        true
    }
}

/// The click on the icon whose focus loss just hid the panel does not reopen it: the
/// panel can be closed by its own icon. The guard is spent by that click.
pub proof fn law_the_closing_click_does_not_reopen(f: FlyoutView, lost: u64, now: u64, visible: bool)
    requires
        after_focus_lost(f, lost).1,
        lost <= now,
        now - lost < REOPEN_GUARD_MS,
    ensures
        after_toggle(after_focus_lost(f, lost).0, now, visible).1 == Toggle::Ignore,
        after_toggle(after_focus_lost(f, lost).0, now, visible).0.hidden_at is None,
{
}

/// Once its guard is spent, a click on a hidden panel opens it again, and on a visible
/// one closes it.
pub proof fn law_a_later_click_toggles(f: FlyoutView, now: u64, visible: bool)
    requires
        f.hidden_at is None,
    ensures
        after_toggle(f, now, visible).1 == (if visible {
            Toggle::Hide
        } else {
            Toggle::Show { place: !f.pinned }
        }),
{
}

/// A pinned panel stays open whatever takes the focus.
pub proof fn law_a_pinned_panel_stays(f: FlyoutView, now: u64)
    requires
        f.pinned,
    ensures
        after_focus_lost(f, now) == (f, false),
{
}

/// A panel that was just shown does not vanish at once: not before it has had the focus,
/// and not within the grace period even then.
pub proof fn law_a_fresh_panel_is_seen(f: FlyoutView, at: u64, gained: bool, now: u64)
    requires
        at <= now,
    ensures
        ({
            let g = shown(f, at);
            let g2 = if gained { FlyoutView { armed: true, ..g } } else { g };
            (!gained || now - at < SETTLE_MS) ==> !after_focus_lost(g2, now).1
        }),
{
}

} // verus!
