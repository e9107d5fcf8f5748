//! The notification-area icon: the real entry point of the application.
//!
//! It carries the state at all times — its colour tells whether the cap is active, its
//! tooltip gives the latest measurements without opening anything — and its context menu
//! holds the only way out. This module holds what the icon says and what its menu means;
//! drawing and Windows calls stay with the caller.

use vstd::prelude::*;

use crate::i18n::{pick, wording, Lang};
use crate::text::{concat, concat3, str_eq};

verus! {

/// Identifier of the icon.
pub const TRAY_ID: &'static str = "thermal-lab";

/// What an entry of the context menu asks for.
#[derive(Debug, Clone, Copy, PartialEq, Eq, Structural)]
pub enum MenuCommand {
    Open,
    Toggle,
    Autostart,
    Quit,
}

/// The entry a menu identifier designates, if any.
pub open spec fn command_of(id: Seq<char>) -> Option<MenuCommand> {
    if id == "open"@ {
        Some(MenuCommand::Open)
    } else if id == "toggle"@ {
        Some(MenuCommand::Toggle)
    } else if id == "autostart"@ {
        Some(MenuCommand::Autostart)
    } else if id == "quit"@ {
        Some(MenuCommand::Quit)
    } else {
        None
    }
}

/// What a click on the menu entry `id` asks for.
pub fn menu_command(id: &str) -> (c: Option<MenuCommand>)
    ensures
        c == command_of(id@),
{
    if str_eq(id, "open") {
        Some(MenuCommand::Open)
    } else if str_eq(id, "toggle") {
        Some(MenuCommand::Toggle)
    } else if str_eq(id, "autostart") {
        Some(MenuCommand::Autostart)
    } else if str_eq(id, "quit") {
        Some(MenuCommand::Quit)
    } else {
        None
    }
}

/// A check entry toggles its tick before its action runs: when the action fails, the
/// tick must go back to the real state, the opposite of what was wanted.
pub fn tick_after(wanted: bool, succeeded: bool) -> (r: Option<bool>)
    ensures
        r == (if succeeded {
            None
        } else {
            Some(!wanted)
        }),
{
    if succeeded {
        None
    } else {
        Some(!wanted)
    }
}

/// One line of the tooltip, from the already formatted temperature and power: nothing
/// when neither is known, the separator only between two present values.
pub open spec fn tooltip_line(label: Seq<char>, temp: Option<Seq<char>>, power: Option<Seq<char>>) -> Seq<char> {
    match (temp, power) {
        (None, None) => Seq::empty(),
        _ => {
            let t = match temp {
                Some(t) => t,
                None => Seq::empty(),
            };
            let p = match power {
                Some(p) => p,
                None => Seq::empty(),
            };
            let sep = if t.len() == 0 || p.len() == 0 {
                Seq::empty()
            } else {
                " · "@
            };
            label + " "@ + t + sep + p + "\n"@
        },
    }
}

/// A line of the tooltip: `label`, then the formatted temperature and power.
pub fn line(label: &str, temp: Option<String>, power: Option<String>) -> (s: String)
    ensures
        s@ == tooltip_line(
            label@,
            match temp {
                Some(t) => Some(t@),
                None => None,
            },
            match power {
                Some(p) => Some(p@),
                None => None,
            },
        ),
{
    if temp.is_none() && power.is_none() {
        return String::new();
    }
    let t = match temp {
        Some(t) => t,
        None => String::new(),
    };
    let p = match power {
        Some(p) => p,
        None => String::new(),
    };
    let sep = if t.as_str().unicode_len() == 0 || p.as_str().unicode_len() == 0 {
        ""
    } else {
        " · "
    };
    proof {
        reveal_strlit("");
    }
    assert(sep@ == (if t@.len() == 0 || p@.len() == 0 {
        Seq::<char>::empty()
    } else {
        " · "@
    }));
    let head = concat3(label, " ", t.as_str());
    let middle = concat3(head.as_str(), sep, p.as_str());
    concat(middle.as_str(), "\n")
}

/// The first line of the tooltip, telling whether the cap is active.
pub open spec fn tooltip_head(lang: Lang, optimized: bool) -> &'static str {
    if optimized {
        wording(lang, "Thermal Lab — optimization on", "Thermal Lab — optimisation active")
    } else {
        wording(lang, "Thermal Lab — optimization off", "Thermal Lab — optimisation inactive")
    }
}

/// The first line of the tooltip says the cap is on exactly when it is: in English
/// « optimization on » when it is active and « optimization off » when it is not, in
/// French « optimisation active » and « optimisation inactive »; and the two lines of a
/// language always differ.
pub proof fn law_the_tooltip_says_whether_the_cap_is_on(lang: Lang, optimized: bool)
    ensures
        tooltip_head(Lang::En, true)@ == "Thermal Lab — optimization on"@,
        tooltip_head(Lang::En, false)@ == "Thermal Lab — optimization off"@,
        tooltip_head(Lang::Fr, true)@ == "Thermal Lab — optimisation active"@,
        tooltip_head(Lang::Fr, false)@ == "Thermal Lab — optimisation inactive"@,
        tooltip_head(lang, true)@ != tooltip_head(lang, false)@,
        optimized ==> tooltip_head(lang, optimized)@ == tooltip_head(lang, true)@,
        !optimized ==> tooltip_head(lang, optimized)@ == tooltip_head(lang, false)@,
{
    reveal_strlit("Thermal Lab — optimization on");
    reveal_strlit("Thermal Lab — optimization off");
    reveal_strlit("Thermal Lab — optimisation active");
    reveal_strlit("Thermal Lab — optimisation inactive");
    assert("Thermal Lab — optimization on"@.len() + 1 == "Thermal Lab — optimization off"@.len());
    assert("Thermal Lab — optimisation active"@.len() + 2
        == "Thermal Lab — optimisation inactive"@.len());
}

/// The tooltip: the essentials without opening anything.
pub fn tooltip_text(lang: Lang, optimized: bool, cpu: &str, gpu: &str) -> (s: String)
    ensures
        s@ == tooltip_head(lang, optimized)@ + "\n"@ + cpu@ + gpu@,
{
    let head = if optimized {
        pick(lang, "Thermal Lab — optimization on", "Thermal Lab — optimisation active")
    } else {
        pick(lang, "Thermal Lab — optimization off", "Thermal Lab — optimisation inactive")
    };
    let first = concat3(head, "\n", cpu);
    concat(first.as_str(), gpu)
}

/// The tooltip last handed to Windows. Its calls are not worth a write per second for an
/// identical text.
pub struct Tooltip {
    last: String,
}

impl Tooltip {
    pub closed spec fn shown(&self) -> Seq<char> {
        self.last@
    }

    pub fn new() -> (t: Tooltip)
        ensures
            t.shown() == Seq::<char>::empty(),
    {
        Tooltip { last: String::new() }
    }

    /// Whether `text` must be handed to Windows: only when it differs from the last one,
    /// which it then replaces.
    pub fn refresh(&mut self, text: &str) -> (changed: bool)
        ensures
            changed == (text@ != old(self).shown()),
            final(self).shown() == text@,
    {
        if str_eq(self.last.as_str(), text) {
            false
        } else {
            self.last = text.to_owned();
            true
        }
    }
}

/// How a failure to change the autostart is reported.
pub open spec fn autostart_failure(lang: Lang, error: Seq<char>) -> Seq<char> {
    match lang {
        Lang::En => "autostart: "@ + error,
        Lang::Fr => "démarrage automatique : "@ + error,
    }
}

/// The message for a failed change of the autostart.
pub fn autostart_error(lang: Lang, error: &str) -> (s: String)
    ensures
        s@ == autostart_failure(lang, error@),
{
    match lang {
        Lang::En => concat("autostart: ", error),
        Lang::Fr => concat("démarrage automatique : ", error),
    }
}

} // verus!
