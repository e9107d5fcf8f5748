//! The settings that belong to the application alone, kept from one launch to the next in
//! a JSON file of the account's configuration folder.
//!
//! What lives elsewhere is not there: autostart is a scheduled task, the power scheme
//! belongs to Windows, the language is read from the session. Reading them at their source
//! avoids promising a state the system changed behind our back.
//!
//! An unreadable or missing file is no error: the defaults apply. Losing a preference is
//! less serious than refusing to start over it.

use vstd::prelude::*;

verus! {

/// Name of the settings file in the configuration folder.
pub const FILE: &'static str = "settings.json";

#[derive(Debug, Clone, Copy, PartialEq, Eq, Structural)]
pub struct Prefs {
    /// False by default: an application that replaces itself, elevated, must have been
    /// allowed to. The tick is the consent.
    pub auto_update: bool,
}

impl Default for Prefs {
    fn default() -> (p: Prefs)
        ensures
            !p.auto_update,
    {
        Prefs { auto_update: false }
    }
}

/// The preferences, and where they are kept.
pub struct Settings {
    /// `None` when the configuration folder cannot be found: the application then runs
    /// without memory, the tick falling back at every launch.
    path: Option<String>,
    prefs: Prefs,
}

/// Why nothing can be saved when there is no configuration folder.
pub open spec fn no_folder() -> Seq<char> {
    "dossier de configuration introuvable"@
}

impl Settings {
    /// Where the preferences are kept, if anywhere.
    pub closed spec fn location(&self) -> Option<Seq<char>> {
        match self.path {
            Some(p) => Some(p@),
            None => None,
        }
    }

    /// The preferences held.
    pub closed spec fn current(&self) -> Prefs {
        self.prefs
    }

    /// Settings kept at `path`, starting from what was read there (the defaults when the
    /// file was missing or unreadable).
    pub fn new(path: Option<String>, prefs: Prefs) -> (s: Settings)
        ensures
            s.location() == (match path {
                Some(p) => Some(p@),
                None => None::<Seq<char>>,
            }),
            s.current() == prefs,
    {
        Settings { path, prefs }
    }

    pub fn prefs(&self) -> (p: Prefs)
        ensures
            p == self.current(),
    {
        self.prefs
    }

    /// Where the preferences are written, if anywhere.
    pub fn path(&self) -> (p: Option<String>)
        ensures
            match p {
                Some(q) => self.location() == Some(q@),
                None => self.location() is None,
            },
    {
        match &self.path {
            Some(p) => Some(p.clone()),
            None => None,
        }
    }

    /// What recording the auto-update consent asks to write: the file, and the
    /// preferences it must hold. Without a configuration folder there is nowhere to write,
    /// and the refusal says so. Nothing changes yet.
    pub fn to_save(&self, on: bool) -> (r: Result<(String, Prefs), String>)
        ensures
            match self.location() {
                Some(l) => r matches Ok((file, prefs)) && file@ == l && prefs == (Prefs {
                    auto_update: on,
                }),
                None => r matches Err(e) && e@ == no_folder(),
            },
    {
        match &self.path {
            Some(p) => Ok((p.clone(), Prefs { auto_update: on })),
            None => Err("dossier de configuration introuvable".to_owned()),
        }
    }

    /// Records the auto-update consent, once `saved` tells how writing what `to_save`
    /// asked went. The answer is the file's, not an intention: a write that failed, or
    /// could not be attempted, leaves the preferences as they were, so that no tick shows
    /// that the next launch would drop.
    pub fn set_auto_update(&mut self, on: bool, saved: Result<(), String>) -> (r: Result<Prefs, String>)
        ensures
            final(self).location() == old(self).location(),
            match old(self).location() {
                None => r matches Err(e) && e@ == no_folder() && final(self).current()
                    == old(self).current(),
                Some(_) => match saved {
                    Ok(()) => r == Ok::<Prefs, String>(Prefs { auto_update: on })
                        && final(self).current() == (Prefs { auto_update: on }),
                    Err(e) => r == Err::<Prefs, String>(e) && final(self).current() == old(
                        self,
                    ).current(),
                },
            },
    {
        if self.path.is_none() {
            return Err("dossier de configuration introuvable".to_owned());
        }
        match saved {
            Ok(()) => {
                self.prefs = Prefs { auto_update: on };
                Ok(self.prefs)
            },
            Err(e) => Err(e),
        }
    }
}

} // verus!
