//! The language of the interface, decided once by Windows.
//!
//! English is the default. French appears only on a Windows displayed in French — not on
//! an English Windows with a French regional format, which says nothing of the language
//! one reads.

use vstd::prelude::*;

verus! {

/// Primary language identifier of French, in the low 10 bits of a `LANGID`. Every
/// regional variant — fr-FR, fr-CA, fr-BE — shares it.
pub const LANG_FRENCH: u16 = 0x0c;

#[derive(Debug, Clone, Copy, PartialEq, Eq, Structural)]
pub enum Lang {
    En,
    Fr,
}

/// The interface language for a display-language identifier.
pub fn lang_from_langid(langid: u16) -> (l: Lang)
    ensures
        l == (if langid & 0x3ffu16 == LANG_FRENCH {
            Lang::Fr
        } else {
            Lang::En
        }),
{
    if langid & 0x3ffu16 == LANG_FRENCH {
        Lang::Fr
    } else {
        Lang::En
    }
}

/// The wording of a message in the given language.
pub open spec fn wording(lang: Lang, en: &'static str, fr: &'static str) -> &'static str {
    match lang {
        Lang::En => en,
        Lang::Fr => fr,
    }
}

/// Chooses between the two wordings of a message.
pub fn pick(lang: Lang, en: &'static str, fr: &'static str) -> (s: &'static str)
    ensures
        s == wording(lang, en, fr),
{
    match lang {
        Lang::En => en,
        Lang::Fr => fr,
    }
}

} // verus!
