//! Interface language of the console output (English or Spanish).

use vstd::prelude::*;

verus! {

/// The language in which console messages are printed.
#[derive(Clone, Copy, Debug, PartialEq, Eq, Structural)]
pub struct LanguageSetting {
    pub spanish: bool,
}

/// The setting after `set_language(is_es)`.
pub open spec fn language_after_set(is_es: bool) -> LanguageSetting {
    LanguageSetting { spanish: is_es }
}

/// The setting after `toggle_language` on `l`.
pub open spec fn language_after_toggle(l: LanguageSetting) -> LanguageSetting {
    LanguageSetting { spanish: !l.spanish }
}

impl LanguageSetting {
    /// The start-up setting: English.
    pub fn english() -> (r: LanguageSetting)
        ensures
            !r.spanish,
    {
        LanguageSetting { spanish: false }
    }
}

/// Selects Spanish when `is_es` holds, English otherwise.
pub fn set_language(lang: &mut LanguageSetting, is_es: bool)
    ensures
        *final(lang) == language_after_set(is_es),
{
    lang.spanish = is_es;
}

/// Whether messages are printed in Spanish.
pub fn is_spanish(lang: &LanguageSetting) -> (r: bool)
    ensures
        r == lang.spanish,
{
    lang.spanish
}

/// Switches between English and Spanish.
pub fn toggle_language(lang: &mut LanguageSetting)
    ensures
        *final(lang) == language_after_toggle(*old(lang)),
{
    lang.spanish = !lang.spanish;
}

/// Picks the message for the current language.
pub fn localized<'a>(lang: &LanguageSetting, en: &'a str, es: &'a str) -> (r: &'a str)
    ensures
        r@ == (if lang.spanish { es@ } else { en@ }),
{
    if is_spanish(lang) {
        es
    } else {
        en
    }
}

/// Toggling twice gives back the language one started with.
pub proof fn law_toggle_twice_restores(l: LanguageSetting)
    ensures
        language_after_toggle(language_after_toggle(l)) == l,
{
}

/// Toggling always changes the language that is reported.
pub proof fn law_toggle_flips_report(l: LanguageSetting)
    ensures
        language_after_toggle(l).spanish != l.spanish,
{
}

/// After `set_language(is_es)` the language reported is Spanish exactly when `is_es`,
/// whatever the language was before.
pub proof fn law_set_then_report(is_es: bool)
    ensures
        language_after_set(is_es).spanish == is_es,
{
}

} // verus!
