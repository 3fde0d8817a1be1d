//! Theme preferences, effective themes, and the ambient dark-mode state
//! sampled from the operating system.

use vstd::prelude::*;

verus! {

/// The theme a caller asks for. `Unspecified` defers to the system setting.
#[derive(Clone, Copy, Debug, PartialEq, Eq)]
pub enum ThemePreference {
    Unspecified,
    Light,
    Dark,
}

/// The binary outcome a negotiation applies to the application or a window.
#[derive(Clone, Copy, Debug, PartialEq, Eq)]
pub enum EffectiveTheme {
    Light,
    Dark,
}

/// Ambient dark-mode state, sampled once per negotiation by the caller.
///
/// `apps_use_dark_mode` is what the system's "should apps use dark mode"
/// entry point reported; `None` means the entry point could not be resolved,
/// which counts as "no". `high_contrast` is whether the high-contrast
/// accessibility mode is active (`false` when that query itself failed).
#[derive(Clone, Copy, Debug, PartialEq, Eq)]
pub struct SystemDarkMode {
    pub apps_use_dark_mode: Option<bool>,
    pub high_contrast: bool,
}

/// The flag set when the reported high-contrast state is active.
pub const HCF_HIGHCONTRASTON: u32 = 1;

/// The system wants dark UI: apps should use dark mode and high contrast is off.
pub open spec fn system_wants_dark_spec(system: SystemDarkMode) -> bool {
    system.apps_use_dark_mode == Some(true) && !system.high_contrast
}

/// Whether a preference resolves to dark: an explicit preference wins,
/// `Unspecified` follows the system.
pub open spec fn wants_dark_spec(preference: ThemePreference, system: SystemDarkMode) -> bool {
    match preference {
        ThemePreference::Dark => true,
        ThemePreference::Light => false,
        ThemePreference::Unspecified => system_wants_dark_spec(system),
    }
}

/// The theme that a resolved dark flag stands for.
pub open spec fn effective_theme_spec(dark: bool) -> EffectiveTheme {
    if dark {
        EffectiveTheme::Dark
    } else {
        EffectiveTheme::Light
    }
}

/// Decides whether the system asks for dark UI, treating a missing
/// "should apps use dark mode" entry point as "no".
pub fn should_use_dark_mode(system: &SystemDarkMode) -> (r: bool)
    ensures
        r == system_wants_dark_spec(*system),
{
    let apps_use_dark = match system.apps_use_dark_mode {
        Some(b) => b,
        None => false,
    };
    apps_use_dark && !system.high_contrast
}

/// Interprets the outcome of the high-contrast accessibility query:
/// `ok` is whether the query itself succeeded and `flags` is the flag word
/// it filled in. A failed query counts as "high contrast off".
pub fn is_high_contrast(ok: bool, flags: u32) -> (r: bool)
    ensures
        r == (ok && flags & HCF_HIGHCONTRASTON != 0),
{
    ok && flags & HCF_HIGHCONTRASTON != 0
}

} // verus!
