//! Laws of the negotiation, stated over the same spec functions that the
//! executable functions are proved against.

use vstd::prelude::*;

use crate::capability::DARK_MODE_MIN_BUILD;
use crate::capability::DarkModeCapability;
use crate::capability::EntryPoints;
use crate::capability::PREFERRED_APP_MODE_MIN_BUILD;
use crate::capability::no_entry_points;
use crate::negotiation::AllowWindowCall;
use crate::negotiation::AppModeCall;
use crate::negotiation::PreferredAppMode;
use crate::negotiation::TitlebarCall;
use crate::negotiation::app_plan_spec;
use crate::negotiation::titlebar_call_spec;
use crate::negotiation::titlebar_dark_spec;
use crate::negotiation::window_allows_dark_spec;
use crate::negotiation::window_plan_spec;
use crate::theme::EffectiveTheme;
use crate::theme::SystemDarkMode;
use crate::theme::ThemePreference;
use crate::theme::system_wants_dark_spec;
use crate::theme::wants_dark_spec;

verus! {

/// The dark flag a titlebar call carries, if it makes a call at all.
pub open spec fn titlebar_flag_spec(call: TitlebarCall) -> Option<bool> {
    match call {
        TitlebarCall::Skip => None,
        TitlebarCall::SetProp(dark) => Some(dark),
        TitlebarCall::SetWindowCompositionAttribute(dark) => Some(dark),
    }
}

/// On an unsupported host — the build is unknown or below the first build
/// with the dark-mode surface — every negotiation resolves to light and plans
/// no OS call, whatever the preference and system state.
pub proof fn lemma_unsupported_stays_light(
    caps: DarkModeCapability,
    system: SystemDarkMode,
    preference: ThemePreference,
    allowed_for_window: Option<bool>,
)
    requires
        !caps.supported_spec(),
    ensures
        app_plan_spec(caps, system, preference).theme == EffectiveTheme::Light,
        app_plan_spec(caps, system, preference).mode_call == AppModeCall::Skip,
        !app_plan_spec(caps, system, preference).refresh_color_policy,
        window_plan_spec(caps, system, preference).theme == EffectiveTheme::Light,
        window_plan_spec(caps, system, preference).allow_call == AllowWindowCall::Skip,
        titlebar_call_spec(caps, system, allowed_for_window) == TitlebarCall::Skip,
{
}

/// Builds in the first supported generation select the legacy per-process
/// toggle — never "set preferred app mode" — and drive the titlebar through
/// the window property.
pub proof fn lemma_legacy_generation(
    caps: DarkModeCapability,
    system: SystemDarkMode,
    preference: ThemePreference,
    allowed_for_window: Option<bool>,
)
    requires
        caps.build matches Some(ver) && DARK_MODE_MIN_BUILD <= ver
            < PREFERRED_APP_MODE_MIN_BUILD,
    ensures
        app_plan_spec(caps, system, preference).mode_call == (
        if caps.entry_points.allow_dark_mode_for_app {
            AppModeCall::AllowDarkModeForApp(wants_dark_spec(preference, system))
        } else {
            AppModeCall::Skip
        }),
        !(app_plan_spec(caps, system, preference).mode_call matches AppModeCall::SetPreferredAppMode(
            _,
        )),
        titlebar_call_spec(caps, system, allowed_for_window) == TitlebarCall::SetProp(
            titlebar_dark_spec(system, allowed_for_window),
        ),
{
}

/// Builds at or past the preferred-app-mode generation select "set preferred
/// app mode" — never the legacy toggle — and drive the titlebar through the
/// composition attribute (skipped only when that entry point is missing,
/// never through the window property).
pub proof fn lemma_preferred_app_mode_generation(
    caps: DarkModeCapability,
    system: SystemDarkMode,
    preference: ThemePreference,
    allowed_for_window: Option<bool>,
)
    requires
        caps.build matches Some(ver) && ver >= PREFERRED_APP_MODE_MIN_BUILD,
    ensures
        app_plan_spec(caps, system, preference).mode_call == (
        if caps.entry_points.set_preferred_app_mode {
            AppModeCall::SetPreferredAppMode(
                if wants_dark_spec(preference, system) {
                    PreferredAppMode::AllowDark
                } else {
                    PreferredAppMode::Default
                },
            )
        } else {
            AppModeCall::Skip
        }),
        !(app_plan_spec(caps, system, preference).mode_call matches AppModeCall::AllowDarkModeForApp(
            _,
        )),
        titlebar_call_spec(caps, system, allowed_for_window) == (
        if caps.entry_points.set_window_composition_attribute {
            TitlebarCall::SetWindowCompositionAttribute(
                titlebar_dark_spec(system, allowed_for_window),
            )
        } else {
            TitlebarCall::Skip
        }),
        !(titlebar_call_spec(caps, system, allowed_for_window) matches TitlebarCall::SetProp(_)),
{
}

/// On a supported host an explicit dark preference always resolves to dark,
/// whatever the system dark-mode setting or the high-contrast state.
pub proof fn lemma_dark_preference_wins(caps: DarkModeCapability, system: SystemDarkMode)
    requires
        caps.supported_spec(),
    ensures
        app_plan_spec(caps, system, ThemePreference::Dark).theme == EffectiveTheme::Dark,
        window_plan_spec(caps, system, ThemePreference::Dark).theme == EffectiveTheme::Dark,
{
}

/// With high contrast active an unspecified preference resolves to light,
/// even when the system dark-mode flag is set, on every host.
pub proof fn lemma_high_contrast_blocks_unspecified_dark(
    caps: DarkModeCapability,
    system: SystemDarkMode,
)
    requires
        system.high_contrast,
    ensures
        app_plan_spec(caps, system, ThemePreference::Unspecified).theme == EffectiveTheme::Light,
        window_plan_spec(caps, system, ThemePreference::Unspecified).theme
            == EffectiveTheme::Light,
{
}

/// The titlebar decision is independent of the dark flag the per-window
/// toggle applied: whatever call it carries is flagged by the system state
/// and the window's own re-queried allow flag alone. In particular, when the
/// preference resolved to dark but the re-query says the window does not
/// allow dark mode, the titlebar stays light.
pub proof fn lemma_titlebar_independent_of_applied_dark(
    caps: DarkModeCapability,
    system: SystemDarkMode,
    preference: ThemePreference,
    allowed_for_window: Option<bool>,
)
    ensures
        titlebar_flag_spec(titlebar_call_spec(caps, system, allowed_for_window)) matches Some(dark)
            ==> dark == (system_wants_dark_spec(system) && window_allows_dark_spec(
            allowed_for_window,
        )),
        wants_dark_spec(preference, system) && !window_allows_dark_spec(allowed_for_window)
            ==> titlebar_flag_spec(titlebar_call_spec(caps, system, allowed_for_window)) != Some(
            true,
        ),
{
}

/// The resolved theme depends only on the build and the system state, never
/// on which entry points resolved.
pub proof fn lemma_theme_ignores_entry_points(
    build: Option<u32>,
    entries_a: EntryPoints,
    entries_b: EntryPoints,
    system: SystemDarkMode,
    preference: ThemePreference,
)
    ensures
        ({
            let caps_a = DarkModeCapability { build, entry_points: entries_a };
            let caps_b = DarkModeCapability { build, entry_points: entries_b };
            &&& app_plan_spec(caps_a, system, preference).theme == app_plan_spec(
                caps_b,
                system,
                preference,
            ).theme
            &&& window_plan_spec(caps_a, system, preference).theme == window_plan_spec(
                caps_b,
                system,
                preference,
            ).theme
        }),
{
}

/// Missing dynamic entry points never surface as an error: with every
/// optional entry point absent the negotiation still resolves the same theme,
/// the optional calls are skipped, and only the always-linked window property
/// of the legacy generation is still driven.
pub proof fn lemma_missing_entry_points_degrade_silently(
    build: Option<u32>,
    entries: EntryPoints,
    system: SystemDarkMode,
    preference: ThemePreference,
    allowed_for_window: Option<bool>,
)
    ensures
        ({
            let bare = DarkModeCapability { build, entry_points: no_entry_points() };
            let full = DarkModeCapability { build, entry_points: entries };
            &&& app_plan_spec(bare, system, preference).theme == app_plan_spec(
                full,
                system,
                preference,
            ).theme
            &&& app_plan_spec(bare, system, preference).mode_call == AppModeCall::Skip
            &&& !app_plan_spec(bare, system, preference).refresh_color_policy
            &&& window_plan_spec(bare, system, preference).theme == window_plan_spec(
                full,
                system,
                preference,
            ).theme
            &&& window_plan_spec(bare, system, preference).allow_call == AllowWindowCall::Skip
            &&& (build matches Some(ver) && ver >= PREFERRED_APP_MODE_MIN_BUILD
                ==> titlebar_call_spec(bare, system, allowed_for_window) == TitlebarCall::Skip)
        }),
{
}

} // verus!
