//! The negotiation itself: which theme takes effect and which OS calls are
//! made to apply it.
//!
//! Every decision is returned as a plan — a value naming the call to make and
//! the argument to pass — rather than performed here, since each call is an
//! undocumented OS entry point that only an unverified driver can invoke. The
//! driver performs exactly what the plan says; a `Skip` means no call at all.

use vstd::prelude::*;

use crate::capability::DarkModeCapability;
use crate::capability::PREFERRED_APP_MODE_MIN_BUILD;
use crate::theme::EffectiveTheme;
use crate::theme::SystemDarkMode;
use crate::theme::ThemePreference;
use crate::theme::effective_theme_spec;
use crate::theme::should_use_dark_mode;
use crate::theme::system_wants_dark_spec;
use crate::theme::wants_dark_spec;

verus! {

/// Argument of the "set preferred app mode" entry point.
#[derive(Clone, Copy, Debug, PartialEq, Eq)]
pub enum PreferredAppMode {
    Default,
    AllowDark,
}

/// The application-level mutation the negotiation decided on.
#[derive(Clone, Copy, Debug, PartialEq, Eq)]
pub enum AppModeCall {
    /// No call: capability unsupported or the selected entry point missing.
    Skip,
    /// Invoke the legacy per-process toggle with this dark flag.
    AllowDarkModeForApp(bool),
    /// Invoke the newer "set preferred app mode" entry point with this mode.
    SetPreferredAppMode(PreferredAppMode),
}

/// Outcome of an application-level negotiation: the resolved theme, the mode
/// call to make, and whether to invoke the color-policy refresh.
#[derive(Clone, Copy, Debug, PartialEq, Eq)]
pub struct AppThemePlan {
    pub theme: EffectiveTheme,
    pub mode_call: AppModeCall,
    pub refresh_color_policy: bool,
}

/// Which app-mode entry point a build selects, and with what argument.
/// Builds before the preferred-app-mode generation use the legacy per-process
/// toggle; later builds use "set preferred app mode". A missing entry point
/// or an unknown build silently skips the call.
pub open spec fn app_mode_call_spec(caps: DarkModeCapability, dark: bool) -> AppModeCall {
    match caps.build {
        Some(ver) => {
            if ver < PREFERRED_APP_MODE_MIN_BUILD {
                if caps.entry_points.allow_dark_mode_for_app {
                    AppModeCall::AllowDarkModeForApp(dark)
                } else {
                    AppModeCall::Skip
                }
            } else {
                if caps.entry_points.set_preferred_app_mode {
                    AppModeCall::SetPreferredAppMode(
                        if dark {
                            PreferredAppMode::AllowDark
                        } else {
                            PreferredAppMode::Default
                        },
                    )
                } else {
                    AppModeCall::Skip
                }
            }
        },
        None => AppModeCall::Skip,
    }
}

/// Selects the version-appropriate app-mode entry point for a resolved dark
/// flag.
pub fn allow_dark_mode_for_app(caps: &DarkModeCapability, is_dark_mode: bool) -> (r: AppModeCall)
    ensures
        r == app_mode_call_spec(*caps, is_dark_mode),
{
    match caps.build {
        Some(ver) => {
            if ver < PREFERRED_APP_MODE_MIN_BUILD {
                if caps.entry_points.allow_dark_mode_for_app {
                    AppModeCall::AllowDarkModeForApp(is_dark_mode)
                } else {
                    AppModeCall::Skip
                }
            } else {
                if caps.entry_points.set_preferred_app_mode {
                    if is_dark_mode {
                        AppModeCall::SetPreferredAppMode(PreferredAppMode::AllowDark)
                    } else {
                        AppModeCall::SetPreferredAppMode(PreferredAppMode::Default)
                    }
                } else {
                    AppModeCall::Skip
                }
            }
        },
        None => AppModeCall::Skip,
    }
}

/// The whole application-level outcome. When the capability is unsupported
/// the theme is light and nothing is invoked; otherwise the preference
/// resolves against the system state, the version-appropriate mode call is
/// selected, and the color-policy refresh is invoked if its entry point
/// resolved.
pub open spec fn app_plan_spec(
    caps: DarkModeCapability,
    system: SystemDarkMode,
    preference: ThemePreference,
) -> AppThemePlan {
    if caps.supported_spec() {
        AppThemePlan {
            theme: effective_theme_spec(wants_dark_spec(preference, system)),
            mode_call: app_mode_call_spec(caps, wants_dark_spec(preference, system)),
            refresh_color_policy: caps.entry_points.refresh_immersive_color_policy_state,
        }
    } else {
        AppThemePlan {
            theme: EffectiveTheme::Light,
            mode_call: AppModeCall::Skip,
            refresh_color_policy: false,
        }
    }
}

/// Negotiates the application theme: resolves the preference against the
/// system state and plans the version-appropriate OS calls.
pub fn try_app_theme(
    caps: &DarkModeCapability,
    system: &SystemDarkMode,
    preference: ThemePreference,
) -> (r: AppThemePlan)
    ensures
        r == app_plan_spec(*caps, *system, preference),
{
    if caps.supported() {
        let is_dark_mode = match preference {
            ThemePreference::Dark => true,
            ThemePreference::Light => false,
            ThemePreference::Unspecified => should_use_dark_mode(system),
        };
        AppThemePlan {
            theme: if is_dark_mode {
                EffectiveTheme::Dark
            } else {
                EffectiveTheme::Light
            },
            mode_call: allow_dark_mode_for_app(caps, is_dark_mode),
            refresh_color_policy: caps.entry_points.refresh_immersive_color_policy_state,
        }
    } else {
        AppThemePlan {
            theme: EffectiveTheme::Light,
            mode_call: AppModeCall::Skip,
            refresh_color_policy: false,
        }
    }
}

/// The per-window mutation the negotiation decided on.
#[derive(Clone, Copy, Debug, PartialEq, Eq)]
pub enum AllowWindowCall {
    /// No call: capability unsupported or the entry point missing.
    Skip,
    /// Invoke the per-window toggle with this dark flag.
    AllowDarkModeForWindow(bool),
}

/// Outcome of the first half of a per-window negotiation. After the driver
/// performs `allow_call` it re-queries the window's own allow flag and hands
/// that to [`refresh_titlebar_theme_color`] for the titlebar decision.
#[derive(Clone, Copy, Debug, PartialEq, Eq)]
pub struct WindowThemePlan {
    pub theme: EffectiveTheme,
    pub allow_call: AllowWindowCall,
}

/// The per-window toggle is invoked only when the capability is supported and
/// its entry point resolved (it is guarded on both).
pub open spec fn allow_window_call_spec(caps: DarkModeCapability, dark: bool) -> AllowWindowCall {
    if caps.supported_spec() && caps.entry_points.allow_dark_mode_for_window {
        AllowWindowCall::AllowDarkModeForWindow(dark)
    } else {
        AllowWindowCall::Skip
    }
}

/// Plans the per-window toggle for a resolved dark flag.
pub fn allow_dark_mode_for_window(caps: &DarkModeCapability, is_dark_mode: bool) -> (r:
    AllowWindowCall)
    ensures
        r == allow_window_call_spec(*caps, is_dark_mode),
{
    if caps.supported() && caps.entry_points.allow_dark_mode_for_window {
        AllowWindowCall::AllowDarkModeForWindow(is_dark_mode)
    } else {
        AllowWindowCall::Skip
    }
}

/// The whole first half of the per-window outcome.
pub open spec fn window_plan_spec(
    caps: DarkModeCapability,
    system: SystemDarkMode,
    preference: ThemePreference,
) -> WindowThemePlan {
    if caps.supported_spec() {
        WindowThemePlan {
            theme: effective_theme_spec(wants_dark_spec(preference, system)),
            allow_call: allow_window_call_spec(caps, wants_dark_spec(preference, system)),
        }
    } else {
        WindowThemePlan { theme: EffectiveTheme::Light, allow_call: AllowWindowCall::Skip }
    }
}

/// Negotiates a window's theme: resolves the preference against the system
/// state and plans the per-window toggle. The titlebar is recomputed
/// afterwards by [`refresh_titlebar_theme_color`], from the window's own
/// re-queried allow flag rather than from the flag applied here.
pub fn try_window_theme(
    caps: &DarkModeCapability,
    system: &SystemDarkMode,
    preference: ThemePreference,
) -> (r: WindowThemePlan)
    ensures
        r == window_plan_spec(*caps, *system, preference),
{
    if caps.supported() {
        let is_dark_mode = match preference {
            ThemePreference::Dark => true,
            ThemePreference::Light => false,
            ThemePreference::Unspecified => should_use_dark_mode(system),
        };
        WindowThemePlan {
            theme: if is_dark_mode {
                EffectiveTheme::Dark
            } else {
                EffectiveTheme::Light
            },
            allow_call: allow_dark_mode_for_window(caps, is_dark_mode),
        }
    } else {
        WindowThemePlan { theme: EffectiveTheme::Light, allow_call: AllowWindowCall::Skip }
    }
}

/// The titlebar mutation the negotiation decided on.
#[derive(Clone, Copy, Debug, PartialEq, Eq)]
pub enum TitlebarCall {
    /// No call: capability unsupported, or the composition-attribute entry
    /// point missing on a build that needs it.
    Skip,
    /// Set the immersive dark-mode window property to this flag (the
    /// property-set mechanism of the legacy generation).
    SetProp(bool),
    /// Set the "use dark mode colors" window composition attribute to this
    /// flag (the mechanism of the newer generation).
    SetWindowCompositionAttribute(bool),
}

/// What the window's own allow-flag query reported; a missing entry point
/// (`None`) counts as "not allowed".
pub open spec fn window_allows_dark_spec(allowed_for_window: Option<bool>) -> bool {
    match allowed_for_window {
        Some(b) => b,
        None => false,
    }
}

/// Interprets the outcome of the per-window allow-flag query.
pub fn window_allows_dark(allowed_for_window: Option<bool>) -> (r: bool)
    ensures
        r == window_allows_dark_spec(allowed_for_window),
{
    match allowed_for_window {
        Some(b) => b,
        None => false,
    }
}

/// The titlebar's dark flag: the system wants dark and the window's own
/// re-queried allow flag agrees. Deliberately independent of the flag the
/// negotiation just applied, tolerating other code having toggled the window.
pub open spec fn titlebar_dark_spec(system: SystemDarkMode, allowed_for_window: Option<
    bool,
>) -> bool {
    system_wants_dark_spec(system) && window_allows_dark_spec(allowed_for_window)
}

/// Which titlebar mechanism a build selects, and the flag it carries. The
/// legacy generation sets a window property (always linked, never skipped on
/// those builds); the newer generation needs the composition-attribute entry
/// point and skips the call when it is missing. Below the supported range
/// nothing is invoked.
pub open spec fn titlebar_call_spec(
    caps: DarkModeCapability,
    system: SystemDarkMode,
    allowed_for_window: Option<bool>,
) -> TitlebarCall {
    if caps.supported_spec() {
        match caps.build {
            Some(ver) => {
                if ver < PREFERRED_APP_MODE_MIN_BUILD {
                    TitlebarCall::SetProp(titlebar_dark_spec(system, allowed_for_window))
                } else if caps.entry_points.set_window_composition_attribute {
                    TitlebarCall::SetWindowCompositionAttribute(
                        titlebar_dark_spec(system, allowed_for_window),
                    )
                } else {
                    TitlebarCall::Skip
                }
            },
            None => TitlebarCall::Skip,
        }
    } else {
        TitlebarCall::Skip
    }
}

/// Recomputes the titlebar color from the system state and the window's own
/// re-queried allow flag (`allowed_for_window`, `None` when that entry point
/// is missing), and plans the version-appropriate mechanism to apply it.
pub fn refresh_titlebar_theme_color(
    caps: &DarkModeCapability,
    system: &SystemDarkMode,
    allowed_for_window: Option<bool>,
) -> (r: TitlebarCall)
    ensures
        r == titlebar_call_spec(*caps, *system, allowed_for_window),
{
    if caps.supported() {
        let dark = should_use_dark_mode(system) && window_allows_dark(allowed_for_window);
        match caps.build {
            Some(ver) => {
                if ver < PREFERRED_APP_MODE_MIN_BUILD {
                    TitlebarCall::SetProp(dark)
                } else if caps.entry_points.set_window_composition_attribute {
                    TitlebarCall::SetWindowCompositionAttribute(dark)
                } else {
                    TitlebarCall::Skip
                }
            },
            None => TitlebarCall::Skip,
        }
    } else {
        TitlebarCall::Skip
    }
}

} // verus!
