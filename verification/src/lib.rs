//! Dark-mode theme negotiation for the Windows private theming surface.
//!
//! Given a caller's theme preference and what a one-time capability probe
//! found — the Windows 10 build number and which undocumented theming entry
//! points resolved — this library decides the effective theme for the
//! application and for each window, and which version-appropriate OS call
//! applies it. Decisions come back as plans (plain values naming the call and
//! its argument); an unverified driver performs them, since every mutation
//! goes through a private OS interface. A missing entry point or an
//! unsupported build never raises an error: the affected call is skipped and
//! the theme degrades to light.

mod capability;
mod laws;
mod negotiation;
mod theme;

pub use capability::DARK_MODE_MIN_BUILD;
pub use capability::DarkModeCapability;
pub use capability::EntryPoints;
pub use capability::OsVersionQuery;
pub use capability::PREFERRED_APP_MODE_MIN_BUILD;
pub use capability::no_entry_points;
pub use capability::win10_build_of;
pub use capability::win10_build_version;
pub use laws::lemma_dark_preference_wins;
pub use laws::lemma_high_contrast_blocks_unspecified_dark;
pub use laws::lemma_legacy_generation;
pub use laws::lemma_missing_entry_points_degrade_silently;
pub use laws::lemma_preferred_app_mode_generation;
pub use laws::lemma_theme_ignores_entry_points;
pub use laws::lemma_titlebar_independent_of_applied_dark;
pub use laws::lemma_unsupported_stays_light;
pub use laws::titlebar_flag_spec;
pub use negotiation::AllowWindowCall;
pub use negotiation::AppModeCall;
pub use negotiation::AppThemePlan;
pub use negotiation::PreferredAppMode;
pub use negotiation::TitlebarCall;
pub use negotiation::WindowThemePlan;
pub use negotiation::allow_dark_mode_for_app;
pub use negotiation::allow_dark_mode_for_window;
pub use negotiation::app_mode_call_spec;
pub use negotiation::app_plan_spec;
pub use negotiation::refresh_titlebar_theme_color;
pub use negotiation::titlebar_call_spec;
pub use negotiation::titlebar_dark_spec;
pub use negotiation::try_app_theme;
pub use negotiation::try_window_theme;
pub use negotiation::window_allows_dark;
pub use negotiation::window_allows_dark_spec;
pub use negotiation::window_plan_spec;
pub use theme::EffectiveTheme;
pub use theme::HCF_HIGHCONTRASTON;
pub use theme::SystemDarkMode;
pub use theme::ThemePreference;
pub use theme::effective_theme_spec;
pub use theme::is_high_contrast;
pub use theme::should_use_dark_mode;
pub use theme::system_wants_dark_spec;
pub use theme::wants_dark_spec;
