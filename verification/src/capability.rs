//! The once-per-process capability probe: which Windows build is running and
//! which dynamic dark-mode entry points resolved.
//!
//! The dark-mode surface is private to the OS, so every entry point is looked
//! up dynamically by the caller; this module only reasons about the outcome of
//! those lookups, held as plain values in a capability table that is built
//! once and passed by reference to each negotiation.

use vstd::prelude::*;

verus! {

/// First Windows 10 build whose theme service exposes the dark-mode entry
/// points at all.
pub const DARK_MODE_MIN_BUILD: u32 = 17763;

/// First build on which the per-process toggle is superseded by the
/// "set preferred app mode" entry point, and the titlebar is driven through a
/// window composition attribute instead of a window property.
pub const PREFERRED_APP_MODE_MIN_BUILD: u32 = 18362;

/// What the dynamic version-reporting entry point returned: its status code
/// and the version triple it filled in.
#[derive(Clone, Copy, Debug, PartialEq, Eq)]
pub struct OsVersionQuery {
    pub status: i32,
    pub major: u32,
    pub minor: u32,
    pub build: u32,
}

/// Which optional dark-mode entry points resolved. Each field is the outcome
/// of one dynamic lookup; the statically linked window-property and
/// system-parameter calls need no entry here.
#[derive(Clone, Copy, Debug, PartialEq, Eq)]
pub struct EntryPoints {
    /// Per-process dark-mode toggle of the theme service (the legacy generation).
    pub allow_dark_mode_for_app: bool,
    /// "Set preferred app mode" of the theme service (the newer generation).
    pub set_preferred_app_mode: bool,
    /// "Refresh immersive color policy state" of the theme service.
    pub refresh_immersive_color_policy_state: bool,
    /// Per-window dark-mode toggle of the theme service.
    pub allow_dark_mode_for_window: bool,
    /// "Set window composition attribute" of the window manager.
    pub set_window_composition_attribute: bool,
}

/// A table with every optional entry point missing.
pub open spec fn no_entry_points() -> EntryPoints {
    EntryPoints {
        allow_dark_mode_for_app: false,
        set_preferred_app_mode: false,
        refresh_immersive_color_policy_state: false,
        allow_dark_mode_for_window: false,
        set_window_composition_attribute: false,
    }
}

/// The Windows 10 build number, if the version query succeeded and reported
/// major version 10, minor version 0. Any other outcome counts as unknown.
pub open spec fn win10_build_of(query: Option<OsVersionQuery>) -> Option<u32> {
    match query {
        Some(v) => {
            if v.status >= 0 && v.major == 10 && v.minor == 0 {
                Some(v.build)
            } else {
                None
            }
        },
        None => None,
    }
}

/// Interprets the outcome of the version-reporting entry point; `None` means
/// the entry point itself could not be resolved.
pub fn win10_build_version(query: Option<OsVersionQuery>) -> (r: Option<u32>)
    ensures
        r == win10_build_of(query),
{
    match query {
        Some(v) => {
            if v.status >= 0 && v.major == 10 && v.minor == 0 {
                Some(v.build)
            } else {
                None
            }
        },
        None => None,
    }
}

/// Everything the negotiation needs to know about the host, probed once per
/// process: the Windows 10 build (if it could be determined) and which
/// dynamic entry points resolved.
#[derive(Clone, Copy, Debug, PartialEq, Eq)]
pub struct DarkModeCapability {
    pub build: Option<u32>,
    pub entry_points: EntryPoints,
}

impl DarkModeCapability {
    /// Dark mode is supported: the build is known and at or past the first
    /// build that carries the dark-mode surface. An unknown build (a failed
    /// or missing version query) counts as unsupported.
    pub open spec fn supported_spec(self) -> bool {
        match self.build {
            Some(v) => v >= DARK_MODE_MIN_BUILD,
            None => false,
        }
    }

    pub fn supported(&self) -> (r: bool)
        ensures
            r == self.supported_spec(),
    {
        match self.build {
            Some(v) => v >= DARK_MODE_MIN_BUILD,
            None => false,
        }
    }

    /// Builds the capability table from the raw probe outcomes.
    pub fn probe(query: Option<OsVersionQuery>, entry_points: EntryPoints) -> (r: Self)
        ensures
            r.build == win10_build_of(query),
            r.entry_points == entry_points,
    {
        DarkModeCapability { build: win10_build_version(query), entry_points }
    }
}

} // verus!
