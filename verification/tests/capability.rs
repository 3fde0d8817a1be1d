use dark_mode::DarkModeCapability;
use dark_mode::EntryPoints;
use dark_mode::OsVersionQuery;
use dark_mode::SystemDarkMode;
use dark_mode::is_high_contrast;
use dark_mode::should_use_dark_mode;
use dark_mode::win10_build_version;

fn all_entry_points() -> EntryPoints {
    EntryPoints {
        allow_dark_mode_for_app: true,
        set_preferred_app_mode: true,
        refresh_immersive_color_policy_state: true,
        allow_dark_mode_for_window: true,
        set_window_composition_attribute: true,
    }
}

#[test]
fn build_version_reported() {
    let q = OsVersionQuery { status: 0, major: 10, minor: 0, build: 19045 };
    assert_eq!(win10_build_version(Some(q)), Some(19045));
}

#[test]
fn build_version_missing_entry_point() {
    assert_eq!(win10_build_version(None), None);
}

#[test]
fn build_version_failed_status() {
    let q = OsVersionQuery { status: -1, major: 10, minor: 0, build: 19045 };
    assert_eq!(win10_build_version(Some(q)), None);
}

#[test]
fn build_version_wrong_major() {
    let q = OsVersionQuery { status: 0, major: 6, minor: 0, build: 9600 };
    assert_eq!(win10_build_version(Some(q)), None);
}

#[test]
fn build_version_wrong_minor() {
    let q = OsVersionQuery { status: 0, major: 10, minor: 1, build: 19045 };
    assert_eq!(win10_build_version(Some(q)), None);
}

#[test]
fn supported_at_first_dark_mode_build() {
    let caps = DarkModeCapability { build: Some(17763), entry_points: all_entry_points() };
    assert!(caps.supported());
}

#[test]
fn unsupported_just_below_threshold() {
    let caps = DarkModeCapability { build: Some(17762), entry_points: all_entry_points() };
    assert!(!caps.supported());
}

#[test]
fn unsupported_without_build() {
    let caps = DarkModeCapability { build: None, entry_points: all_entry_points() };
    assert!(!caps.supported());
}

#[test]
fn probe_combines_query_and_entry_points() {
    let q = OsVersionQuery { status: 0, major: 10, minor: 0, build: 18362 };
    let caps = DarkModeCapability::probe(Some(q), all_entry_points());
    assert_eq!(caps.build, Some(18362));
    assert_eq!(caps.entry_points, all_entry_points());
    assert!(caps.supported());
}

#[test]
fn probe_with_failed_query_is_unsupported() {
    let caps = DarkModeCapability::probe(None, all_entry_points());
    assert_eq!(caps.build, None);
    assert!(!caps.supported());
}

#[test]
fn system_dark_when_flag_set_and_no_high_contrast() {
    let s = SystemDarkMode { apps_use_dark_mode: Some(true), high_contrast: false };
    assert!(should_use_dark_mode(&s));
}

#[test]
fn system_light_when_high_contrast_active() {
    let s = SystemDarkMode { apps_use_dark_mode: Some(true), high_contrast: true };
    assert!(!should_use_dark_mode(&s));
}

#[test]
fn system_light_when_flag_clear() {
    let s = SystemDarkMode { apps_use_dark_mode: Some(false), high_contrast: false };
    assert!(!should_use_dark_mode(&s));
}

#[test]
fn system_light_when_flag_entry_point_missing() {
    let s = SystemDarkMode { apps_use_dark_mode: None, high_contrast: false };
    assert!(!should_use_dark_mode(&s));
}

#[test]
fn high_contrast_flag_set() {
    assert!(is_high_contrast(true, 1));
}

#[test]
fn high_contrast_flag_set_among_others() {
    assert!(is_high_contrast(true, 0b111));
}

#[test]
fn high_contrast_flag_clear() {
    assert!(!is_high_contrast(true, 0));
}

#[test]
fn high_contrast_query_failed() {
    assert!(!is_high_contrast(false, 1));
}
