use freya_platform::platform::{NavigationMode, PreferredTheme, TargetPlatform};

const ALL: [TargetPlatform; 6] = [
    TargetPlatform::Windows,
    TargetPlatform::MacOs,
    TargetPlatform::Linux,
    TargetPlatform::Android,
    TargetPlatform::Ios,
    TargetPlatform::Unknown,
];

#[test]
fn detect_maps_each_target_os() {
    assert_eq!(TargetPlatform::detect("windows"), TargetPlatform::Windows);
    assert_eq!(TargetPlatform::detect("macos"), TargetPlatform::MacOs);
    assert_eq!(TargetPlatform::detect("linux"), TargetPlatform::Linux);
    assert_eq!(TargetPlatform::detect("android"), TargetPlatform::Android);
    assert_eq!(TargetPlatform::detect("ios"), TargetPlatform::Ios);
}

#[test]
fn detect_unknown_os_names() {
    assert_eq!(TargetPlatform::detect("freebsd"), TargetPlatform::Unknown);
    assert_eq!(TargetPlatform::detect(""), TargetPlatform::Unknown);
    assert_eq!(TargetPlatform::detect("Linux"), TargetPlatform::Unknown);
    assert_eq!(TargetPlatform::detect("linuxx"), TargetPlatform::Unknown);
    assert_eq!(TargetPlatform::detect("io"), TargetPlatform::Unknown);
}

#[test]
fn get_prefers_root_context() {
    assert_eq!(TargetPlatform::get(Some(TargetPlatform::Ios), "linux"), TargetPlatform::Ios);
    assert_eq!(TargetPlatform::get(Some(TargetPlatform::Unknown), "windows"), TargetPlatform::Unknown);
}

#[test]
fn get_falls_back_to_detect() {
    assert_eq!(TargetPlatform::get(None, "android"), TargetPlatform::Android);
    assert_eq!(TargetPlatform::get(None, "plan9"), TargetPlatform::Unknown);
}

#[test]
fn desktop_and_mobile_classification() {
    assert!(TargetPlatform::Windows.is_desktop());
    assert!(TargetPlatform::MacOs.is_desktop());
    assert!(TargetPlatform::Linux.is_desktop());
    assert!(!TargetPlatform::Android.is_desktop());
    assert!(!TargetPlatform::Ios.is_desktop());
    assert!(!TargetPlatform::Unknown.is_desktop());
    assert!(TargetPlatform::Android.is_mobile());
    assert!(TargetPlatform::Ios.is_mobile());
    assert!(!TargetPlatform::Windows.is_mobile());
    assert!(!TargetPlatform::MacOs.is_mobile());
    assert!(!TargetPlatform::Linux.is_mobile());
    assert!(!TargetPlatform::Unknown.is_mobile());
}

#[test]
fn no_platform_is_desktop_and_mobile() {
    for p in ALL {
        assert!(!(p.is_desktop() && p.is_mobile()));
        assert_eq!(p == TargetPlatform::Unknown, !p.is_desktop() && !p.is_mobile());
    }
}

#[test]
fn defaults() {
    assert_eq!(NavigationMode::default(), NavigationMode::NotKeyboard);
    assert_eq!(PreferredTheme::default(), PreferredTheme::Light);
}
