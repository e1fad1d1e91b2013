use love::platform::Platform;

#[test]
fn platforms_have_short_names() {
    assert_eq!(Platform::Win32.as_short_str(), "win32");
    assert_eq!(Platform::Win64.as_short_str(), "win64");
    assert_eq!(Platform::Nix32.as_short_str(), "nix32");
    assert_eq!(Platform::Nix64.as_short_str(), "nix64");
    assert_eq!(Platform::Unknown.as_short_str(), "None");
    assert_eq!(Platform::Nix64.to_short_string(), "nix64".to_string());
}

#[test]
fn platforms_are_found_by_short_name() {
    for platform in [Platform::Win32, Platform::Win64, Platform::Nix32, Platform::Nix64] {
        assert_eq!(Platform::from_short_str(platform.as_short_str()), platform);
    }
    assert_eq!(Platform::from_short_str("None"), Platform::Unknown);
    assert_eq!(Platform::from_short_str("mac64"), Platform::Unknown);
    assert_eq!(Platform::from_short_str("Win64"), Platform::Unknown);
    assert_eq!(Platform::from_short_str("win64 "), Platform::Unknown);
    assert_eq!(Platform::from_short_str(""), Platform::Unknown);
}

#[test]
fn platforms_belong_to_a_family() {
    assert!(Platform::Win32.is_windows() && Platform::Win64.is_windows());
    assert!(Platform::Nix32.is_unix() && Platform::Nix64.is_unix());
    assert!(!Platform::Nix64.is_windows() && !Platform::Win64.is_unix());
    assert!(!Platform::Unknown.is_windows() && !Platform::Unknown.is_unix());
}
