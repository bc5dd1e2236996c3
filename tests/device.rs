use alxr_client_android::device::{
    contains_str, get_firmware_version, is_device, property_firmware_version, version_from_parts,
    FirmwareVersion,
};

fn fw(major: u32, minor: u32, patch: u32) -> FirmwareVersion {
    FirmwareVersion { major, minor, patch }
}

#[test]
fn firmware_version_parses_three_numbers() {
    assert_eq!(property_firmware_version("12.3.1"), Some(fw(12, 3, 1)));
}

#[test]
fn unparseable_firmware_version_is_zero() {
    assert_eq!(property_firmware_version("abc"), None);
    assert_eq!(get_firmware_version("abc", "xyz"), fw(0, 0, 0));
}

#[test]
fn empty_property_gives_zero_version() {
    assert_eq!(get_firmware_version("", "5.6.7"), fw(0, 0, 0));
}

#[test]
fn firmware_version_falls_back_on_display() {
    assert_eq!(get_firmware_version("user-build", "50.1.2"), fw(50, 1, 2));
    assert_eq!(get_firmware_version("7.8.9", "50.1.2"), fw(7, 8, 9));
}

#[test]
fn firmware_version_short_and_long() {
    assert_eq!(property_firmware_version("4"), Some(fw(4, 0, 0)));
    assert_eq!(property_firmware_version("1.2.3.4"), Some(fw(1, 2, 3)));
    assert_eq!(property_firmware_version("2.beta.5"), Some(fw(2, 0, 5)));
}

#[test]
fn version_from_parts_counts_text_as_zero() {
    assert_eq!(version_from_parts(&vec![Some(3), None, Some(9)]), fw(3, 0, 9));
    assert_eq!(version_from_parts(&vec![]), fw(0, 0, 0));
    assert_eq!(version_from_parts(&vec![Some(-1)]), fw(u32::MAX, 0, 0));
}

#[test]
fn substring_search() {
    assert!(contains_str("quest pro", "pro"));
    assert!(contains_str("abc", ""));
    assert!(contains_str("", ""));
    assert!(!contains_str("ab", "abc"));
    assert!(!contains_str("Lynx", "lynx"));
    assert!(contains_str("aab", "ab"));
}

#[test]
fn device_match_ignores_case() {
    assert!(is_device("Lynx", "LYNX-R1", "r1", "Acme"));
    assert!(is_device("lynx", "Quest", "hollywood", "LynX Mixed Reality"));
    assert!(!is_device("Lynx", "Quest 3", "eureka", "Oculus"));
}
