use wallpaper_overrider::registry::{
    is_sid_path_component, normalize_sid, policies_path, sid_policy_subkey, sid_policy_target,
    validate_target_sid, SidError,
};

#[test]
fn sid_component_rejects_registry_path_injection() {
    assert!(!is_sid_path_component(""));
    assert!(!is_sid_path_component(r"S-1-5-21\Software"));
    assert!(!is_sid_path_component("S-1-5-21/Software"));
    assert!(!is_sid_path_component("S-1-5-21 "));
    assert!(!is_sid_path_component("HKEY_CURRENT_USER"));
}

#[test]
fn sid_component_accepts_numeric_sid_shape() {
    assert!(is_sid_path_component("S-1-5-18"));
    assert!(is_sid_path_component("S-1-5-21-123-456-789-1001"));
}

#[test]
fn sid_checks_come_in_order() {
    assert!(matches!(validate_target_sid("", true), Err(SidError::Empty)));
    let e = validate_target_sid("S-", true).unwrap_err();
    assert_eq!(e.message(), "SID contains invalid characters: S-");
    let e = validate_target_sid("S-1-5-18", false).unwrap_err();
    assert_eq!(e.message(), "Invalid Windows SID: S-1-5-18");
    assert!(validate_target_sid("S-1-5-18", true).is_ok());
    assert_eq!(SidError::Empty.message(), "SID must not be empty");
}

#[test]
fn policy_key_for_a_sid() {
    assert_eq!(
        policies_path(),
        r"Software\Microsoft\Windows\CurrentVersion\Policies\System"
    );
    assert_eq!(
        sid_policy_subkey("S-1-5-18"),
        r"S-1-5-18\Software\Microsoft\Windows\CurrentVersion\Policies\System"
    );
    assert_eq!(normalize_sid("  S-1-5-18\n"), "S-1-5-18");
    assert_eq!(
        sid_policy_target("S-1-5-21-1", true).unwrap(),
        r"S-1-5-21-1\Software\Microsoft\Windows\CurrentVersion\Policies\System"
    );
    assert!(sid_policy_target(r"S-1\..", true).is_err());
}
