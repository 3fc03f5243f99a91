use cubely_core::java::{require_java, JavaVersion};
use cubely_core::versions::is_supported_forge_mc;

#[test]
fn java_family_thresholds() {
    assert!(matches!(require_java("1.12.2"), JavaVersion::Java8));
    assert!(matches!(require_java("1.17"), JavaVersion::Java8));
    assert!(matches!(require_java("1.19"), JavaVersion::Java17));
    assert!(matches!(require_java("1.20.6"), JavaVersion::Java21));
}

#[test]
fn java_family_boundaries() {
    assert!(matches!(require_java("1.13"), JavaVersion::Java8));
    assert!(matches!(require_java("1.16.5"), JavaVersion::Java8));
    assert!(matches!(require_java("1.18"), JavaVersion::Java17));
    assert!(matches!(require_java("1.20.4"), JavaVersion::Java17));
    assert!(matches!(require_java("1.20.5"), JavaVersion::Java21));
    assert!(matches!(require_java("1.21.1"), JavaVersion::Java21));
}

#[test]
fn java_family_compares_numerically_not_by_characters() {
    // single-digit minors sort after double-digit ones character-wise;
    // the routing must compare the numbers
    assert!(matches!(require_java("1.9"), JavaVersion::Java8));
    assert!(matches!(require_java("1.8.9"), JavaVersion::Java8));
    assert!(matches!(require_java("1.9.4"), JavaVersion::Java8));
}

#[test]
fn forge_support_threshold() {
    assert!(is_supported_forge_mc("1.7.10"));
    assert!(!is_supported_forge_mc("1.7.9"));
    assert!(is_supported_forge_mc("1.8"));
    assert!(is_supported_forge_mc("1.8.9"));
    assert!(is_supported_forge_mc("1.12.2"));
    assert!(is_supported_forge_mc("2.0"));
    assert!(!is_supported_forge_mc("0.9"));
}

#[test]
fn forge_support_malformed_versions() {
    assert!(!is_supported_forge_mc(""));
    assert!(!is_supported_forge_mc("abc"));
    assert!(!is_supported_forge_mc("1"));
    assert!(!is_supported_forge_mc("1."));
    assert!(!is_supported_forge_mc("1.x"));
    assert!(!is_supported_forge_mc("+2.0"));
}
