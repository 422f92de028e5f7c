use rustitles::version::is_outdated;

#[test]
fn longer_equal_prefix_means_outdated() {
    assert!(is_outdated("1.0", "1.0.1"));
    assert!(!is_outdated("1.0.1", "1.0"));
}

#[test]
fn components_compare_numerically() {
    assert!(is_outdated("1.2", "1.10"));
    assert!(!is_outdated("1.10", "1.2"));
    assert!(is_outdated("1.9.9", "2.0.0"));
    assert!(!is_outdated("2.0", "1.9"));
}

#[test]
fn equal_versions_are_not_outdated() {
    assert!(!is_outdated("1.0", "1.0"));
    assert!(!is_outdated("v2.1.0", "2.1.0"));
}

#[test]
fn v_prefixes_are_ignored() {
    assert!(is_outdated("v1.2", "v1.3"));
    assert!(is_outdated("1.2", "v1.3"));
    assert!(!is_outdated("v1.3", "1.2"));
}

#[test]
fn malformed_components_count_as_zero() {
    assert!(is_outdated("abc", "1"));
    assert!(!is_outdated("1", "abc"));
    assert!(is_outdated("1.x", "1.1"));
    assert!(!is_outdated("", ""));
    assert!(is_outdated("99999999999999999999", "1"));
}
