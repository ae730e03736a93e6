use edl_gen::update_version::{bump_is_greater, VersionError};

#[test]
fn test_bump_greater() {
    assert!(bump_is_greater("1.2.0", "1.2.3").unwrap());
    assert!(bump_is_greater("0.2.0", "1.2.3").unwrap());
    assert!(bump_is_greater("0.2.0", "0.2.3").unwrap());
}

#[test]
fn bump_not_greater_for_same_or_older() {
    assert!(!bump_is_greater("1.2.3", "1.2.3").unwrap());
    assert!(!bump_is_greater("1.3.0", "1.2.9").unwrap());
    assert!(!bump_is_greater("1.0.0", "1.0.0-rc.1").unwrap());
}

#[test]
fn bump_refuses_invalid_versions() {
    assert_eq!(bump_is_greater("1.0", "1.2.3"), Err(VersionError::InvalidVersion));
    assert_eq!(bump_is_greater("1.0.0", "v1.2.3"), Err(VersionError::InvalidVersion));
}
