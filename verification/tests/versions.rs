use uma::version::{
    is_version_supported, select_lower_version, uma_protocol_version, Error, Version,
};

#[test]
fn latest_version_is_supported() {
    assert_eq!(uma_protocol_version(), "1.0");
    assert!(is_version_supported(&uma_protocol_version()));
}

#[test]
fn versions_are_read() {
    assert_eq!(Version::parse("1.12"), Some(Version { major: 1, minor: 12 }));
    assert_eq!(Version::parse("1"), None);
    assert_eq!(Version::parse("1."), None);
    assert_eq!(Version::parse("1.2.3"), None);
    assert_eq!(Version::parse("a.b"), None);
}

#[test]
fn lower_version_is_selected() {
    assert_eq!(select_lower_version("1.0", "0.3").unwrap(), "0.3");
    assert_eq!(select_lower_version("0.3", "1.0").unwrap(), "0.3");
    assert_eq!(select_lower_version("1.2", "1.10").unwrap(), "1.2");
    assert_eq!(select_lower_version("01.0", "1.0").unwrap(), "01.0");
    assert_eq!(select_lower_version("x", "1.0"), Err(Error::InvalidVersion));
    assert_eq!(select_lower_version("1.0", ""), Err(Error::InvalidVersion));
}
