use s3_generic::credentials::{
    masked_debug, CredentialsError, S3Credentials, DEFAULT_S3_ENDPOINT, DEFAULT_S3_REGION,
};

fn s(x: &str) -> Option<String> {
    Some(x.to_string())
}

#[test]
fn unset_region_and_endpoint_take_defaults() {
    let c = S3Credentials::from_config_values(None, None, s("AK"), s("SK"), DEFAULT_S3_REGION, DEFAULT_S3_ENDPOINT).unwrap();
    assert_eq!(c.cloud_region(), "sf03");
    assert_eq!(c.endpoint(), "https://sfo3.digitaloceanspaces.com");
    assert_eq!(DEFAULT_S3_REGION, "sf03");
    assert_eq!(DEFAULT_S3_ENDPOINT, "https://sfo3.digitaloceanspaces.com");
    assert_eq!(c.access_key(), "AK");
    assert_eq!(c.secret_key(), "SK");
}

#[test]
fn configured_region_and_endpoint_are_kept() {
    let c = S3Credentials::from_config_values(s("nyc3"), s("https://e"), s("AK"), s("SK"), DEFAULT_S3_REGION, DEFAULT_S3_ENDPOINT).unwrap();
    assert_eq!(c.cloud_region(), "nyc3");
    assert_eq!(c.endpoint(), "https://e");
}

#[test]
fn missing_access_key_is_an_error() {
    let r = S3Credentials::from_config_values(None, None, None, s("SK"), "r", "e");
    assert_eq!(r.err(), Some(CredentialsError::MissingAccessKey));
}

#[test]
fn missing_secret_key_is_an_error() {
    let r = S3Credentials::from_config_values(None, None, s("AK"), None, "r", "e");
    assert_eq!(r.err(), Some(CredentialsError::MissingSecretKey));
}

#[test]
fn equality_ignores_the_keys() {
    let a = S3Credentials::new("r".into(), "e".into(), "a1".into(), "s1".into());
    let b = S3Credentials::new("r".into(), "e".into(), "a2".into(), "s2".into());
    let c = S3Credentials::new("r2".into(), "e".into(), "a1".into(), "s1".into());
    assert!(a == b);
    assert!(a != c);
}

#[test]
fn matches_endpoint_and_region_compares_both() {
    let a = S3Credentials::new("r".into(), "e".into(), "a".into(), "s".into());
    assert!(a.matches_endpoint_and_region("e", "r"));
    assert!(!a.matches_endpoint_and_region("r", "e"));
    assert!(!a.matches_endpoint_and_region("e", "r2"));
}

#[test]
fn debug_string_masks_the_keys() {
    let a = S3Credentials::new("nyc3".into(), "https://e".into(), "AKIA".into(), "SECRET".into());
    let d = a.debug_string();
    assert_eq!(
        d,
        "S3Credentials { cloud_region: \"nyc3\", endpoint: \"https://e\", access_key: \"***\", secret_key: \"***\" }"
    );
    assert!(!d.contains("AKIA"));
    assert!(!d.contains("SECRET"));
}

#[test]
fn group_defaults_replace_the_library_defaults() {
    let c = S3Credentials::from_config_values(None, None, s("AK"), s("SK"), "ams3", "https://ams3").unwrap();
    assert_eq!(c.cloud_region(), "ams3");
    assert_eq!(c.endpoint(), "https://ams3");
}

#[test]
fn debug_string_matches_a_derived_debug_and_escapes() {
    let a = S3Credentials::new("r\"1".into(), "e".into(), "a".into(), "s".into());
    assert_eq!(
        a.debug_string(),
        "S3Credentials { cloud_region: \"r\\\"1\", endpoint: \"e\", access_key: \"***\", secret_key: \"***\" }"
    );
    assert_eq!(
        masked_debug("\"x\"", "\"y\""),
        "S3Credentials { cloud_region: \"x\", endpoint: \"y\", access_key: \"***\", secret_key: \"***\" }"
    );
}

#[test]
fn debug_string_does_not_depend_on_the_keys() {
    let a = S3Credentials::new("r".into(), "e".into(), "a1".into(), "s1".into());
    let b = S3Credentials::new("r".into(), "e".into(), "a2".into(), "s2".into());
    assert_eq!(a.debug_string(), b.debug_string());
}
