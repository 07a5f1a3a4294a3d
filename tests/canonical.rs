use s3_generic::canonical::{json_key, s3_uri};
use s3_generic::credentials::S3Credentials;

#[test]
fn json_key_appends_json_suffix() {
    assert_eq!(json_key("cases/ny/7"), "cases/ny/7.json");
    assert_eq!(json_key(""), ".json");
}

#[test]
fn json_uri_embeds_bucket_key_and_endpoint() {
    let c = S3Credentials::new("nyc3".into(), "https://e".into(), "a".into(), "s".into());
    assert_eq!(
        s3_uri("case-bucket", &json_key("cases/ny/7"), &c),
        "s3://case-bucket/cases/ny/7.json?endpoint=https://e&region=nyc3"
    );
}

#[test]
fn uri_names_no_secret() {
    let c = S3Credentials::new("r".into(), "https://x".into(), "ACCESS".into(), "SECRET".into());
    let u = s3_uri("b", "k", &c);
    assert_eq!(u, "s3://b/k?endpoint=https://x&region=r");
    assert!(!u.contains("SECRET"));
    assert!(!u.contains("ACCESS"));
}
