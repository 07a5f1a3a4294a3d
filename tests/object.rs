use s3_generic::object::{S3Addr, S3Error, UploadOptions};

#[test]
fn missing_key_is_not_found() {
    let e = S3Error::from_get_failure(true, "NoSuchKey".to_string());
    assert!(e.is_not_found());
    assert!(matches!(e, S3Error::NotFound));
}

#[test]
fn other_get_failure_is_transport() {
    let e = S3Error::from_get_failure(false, "connection refused".to_string());
    assert!(!e.is_not_found());
    match e {
        S3Error::Transport(m) => assert_eq!(m, "connection refused"),
        _ => panic!("expected a transport error"),
    }
}

#[test]
fn default_upload_is_public_and_pretty() {
    let o = UploadOptions::default();
    assert!(o.public_read);
    assert!(o.pretty_json);
}

#[test]
fn object_address_holds_bucket_and_key() {
    let conf = aws_sdk_s3::Config::builder()
        .behavior_version(aws_sdk_s3::config::BehaviorVersion::latest())
        .build();
    let c = aws_sdk_s3::Client::from_conf(conf);
    let a = S3Addr::new(&c, "b", "k");
    assert_eq!(a.bucket, "b");
    assert_eq!(a.key, "k");
}
