use s3_generic::directory::{normalize_prefix, S3DirectoryAddr};

fn client() -> aws_sdk_s3::Client {
    let conf = aws_sdk_s3::Config::builder()
        .behavior_version(aws_sdk_s3::config::BehaviorVersion::latest())
        .region(aws_sdk_s3::config::Region::new("us-east-1"))
        .build();
    aws_sdk_s3::Client::from_conf(conf)
}

#[test]
fn prefix_with_and_without_slash_are_the_same_directory() {
    let c = client();
    let a = S3DirectoryAddr::new(&c, "b", "a/b");
    let b = S3DirectoryAddr::new(&c, "b", "a/b/");
    assert_eq!(a.prefix(), "a/b/");
    assert_eq!(b.prefix(), "a/b/");
    assert_eq!(a.bucket(), "b");
}

#[test]
fn normalizing_twice_changes_nothing() {
    let once = normalize_prefix("jobs");
    let twice = normalize_prefix(&once);
    assert_eq!(once, "jobs/");
    assert_eq!(twice, "jobs/");
}

#[test]
fn empty_prefix_becomes_root_slash() {
    assert_eq!(normalize_prefix(""), "/");
}

#[test]
fn destination_key_replaces_the_source_prefix() {
    let c = client();
    let src = S3DirectoryAddr::new(&c, "b", "jobs");
    let dst = S3DirectoryAddr::new(&c, "other", "archive/jobs/");
    assert_eq!(src.destination_key(&dst, "jobs/sub/2.json"), "archive/jobs/sub/2.json");
    assert_eq!(src.destination_key(&dst, "jobs/1.json"), "archive/jobs/1.json");
}

#[test]
fn destination_key_keeps_a_key_outside_the_prefix_whole() {
    let c = client();
    let src = S3DirectoryAddr::new(&c, "b", "jobs/");
    let dst = S3DirectoryAddr::new(&c, "b", "copy/");
    assert_eq!(src.destination_key(&dst, "other/x"), "copy/other/x");
}

#[test]
fn copy_source_joins_bucket_and_key() {
    let c = client();
    let src = S3DirectoryAddr::new(&c, "bucket-1", "jobs/");
    assert_eq!(src.copy_source("jobs/1.json"), "bucket-1/jobs/1.json");
}

#[test]
fn copy_plan_has_one_request_per_key() {
    let c = client();
    let src = S3DirectoryAddr::new(&c, "src-bucket", "jobs/");
    let dst = S3DirectoryAddr::new(&c, "dst-bucket", "backup");
    let keys = vec!["jobs/1.json".to_string(), "jobs/sub/2.json".to_string()];
    let plan = src.copy_plan(&dst, &keys);
    assert_eq!(plan.len(), 2);
    assert_eq!(plan[0].source_key, "jobs/1.json");
    assert_eq!(plan[0].copy_source, "src-bucket/jobs/1.json");
    assert_eq!(plan[0].dest_bucket, "dst-bucket");
    assert_eq!(plan[0].dest_key, "backup/1.json");
    assert_eq!(plan[1].dest_key, "backup/sub/2.json");
    assert_eq!(plan[1].copy_source, "src-bucket/jobs/sub/2.json");
}

#[test]
fn copy_plan_of_empty_directory_is_empty() {
    let c = client();
    let src = S3DirectoryAddr::new(&c, "b", "jobs/");
    let dst = S3DirectoryAddr::new(&c, "b", "copy/");
    assert!(src.copy_plan(&dst, &Vec::new()).is_empty());
}
