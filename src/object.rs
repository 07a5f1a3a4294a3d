use vstd::prelude::*;

verus! {

/// Why an object operation failed.
pub enum S3Error {
    /// The key does not exist: an expected, recoverable outcome.
    NotFound,
    /// A network or service-level failure.
    Transport(String),
    /// The payload could not be encoded or decoded as JSON.
    Serialization(String),
    /// The response body could not be read to its end.
    BodyReadError(String),
}

impl S3Error {
    /// Classifies a failed download request: a missing key is `NotFound`,
    /// anything else a `Transport` failure carrying the service's message.
    pub fn from_get_failure(no_such_key: bool, message: String) -> (r: S3Error)
        ensures
            no_such_key <==> r is NotFound,
            !no_such_key ==> r == S3Error::Transport(message),
    {
        if no_such_key {
            S3Error::NotFound
        } else {
            S3Error::Transport(message)
        }
    }

    pub fn is_not_found(&self) -> (r: bool)
        ensures
            r == (self is NotFound),
    {
        match self {
            S3Error::NotFound => true,
            _ => false,
        }
    }
}

/// How an upload is written: whether the object is made publicly readable,
/// and whether JSON payloads are pretty-printed (readable when debugging) or
/// compact (smaller, faster to produce).
pub struct UploadOptions {
    pub public_read: bool,
    pub pretty_json: bool,
}

impl Default for UploadOptions {
    /// Public-read objects with pretty-printed JSON.
    fn default() -> (r: UploadOptions)
        ensures
            r.public_read,
            r.pretty_json,
    {
        UploadOptions { public_read: true, pretty_json: true }
    }
}

/// One object of the store: a (bucket, key) pair with the client that
/// reaches it.
#[derive(Clone, Copy)]
pub struct S3Addr<'a> {
    pub s3_client: &'a aws_sdk_s3::Client,
    pub bucket: &'a str,
    pub key: &'a str,
}

impl<'a> S3Addr<'a> {
    pub fn new(s3_client: &'a aws_sdk_s3::Client, bucket: &'a str, key: &'a str) -> (r: Self)
        ensures
            r.s3_client == s3_client,
            r.bucket == bucket,
            r.key == key,
    {
        S3Addr { s3_client, bucket, key }
    }
}

} // verus!
