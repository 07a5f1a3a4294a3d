use vstd::prelude::*;
use crate::credentials::S3Credentials;

verus! {

/// A domain type stored as one JSON object per address: the address decides
/// the object key, the bucket and the credentials, each by a deterministic
/// derivation that the implementing type states as a spec function.
pub trait CannonicalS3ObjectLocation {
    type AddressInfo;

    /// The derived object key.
    spec fn spec_object_key(addr: &Self::AddressInfo) -> Seq<char>;

    /// The bucket of the domain type.
    spec fn spec_bucket(addr: &Self::AddressInfo) -> Seq<char>;

    /// The region of the credentials.
    spec fn spec_region(addr: &Self::AddressInfo) -> Seq<char>;

    /// The endpoint of the credentials.
    spec fn spec_endpoint(addr: &Self::AddressInfo) -> Seq<char>;

    fn generate_object_key(addr: &Self::AddressInfo) -> (r: String)
        ensures
            r@ == Self::spec_object_key(addr),
    ;

    fn generate_bucket(addr: &Self::AddressInfo) -> (r: &'static str)
        ensures
            r@ == Self::spec_bucket(addr),
    ;

    fn get_credentials(addr: &Self::AddressInfo) -> (r: &'static S3Credentials)
        ensures
            r@.region == Self::spec_region(addr),
            r@.endpoint == Self::spec_endpoint(addr),
    ;
}

/// The key of the JSON object for an address: the derived key and `.json`.
pub open spec fn json_key_of(key: Seq<char>) -> Seq<char> {
    key + ".json"@
}

/// The shareable locator of an object: scheme, bucket, key, then the endpoint
/// and region that reach it. It names no secret.
pub open spec fn s3_uri_of(
    bucket: Seq<char>,
    key: Seq<char>,
    endpoint: Seq<char>,
    region: Seq<char>,
) -> Seq<char> {
    "s3://"@ + bucket + "/"@ + key + "?endpoint="@ + endpoint + "&region="@ + region
}

/// The key of the JSON object stored under `key`.
pub fn json_key(key: &str) -> (r: String)
    ensures
        r@ == json_key_of(key@),
{
    let mut r = key.to_string();
    r.append(".json");
    r
}

pub fn get_openscrapers_json_key<T: CannonicalS3ObjectLocation>(addr: &T::AddressInfo) -> (r:
    String)
    ensures
        r@ == json_key_of(T::spec_object_key(addr)),
{
    let key = T::generate_object_key(addr);
    json_key(key.as_str())
}

/// The bucket and key of the JSON object for an address, which downloads,
/// uploads and deletes of the domain type all go to.
pub fn json_location<T: CannonicalS3ObjectLocation>(addr: &T::AddressInfo) -> (r: (
    &'static str,
    String,
))
    ensures
        r.0@ == T::spec_bucket(addr),
        r.1@ == json_key_of(T::spec_object_key(addr)),
{
    let bucket = T::generate_bucket(addr);
    let key = get_openscrapers_json_key::<T>(addr);
    (bucket, key)
}

/// Builds the locator of `key` in `bucket` as reached with `credentials`.
pub fn s3_uri(bucket: &str, key: &str, credentials: &S3Credentials) -> (r: String)
    ensures
        r@ == s3_uri_of(bucket@, key@, credentials@.endpoint, credentials@.region),
{
    let mut s = "s3://".to_string();
    s.append(bucket);
    s.append("/");
    s.append(key);
    s.append("?endpoint=");
    s.append(credentials.endpoint());
    s.append("&region=");
    s.append(credentials.cloud_region());
    s
}

/// The shareable locator of the JSON object for an address.
pub fn get_s3_json_uri<T: CannonicalS3ObjectLocation>(addr: &T::AddressInfo) -> (r: String)
    ensures
        r@ == s3_uri_of(
            T::spec_bucket(addr),
            json_key_of(T::spec_object_key(addr)),
            T::spec_endpoint(addr),
            T::spec_region(addr),
        ),
{
    let bucket = T::generate_bucket(addr);
    let key = get_openscrapers_json_key::<T>(addr);
    let credentials = T::get_credentials(addr);
    s3_uri(bucket, key.as_str(), credentials)
}

} // verus!
