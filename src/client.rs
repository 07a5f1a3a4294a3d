use vstd::prelude::*;

verus! {

/// The shared, cheaply clonable S3 client handle. Opaque to proofs: it is only
/// carried through the addresses that perform I/O with it.
#[verifier::external_type_specification]
#[verifier::external_body]
pub struct ExS3Client(aws_sdk_s3::Client);

} // verus!
