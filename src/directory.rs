use vstd::prelude::*;
use crate::text::starts_with;

verus! {

/// Whether `p` is in directory form, that is ends with `/`.
pub open spec fn ends_with_slash(p: Seq<char>) -> bool {
    p.len() > 0 && p.last() == '/'
}

/// The directory form of a prefix: unchanged when it already ends with `/`,
/// otherwise extended by one `/`.
pub open spec fn normalized_prefix(p: Seq<char>) -> Seq<char> {
    if ends_with_slash(p) {
        p
    } else {
        p.push('/')
    }
}

/// A key relative to a directory prefix: the key with the prefix stripped, or
/// the key itself when it does not start with the prefix.
pub open spec fn relative_key(prefix: Seq<char>, key: Seq<char>) -> Seq<char> {
    if prefix.is_prefix_of(key) {
        key.skip(prefix.len() as int)
    } else {
        key
    }
}

/// Where a copy puts the object with key `key` found under `src`.
pub open spec fn destination_key_of(src: Seq<char>, dst: Seq<char>, key: Seq<char>) -> Seq<char> {
    dst + relative_key(src, key)
}

/// The copy-source locator of an object: bucket, `/`, key.
pub open spec fn copy_source_of(bucket: Seq<char>, key: Seq<char>) -> Seq<char> {
    bucket + seq!['/'] + key
}

/// Returns the directory form of `prefix` (see `normalized_prefix`).
pub fn normalize_prefix(prefix: &str) -> (r: String)
    ensures
        r@ == normalized_prefix(prefix@),
{
    let n = prefix.unicode_len();
    if n > 0 && prefix.get_char(n - 1) == '/' {
        prefix.to_string()
    } else {
        let mut s = prefix.to_string();
        s.append("/");
        proof {
            reveal_strlit("/");
        }
        s
    }
}

/// One server-side copy of a bulk copy between directories.
pub struct CopyRequest {
    pub source_key: String,
    pub copy_source: String,
    pub dest_bucket: String,
    pub dest_key: String,
}

/// A (bucket, prefix) pair standing for a directory of the store, with the
/// client that reaches it. The prefix always ends with `/`.
pub struct S3DirectoryAddr<'a> {
    s3_client: &'a aws_sdk_s3::Client,
    bucket: &'a str,
    prefix: String,
}

impl<'a> S3DirectoryAddr<'a> {
    #[verifier::type_invariant]
    spec fn inv(&self) -> bool {
        ends_with_slash(self.prefix@)
    }

    /// The directory prefix, always in directory form.
    pub closed spec fn spec_prefix(&self) -> Seq<char> {
        self.prefix@
    }

    pub closed spec fn spec_bucket(&self) -> Seq<char> {
        self.bucket@
    }

    pub closed spec fn spec_client(&self) -> &'a aws_sdk_s3::Client {
        self.s3_client
    }

    /// Addresses the directory `prefix` of `bucket`; the prefix is brought to
    /// directory form by appending `/` if it lacks one.
    pub fn new(s3_client: &'a aws_sdk_s3::Client, bucket: &'a str, prefix: &str) -> (r: Self)
        ensures
            r.spec_client() == s3_client,
            r.spec_bucket() == bucket@,
            r.spec_prefix() == normalized_prefix(prefix@),
    {
        let p = normalize_prefix(prefix);
        S3DirectoryAddr { s3_client, bucket, prefix: p }
    }

    pub fn prefix(&self) -> (r: &str)
        ensures
            r@ == self.spec_prefix(),
            ends_with_slash(r@),
    {
        proof {
            use_type_invariant(self);
        }
        self.prefix.as_str()
    }

    pub fn bucket(&self) -> (r: &'a str)
        ensures
            r@ == self.spec_bucket(),
    {
        self.bucket
    }

    pub fn s3_client(&self) -> (r: &'a aws_sdk_s3::Client)
        ensures
            r == self.spec_client(),
    {
        self.s3_client
    }

    /// The key under `destination` that a copy of `source_key` goes to: the
    /// destination prefix followed by the key relative to this directory.
    pub fn destination_key(&self, destination: &S3DirectoryAddr, source_key: &str) -> (r: String)
        ensures
            r@ == destination_key_of(self.spec_prefix(), destination.spec_prefix(), source_key@),
    {
        let src = self.prefix.as_str();
        let mut out = destination.prefix.clone();
        if starts_with(source_key, src) {
            let rel = source_key.substring_char(src.unicode_len(), source_key.unicode_len());
            out.append(rel);
        } else {
            out.append(source_key);
        }
        out
    }

    /// The copy-source locator of `source_key` in this directory's bucket.
    pub fn copy_source(&self, source_key: &str) -> (r: String)
        ensures
            r@ == copy_source_of(self.spec_bucket(), source_key@),
    {
        let mut out = self.bucket.to_string();
        out.append("/");
        proof {
            reveal_strlit("/");
        }
        out.append(source_key);
        out
    }

    /// The copy requests of a bulk copy of `keys`, listed under this
    /// directory, into `destination`: one for each key, in order.
    pub fn copy_plan(&self, destination: &S3DirectoryAddr, keys: &Vec<String>) -> (r: Vec<
        CopyRequest,
    >)
        ensures
            r@.len() == keys@.len(),
            forall|i: int|
                0 <= i < keys@.len() ==> {
                    &&& #[trigger] r@[i].source_key@ == keys@[i]@
                    &&& r@[i].copy_source@ == copy_source_of(self.spec_bucket(), keys@[i]@)
                    &&& r@[i].dest_bucket@ == destination.spec_bucket()
                    &&& r@[i].dest_key@ == destination_key_of(
                        self.spec_prefix(),
                        destination.spec_prefix(),
                        keys@[i]@,
                    )
                },
    {
        let mut plan: Vec<CopyRequest> = Vec::new();
        let mut i: usize = 0;
        while i < keys.len()
            invariant
                i <= keys@.len(),
                plan@.len() == i,
                forall|j: int|
                    0 <= j < i ==> {
                        &&& #[trigger] plan@[j].source_key@ == keys@[j]@
                        &&& plan@[j].copy_source@ == copy_source_of(self.spec_bucket(), keys@[j]@)
                        &&& plan@[j].dest_bucket@ == destination.spec_bucket()
                        &&& plan@[j].dest_key@ == destination_key_of(
                            self.spec_prefix(),
                            destination.spec_prefix(),
                            keys@[j]@,
                        )
                    },
            decreases keys@.len() - i,
        {
            let key = keys[i].as_str();
            let req = CopyRequest {
                source_key: keys[i].clone(),
                copy_source: self.copy_source(key),
                dest_bucket: destination.bucket.to_string(),
                dest_key: self.destination_key(destination, key),
            };
            plan.push(req);
            i = i + 1;
        }
        plan
    }
}

/// Normalizing a prefix is idempotent, and a prefix with or without its
/// trailing `/` denotes the same directory.
pub proof fn lemma_normalize_idempotent(p: Seq<char>)
    ensures
        normalized_prefix(normalized_prefix(p)) == normalized_prefix(p),
        ends_with_slash(normalized_prefix(p)),
        !ends_with_slash(p) ==> normalized_prefix(p.push('/')) == normalized_prefix(p),
{
}

/// A copy between directories keeps each object's path relative to the
/// directory: the object `src + rel` goes to `dst + rel`.
pub proof fn lemma_copy_keeps_relative_path(src: Seq<char>, dst: Seq<char>, rel: Seq<char>)
    ensures
        destination_key_of(src, dst, src + rel) == dst + rel,
{
    assert(src.is_prefix_of(src + rel)) by {
        assert(src =~= (src + rel).subrange(0, src.len() as int));
    }
    assert((src + rel).skip(src.len() as int) =~= rel);
}

/// After a bulk copy whose requests all succeed, the destination holds
/// `dst + rel` for every source key `src + rel`: the plan's destination keys
/// (one per listed key, as `copy_plan` gives them) contain it.
pub proof fn lemma_copy_plan_covers(
    src: Seq<char>,
    dst: Seq<char>,
    keys: Seq<Seq<char>>,
    dest_keys: Seq<Seq<char>>,
    rel: Seq<char>,
)
    requires
        dest_keys.len() == keys.len(),
        forall|i: int|
            0 <= i < keys.len() ==> #[trigger] dest_keys[i] == destination_key_of(src, dst, keys[i]),
        keys.contains(src + rel),
    ensures
        dest_keys.contains(dst + rel),
{
    let i = choose|i: int| 0 <= i < keys.len() && keys[i] == src + rel;
    lemma_copy_keeps_relative_path(src, dst, rel);
    assert(dest_keys[i] == dst + rel);
}

} // verus!
