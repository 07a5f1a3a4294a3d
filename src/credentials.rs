use vstd::prelude::*;
use crate::text::same_text;

verus! {

/// The region used when none is configured.
pub const DEFAULT_S3_REGION: &'static str = "sf03";

/// The endpoint used when none is configured.
pub const DEFAULT_S3_ENDPOINT: &'static str = "https://sfo3.digitaloceanspaces.com";

/// Why credentials could not be built from configuration values.
#[derive(PartialEq, Eq, Structural, Debug, Clone, Copy)]
pub enum CredentialsError {
    MissingAccessKey,
    MissingSecretKey,
}

pub struct CredentialsView {
    pub region: Seq<char>,
    pub endpoint: Seq<char>,
    pub access_key: Seq<char>,
    pub secret_key: Seq<char>,
}

/// Region, endpoint and key pair of one storage endpoint. Two credential sets
/// are equal when region and endpoint are; the keys take no part in equality
/// and never appear in `debug_string`.
pub struct S3Credentials {
    cloud_region: String,
    endpoint: String,
    access_key: String,
    secret_key: String,
}

impl View for S3Credentials {
    type V = CredentialsView;

    closed spec fn view(&self) -> CredentialsView {
        CredentialsView {
            region: self.cloud_region@,
            endpoint: self.endpoint@,
            access_key: self.access_key@,
            secret_key: self.secret_key@,
        }
    }
}

/// What `<str as Debug>::fmt` writes for a text: the text in double quotes,
/// with quotes, backslashes and non-printing characters escaped.
pub uninterp spec fn debug_quoted(s: Seq<char>) -> Seq<char>;

/// Relies on `<str as Debug>::fmt`, through `format!("{:?}")`: the quoted,
/// escaped form of a text, which depends on the text alone.
#[verifier::external_body]
fn debug_str(s: &str) -> (r: String)
    ensures
        r@ == debug_quoted(s@),
{
    format!("{:?}", s)
}

/// The masked debug rendering of credentials, given the quoted forms of
/// region and endpoint: the keys are shown as a quoted `***`.
pub open spec fn masked_description(region_quoted: Seq<char>, endpoint_quoted: Seq<char>) -> Seq<
    char,
> {
    "S3Credentials { cloud_region: "@ + region_quoted + ", endpoint: "@ + endpoint_quoted
        + ", access_key: \"***\", secret_key: \"***\" }"@
}

/// Renders credentials for debugging from the quoted forms of region and
/// endpoint (see `masked_description`).
pub fn masked_debug(region_quoted: &str, endpoint_quoted: &str) -> (r: String)
    ensures
        r@ == masked_description(region_quoted@, endpoint_quoted@),
{
    let mut s = "S3Credentials { cloud_region: ".to_string();
    s.append(region_quoted);
    s.append(", endpoint: ");
    s.append(endpoint_quoted);
    s.append(", access_key: \"***\", secret_key: \"***\" }");
    s
}

/// A configured value, or the default when it is unset.
pub open spec fn value_or(v: Option<String>, default: Seq<char>) -> Seq<char> {
    match v {
        Some(s) => s@,
        None => default,
    }
}

impl S3Credentials {
    pub fn new(cloud_region: String, endpoint: String, access_key: String, secret_key: String) -> (r:
        S3Credentials)
        ensures
            r@ == (CredentialsView {
                region: cloud_region@,
                endpoint: endpoint@,
                access_key: access_key@,
                secret_key: secret_key@,
            }),
    {
        S3Credentials { cloud_region, endpoint, access_key, secret_key }
    }

    /// Builds credentials from the four configuration values: region and
    /// endpoint fall back to the given defaults (`DEFAULT_S3_REGION` and
    /// `DEFAULT_S3_ENDPOINT` unless a credential group chooses others);
    /// the access key and the secret key have no default.
    pub fn from_config_values(
        region: Option<String>,
        endpoint: Option<String>,
        access_key: Option<String>,
        secret_key: Option<String>,
        default_region: &str,
        default_endpoint: &str,
    ) -> (r: Result<S3Credentials, CredentialsError>)
        ensures
            access_key is None ==> r == Err::<S3Credentials, _>(CredentialsError::MissingAccessKey),
            access_key is Some && secret_key is None ==> r == Err::<S3Credentials, _>(
                CredentialsError::MissingSecretKey,
            ),
            access_key is Some && secret_key is Some ==> r is Ok && r->Ok_0@ == (CredentialsView {
                region: value_or(region, default_region@),
                endpoint: value_or(endpoint, default_endpoint@),
                access_key: access_key->0@,
                secret_key: secret_key->0@,
            }),
    {
        let access_key = match access_key {
            Some(k) => k,
            None => return Err(CredentialsError::MissingAccessKey),
        };
        let secret_key = match secret_key {
            Some(k) => k,
            None => return Err(CredentialsError::MissingSecretKey),
        };
        let cloud_region = match region {
            Some(r) => r,
            None => default_region.to_string(),
        };
        let endpoint = match endpoint {
            Some(e) => e,
            None => default_endpoint.to_string(),
        };
        Ok(S3Credentials { cloud_region, endpoint, access_key, secret_key })
    }

    pub fn cloud_region(&self) -> (r: &str)
        ensures
            r@ == self@.region,
    {
        self.cloud_region.as_str()
    }

    pub fn endpoint(&self) -> (r: &str)
        ensures
            r@ == self@.endpoint,
    {
        self.endpoint.as_str()
    }

    pub fn access_key(&self) -> (r: &str)
        ensures
            r@ == self@.access_key,
    {
        self.access_key.as_str()
    }

    pub fn secret_key(&self) -> (r: &str)
        ensures
            r@ == self@.secret_key,
    {
        self.secret_key.as_str()
    }

    pub fn matches_endpoint_and_region(&self, endpoint: &str, region: &str) -> (r: bool)
        ensures
            r == (self@.endpoint == endpoint@ && self@.region == region@),
    {
        same_text(self.endpoint.as_str(), endpoint) && same_text(self.cloud_region.as_str(), region)
    }

    /// A description for logs in the form of a derived `Debug`, with both
    /// keys masked.
    pub fn debug_string(&self) -> (r: String)
        ensures
            r@ == masked_description(debug_quoted(self@.region), debug_quoted(self@.endpoint)),
    {
        let region = debug_str(self.cloud_region.as_str());
        let endpoint = debug_str(self.endpoint.as_str());
        masked_debug(region.as_str(), endpoint.as_str())
    }
}

impl PartialEq for S3Credentials {
    fn eq(&self, other: &S3Credentials) -> (r: bool) {
        self.cloud_region == other.cloud_region && self.endpoint == other.endpoint
    }
}

impl Eq for S3Credentials {}

impl vstd::std_specs::cmp::PartialEqSpecImpl for S3Credentials {
    open spec fn obeys_eq_spec() -> bool {
        true
    }

    open spec fn eq_spec(&self, other: &S3Credentials) -> bool {
        self@.region == other@.region && self@.endpoint == other@.endpoint
    }
}

} // verus!
