//! URL construction for the Snyk provider API boundary.
//!
//! The HTTP calls themselves are a collaborator's responsibility; this
//! module builds the request URLs, percent-encoding the path pieces that
//! need it.

use vstd::prelude::*;
use vstd::string::StrSliceExecFns;
use crate::Error;
use vstd::string::StringExecFns;
use vstd::string::StringSliceAdditionalSpecFns;

verus! {

/// Base URL of the provider's v1 API.
pub const V1_URL: &'static str = "https://snyk.io/api/v1";

/// Base URL of the provider's v3 API.
pub const V3_URL: &'static str = "https://api.snyk.io/rest";

/// Route listing the organizations visible to a token.
pub const ORGS_ROUTE: &'static str = "/orgs";

/// The API version pinned by this client.
pub const API_VERSION: &'static str = "2023-03-08~beta";

/// Bytes that percent-encoding passes through unchanged: ASCII
/// alphanumerics and `-`, `.`, `_`, `~`.
pub open spec fn is_url_safe_byte(b: u8) -> bool {
    (48 <= b <= 57) || (65 <= b <= 90) || (97 <= b <= 122) || b == 45 || b == 46 || b == 95 || b
        == 126
}

/// The upper-case hexadecimal digit for a value below 16.
pub open spec fn hex_digit(n: u8) -> char
    recommends
        n < 16,
{
    if n < 10 {
        (48 + n as u32) as char
    } else {
        (55 + n as u32) as char
    }
}

/// How one byte is percent-encoded: a url-safe byte stands for itself,
/// every other byte becomes `%` followed by two upper-case hex digits.
pub open spec fn encoded_byte(b: u8) -> Seq<char> {
    if is_url_safe_byte(b) {
        seq![b as char]
    } else {
        seq!['%', hex_digit(b / 16), hex_digit(b % 16)]
    }
}

/// The percent-encoding of a byte string.
pub open spec fn percent_encoded(s: Seq<u8>) -> Seq<char>
    decreases s.len(),
{
    if s.len() == 0 {
        Seq::empty()
    } else {
        percent_encoded(s.drop_last()) + encoded_byte(s.last())
    }
}

/// Relies on `urlencoding::encode`: percent-encodes every byte of the
/// UTF-8 form of `s` except ASCII alphanumerics and `-`, `.`, `_`, `~`,
/// writing escapes as `%` plus two upper-case hexadecimal digits.
#[verifier::external_body]
pub fn url_encode(s: &str) -> (r: String)
    ensures
        r@ == percent_encoded(s.spec_bytes()),
{
    urlencoding::encode(s).into_owned()
}

/// The serialized BOM formats a provider can return.
#[derive(Clone, Copy, Debug)]
pub enum SbomFormat {
    CycloneDxJson,
    CycloneDxXml,
    SpdxJson,
}

/// The percent-encoded query-string form of a BOM format.
pub open spec fn spec_format(f: SbomFormat) -> Seq<char> {
    match f {
        SbomFormat::CycloneDxJson => percent_encoded("cyclonedx+json".spec_bytes()),
        SbomFormat::CycloneDxXml => percent_encoded("cyclonedx+xml".spec_bytes()),
        SbomFormat::SpdxJson => percent_encoded("spdx2.3+json".spec_bytes()),
    }
}

impl SbomFormat {
    /// The percent-encoded form used in provider query strings.
    pub fn to_string(&self) -> (r: String)
        ensures
            r@ == spec_format(*self),
    {
        match self {
            SbomFormat::CycloneDxJson => url_encode("cyclonedx+json"),
            SbomFormat::CycloneDxXml => url_encode("cyclonedx+xml"),
            SbomFormat::SpdxJson => url_encode("spdx2.3+json"),
        }
    }
}

/// The URL listing the organizations visible to the token.
pub fn orgs_url() -> (r: String)
    ensures
        r@ == V1_URL@ + ORGS_ROUTE@,
{
    let mut s = V1_URL.to_owned();
    s.append(ORGS_ROUTE);
    s
}

/// The URL listing the issues known for a package, identified by its
/// percent-encoded package-url.
pub fn issues_url(org_id: &str, purl: &str) -> (r: String)
    ensures
        r@ == V3_URL@ + "/orgs/"@ + org_id@ + "/packages/"@ + percent_encoded(purl.spec_bytes())
            + "/issues?version="@ + API_VERSION@,
{
    let mut s = V3_URL.to_owned();
    s.append("/orgs/");
    s.append(org_id);
    s.append("/packages/");
    let encoded = url_encode(purl);
    s.append(encoded.as_str());
    s.append("/issues?version=");
    s.append(API_VERSION);
    proof {
        assert(s@ =~= V3_URL@ + "/orgs/"@ + org_id@ + "/packages/"@ + percent_encoded(
            purl.spec_bytes(),
        ) + "/issues?version="@ + API_VERSION@);
    }
    s
}

/// The URL listing the projects of an organization.
pub fn projects_url(org_id: &str) -> (r: String)
    ensures
        r@ == V3_URL@ + "/orgs/"@ + org_id@ + "/projects?version="@ + API_VERSION@,
{
    let mut s = V3_URL.to_owned();
    s.append("/orgs/");
    s.append(org_id);
    s.append("/projects?version=");
    s.append(API_VERSION);
    proof {
        assert(s@ =~= V3_URL@ + "/orgs/"@ + org_id@ + "/projects?version="@ + API_VERSION@);
    }
    s
}

/// The URL fetching one project's BOM in the requested format.
pub fn sbom_url(org_id: &str, project_id: &str, format: SbomFormat) -> (r: String)
    ensures
        r@ == V3_URL@ + "/orgs/"@ + org_id@ + "/projects/"@ + project_id@ + "/sbom?version="@
            + API_VERSION@ + "&format="@ + spec_format(format),
{
    let mut s = V3_URL.to_owned();
    s.append("/orgs/");
    s.append(org_id);
    s.append("/projects/");
    s.append(project_id);
    s.append("/sbom?version=");
    s.append(API_VERSION);
    s.append("&format=");
    let f = format.to_string();
    s.append(f.as_str());
    proof {
        assert(s@ =~= V3_URL@ + "/orgs/"@ + org_id@ + "/projects/"@ + project_id@
            + "/sbom?version="@ + API_VERSION@ + "&format="@ + f@);
    }
    s
}

/// Unwraps a provider response body: an absent body is a runtime error
/// carrying the given message, a present one is handed back unchanged.
pub fn require_response<T>(response: Option<T>, message: &str) -> (r: Result<T, Error>)
    ensures
        r is Err <==> response is None,
        r matches Ok(v) ==> response == Some(v),
        r matches Err(e) ==> (e matches Error::Runtime(m) && m@ == message@),
{
    match response {
        None => Err(Error::Runtime(message.to_owned())),
        Some(v) => Ok(v),
    }
}

/// Classifies a raw BOM download by its HTTP status: a non-OK status is a
/// runtime error carrying the body, an empty body on success means no
/// document, and anything else is the document itself.
pub fn sbom_response(status: u16, body: String) -> (r: Result<Option<String>, Error>)
    ensures
        status != 200 ==> (r matches Err(e) && e matches Error::Runtime(m) && m@
            == "remote returned error: "@ + body@),
        status == 200 && body@.len() == 0 ==> (r matches Ok(b) && b is None),
        status == 200 && body@.len() > 0 ==> (r matches Ok(b) && b == Some(body)),
{
    if status != 200 {
        let mut message = "remote returned error: ".to_owned();
        message.append(body.as_str());
        return Err(Error::Runtime(message));
    }
    if body.as_str().is_empty() {
        return Ok(None);
    }
    Ok(Some(body))
}

/// A purpose-built client for the provider API, holding the caller's
/// access token.
pub struct Client {
    token: String,
}

impl Client {
    /// The token this client authenticates with.
    pub closed spec fn spec_token(&self) -> Seq<char> {
        self.token@
    }

    /// A client using the given access token.
    pub fn new(token: String) -> (r: Self)
        ensures
            r.spec_token() == token@,
    {
        Client { token }
    }

    /// The authorization header value derived from the token.
    pub fn token(&self) -> (r: String)
        ensures
            r@ == "token "@ + self.spec_token(),
    {
        let mut s = "token ".to_owned();
        s.append(self.token.as_str());
        s
    }
}

} // verus!
