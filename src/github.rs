use crate::models::{full_name_of, GithubRepository};
use crate::text::{decimal, decimal_of};
use vstd::prelude::*;
use vstd::string::StringExecFns;

verus! {

/// The anchored pattern of a full commit identifier.
pub const SHA_PATTERN: &'static str = "^[0-9a-fA-F]{40}$";

pub open spec fn is_hex_digit(c: char) -> bool {
    ('0' <= c && c <= '9') || ('a' <= c && c <= 'f') || ('A' <= c && c <= 'F')
}

/// A full commit identifier: exactly forty hexadecimal digits.
pub open spec fn is_sha_text(s: Seq<char>) -> bool {
    &&& s.len() == 40
    &&& forall|i: int| 0 <= i < s.len() ==> #[trigger] is_hex_digit(s[i])
}

/// Relies on regex::Regex::new and regex::Regex::is_match: the pattern
/// `^[0-9a-fA-F]{40}$` compiles, and without the multi-line flag its anchors
/// hold only at the ends of the text, so it matches exactly the texts of
/// forty ASCII hexadecimal digits.
#[verifier::external_body]
fn regex_is_match(pattern: &str, text: &str) -> (r: bool)
    requires
        pattern@ == SHA_PATTERN@,
    ensures
        r == is_sha_text(text@),
{
    regex::Regex::new(pattern).unwrap().is_match(text)
}

/// Whether `maybe_sha` is already a full commit identifier, which needs no lookup.
pub fn is_sha(maybe_sha: &str) -> (r: bool)
    ensures
        r == is_sha_text(maybe_sha@),
{
    regex_is_match(SHA_PATTERN, maybe_sha)
}

/// The media type asking the lookup endpoint for the bare commit identifier.
pub const SHA_MEDIA_TYPE: &'static str = "application/vnd.github.VERSION.sha";

/// The user agent that lookups identify themselves with.
pub const USER_AGENT: &'static str = "illicitonion";

/// The endpoint that resolves `shalike` to a commit of `user/name`.
pub open spec fn commit_url(user: Seq<char>, name: Seq<char>, shalike: Seq<char>) -> Seq<char> {
    "https://api.github.com/repos/"@ + full_name_of(user, name) + "/commits/"@ + shalike
}

/// One request to the hosting service's lookup endpoint.
pub struct LookupRequest {
    pub url: String,
    pub accept: String,
    pub user_agent: String,
}

/// How a ref-like string is turned into a commit identifier.
pub enum Lookup {
    /// It already is one.
    Known(String),
    /// It must be looked up with this request.
    Fetch(LookupRequest),
}

/// Decides how `shalike` is resolved in `repo`: a full commit identifier is
/// taken as it stands, anything else needs exactly one lookup request.
pub fn plan_lookup(repo: &GithubRepository, shalike: &str) -> (r: Lookup)
    ensures
        is_sha_text(shalike@) <==> r is Known,
        r matches Lookup::Known(s) ==> s@ == shalike@,
        r matches Lookup::Fetch(q) ==> {
            &&& q.url@ == commit_url(repo.user@, repo.name@, shalike@)
            &&& q.accept@ == SHA_MEDIA_TYPE@
            &&& q.user_agent@ == USER_AGENT@
        },
{
    if is_sha(shalike) {
        return Lookup::Known(String::from_str(shalike));
    }
    let mut url = String::from_str("https://api.github.com/repos/");
    url.append(repo.full_name().as_str());
    url.append("/commits/");
    url.append(shalike);
    Lookup::Fetch(LookupRequest {
        url,
        accept: String::from_str(SHA_MEDIA_TYPE),
        user_agent: String::from_str(USER_AGENT),
    })
}

/// The status of a successful lookup.
pub const STATUS_OK: u16 = 200;

/// The status with which the lookup endpoint says that a ref does not resolve.
pub const STATUS_UNPROCESSABLE: u16 = 422;

/// The diagnostic for an unexpected lookup status.
pub open spec fn bad_status_message(status: u16, body: Seq<char>) -> Seq<char> {
    "Bad status code from github: "@ + decimal_of(status as nat) + ": "@ + body
}

/// Classifies the lookup endpoint's answer: the body is the commit identifier
/// on success, `Ok(None)` says the ref does not resolve, and any other status
/// is a failure carrying the status and the body.
pub fn classify_response(status: u16, body: String) -> (r: Result<Option<String>, String>)
    ensures
        status == STATUS_OK ==> (r matches Ok(Some(s)) && s@ == body@),
        status == STATUS_UNPROCESSABLE ==> r == Ok::<Option<String>, String>(None),
        status != STATUS_OK && status != STATUS_UNPROCESSABLE ==> (r matches Err(m) && m@ == bad_status_message(status, body@)),
{
    if status == STATUS_OK {
        Ok(Some(body))
    } else if status == STATUS_UNPROCESSABLE {
        Ok(None)
    } else {
        let mut m = String::from_str("Bad status code from github: ");
        m.append(decimal(status as u64).as_str());
        m.append(": ");
        m.append(body.as_str());
        Err(m)
    }
}

} // verus!
