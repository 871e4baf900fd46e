use crate::github::{commit_url, is_sha_text, plan_lookup, Lookup, LookupRequest, SHA_MEDIA_TYPE, USER_AGENT};
use crate::models::{GithubRepository, LineInRepo};
use crate::text::{decimal, decimal_of};
use vstd::prelude::*;
use vstd::string::{StrSliceExecFns, StringExecFns};

verus! {

/// The category of a failed request.
#[derive(Clone, Copy, Debug, PartialEq, Eq, Structural)]
pub enum ErrorKind {
    /// Malformed or contradictory input.
    BadRequest,
    /// The ref does not resolve, or nothing answers at that route.
    NotFound,
    /// The store could not be reached or failed.
    InternalError,
}

/// The HTTP status that answers a failure of `kind`.
pub open spec fn status_of(kind: ErrorKind) -> u16 {
    match kind {
        ErrorKind::BadRequest => 400,
        ErrorKind::NotFound => 404,
        ErrorKind::InternalError => 500,
    }
}

impl ErrorKind {
    /// The HTTP status that answers a failure of this kind.
    pub fn status_code(&self) -> (r: u16)
        ensures
            r == status_of(*self),
    {
        match self {
            ErrorKind::BadRequest => 400,
            ErrorKind::NotFound => 404,
            ErrorKind::InternalError => 500,
        }
    }
}

/// A failed request: its category and a diagnostic for the caller.
#[derive(Debug)]
pub struct ServiceError {
    pub kind: ErrorKind,
    pub message: String,
}

/// A response: an HTTP status and a body.
#[derive(Debug)]
pub struct Response {
    pub status: u16,
    pub body: String,
}

/// The status of a successful request.
pub const STATUS_SUCCESS: u16 = 200;

/// A request for the comments on one line, as decoded from its query.
/// Exactly one of `sha` and `r` (the `ref` parameter) must be given.
#[derive(Debug)]
pub struct Req {
    pub repo_user: String,
    pub repo_name: String,
    pub sha: Option<String>,
    pub r: Option<String>,
    pub path: String,
    pub line: usize,
}

/// A request whose commit is still being looked up.
#[derive(Debug)]
pub struct Pending {
    pub repo_user: String,
    pub repo_name: String,
    pub path: String,
    pub line: usize,
}

/// Where a request stands once its commit has been chosen or asked for.
pub enum Resolution {
    /// The anchor is complete.
    Ready(LineInRepo),
    /// The commit must be looked up with this request first.
    Lookup(Pending, LookupRequest),
    /// The request fails.
    Failed(ServiceError),
}

/// The diagnostic for a request that gives both or neither of `sha` and `ref`.
pub open spec fn exclusivity_message() -> Seq<char> {
    "Must specify exactly one of ref and sha"@
}

/// The diagnostic for a ref that the lookup reported as unknown.
pub open spec fn unknown_ref_message() -> Seq<char> {
    "Could not find ref"@
}

/// `anchor` is the line of `pending` at commit `sha`.
pub open spec fn anchors_pending(anchor: LineInRepo, pending: Pending, sha: Seq<char>) -> bool {
    &&& anchor.repo_user@ == pending.repo_user@
    &&& anchor.repo_name@ == pending.repo_name@
    &&& anchor.path@ == pending.path@
    &&& anchor.line == pending.line
    &&& anchor.sha@ == sha
}

/// `anchor` is the line that `req` asks about, at commit `sha`.
pub open spec fn anchors_req(anchor: LineInRepo, req: Req, sha: Seq<char>) -> bool {
    &&& anchor.repo_user@ == req.repo_user@
    &&& anchor.repo_name@ == req.repo_name@
    &&& anchor.path@ == req.path@
    &&& anchor.line == req.line
    &&& anchor.sha@ == sha
}

/// `pending` keeps everything of `req` but its commit.
pub open spec fn pending_of(pending: Pending, req: Req) -> bool {
    &&& pending.repo_user@ == req.repo_user@
    &&& pending.repo_name@ == req.repo_name@
    &&& pending.path@ == req.path@
    &&& pending.line == req.line
}

impl Req {
    /// The repository that the request is about.
    pub fn repo(&self) -> (r: GithubRepository<'_>)
        ensures
            r.user@ == self.repo_user@,
            r.name@ == self.repo_name@,
    {
        GithubRepository { user: self.repo_user.as_str(), name: self.repo_name.as_str() }
    }

    /// Chooses the request's commit: a given `sha` is used as it stands, a
    /// `ref` that is a full commit identifier too, any other `ref` needs one
    /// lookup, and giving both or neither is a bad request that asks for none.
    pub fn into_line_in_repo(self) -> (r: Resolution)
        ensures
            (self.sha is Some) == (self.r is Some) <==> (r matches Resolution::Failed(e)
                && e.kind == ErrorKind::BadRequest),
            r matches Resolution::Failed(e) ==> e.message@ == exclusivity_message(),
            self.sha is Some && self.r is None ==> (r matches Resolution::Ready(a)
                && anchors_req(a, self, self.sha->0@)),
            self.r is Some && self.sha is None && is_sha_text(self.r->0@) ==> (r matches Resolution::Ready(a)
                && anchors_req(a, self, self.r->0@)),
            self.r is Some && self.sha is None && !is_sha_text(self.r->0@) ==> (r matches Resolution::Lookup(p, q)
                && pending_of(p, self)
                && q.url@ == commit_url(self.repo_user@, self.repo_name@, self.r->0@)
                && q.accept@ == SHA_MEDIA_TYPE@
                && q.user_agent@ == USER_AGENT@),
    {
        let Req { repo_user, repo_name, sha, r, path, line } = self;
        match (sha, r) {
            (Some(s), None) => Resolution::Ready(LineInRepo { repo_user, repo_name, sha: s, path, line }),
            (None, Some(x)) => {
                let lookup = plan_lookup(
                    &GithubRepository { user: repo_user.as_str(), name: repo_name.as_str() },
                    x.as_str(),
                );
                match lookup {
                    Lookup::Known(s) => Resolution::Ready(
                        LineInRepo { repo_user, repo_name, sha: s, path, line },
                    ),
                    Lookup::Fetch(q) => Resolution::Lookup(
                        Pending { repo_user, repo_name, path, line },
                        q,
                    ),
                }
            },
            _ => Resolution::Failed(
                ServiceError {
                    kind: ErrorKind::BadRequest,
                    message: String::from_str("Must specify exactly one of ref and sha"),
                },
            ),
        }
    }
}

impl Pending {
    /// Completes the anchor with the lookup's outcome. A ref that does not
    /// resolve and a lookup that failed both make the request not found.
    pub fn resolved(self, outcome: Result<Option<String>, String>) -> (r: Result<
        LineInRepo,
        ServiceError,
    >)
        ensures
            outcome matches Ok(Some(s)) ==> (r matches Ok(a) && anchors_pending(a, self, s@)),
            outcome matches Ok(None) ==> (r matches Err(e) && e.kind == ErrorKind::NotFound
                && e.message@ == unknown_ref_message()),
            outcome matches Err(m) ==> (r matches Err(e) && e.kind == ErrorKind::NotFound
                && e.message@ == m@),
    {
        match outcome {
            Ok(Some(sha)) => Ok(
                LineInRepo {
                    repo_user: self.repo_user,
                    repo_name: self.repo_name,
                    sha,
                    path: self.path,
                    line: self.line,
                },
            ),
            Ok(None) => Err(
                ServiceError { kind: ErrorKind::NotFound, message: String::from_str("Could not find ref") },
            ),
            Err(m) => Err(ServiceError { kind: ErrorKind::NotFound, message: m }),
        }
    }
}

/// The answer to a failed request: its category's status, and its diagnostic
/// as the body.
pub fn error_response(e: ServiceError) -> (r: Response)
    ensures
        r.status == status_of(e.kind),
        r.body@ == e.message@,
{
    Response { status: e.kind.status_code(), body: e.message }
}

/// The diagnostic for a query that could not be decoded.
pub open spec fn decode_failure_message(detail: Seq<char>) -> Seq<char> {
    "Error deserialising request params: "@ + detail
}

/// A query that could not be decoded into a request is a bad request.
pub fn decode_failure(detail: &str) -> (r: ServiceError)
    ensures
        r.kind == ErrorKind::BadRequest,
        r.message@ == decode_failure_message(detail@),
{
    let mut m = String::from_str("Error deserialising request params: ");
    m.append(detail);
    ServiceError { kind: ErrorKind::BadRequest, message: m }
}

/// The JSON text of an array of strings, as serde_json writes it.
pub uninterp spec fn json_string_array(items: Seq<Seq<char>>) -> Seq<char>;

/// The views of a list of strings.
pub open spec fn views_of(items: Seq<String>) -> Seq<Seq<char>> {
    items.map_values(|s: String| s@)
}

/// Relies on serde_json: `Value::from` turns a vector of strings into a JSON
/// array of those strings, and its `Display` writes that array as compact
/// JSON text, which depends on the strings alone.
#[verifier::external_body]
fn encode_json_array(items: Vec<String>) -> (r: String)
    ensures
        r@ == json_string_array(views_of(items@)),
{
    serde_json::Value::from(items).to_string()
}

/// What came of the storage step of a lookup request.
pub enum StoreOutcome {
    /// No storage session could be had; the diagnostic says why.
    Unavailable(String),
    /// The store failed; the diagnostic says how.
    Failed(String),
    /// The comments on the anchor, oldest first.
    Listed(Vec<String>),
}

/// The diagnostic for a storage session that could not be had.
pub open spec fn unavailable_message(detail: Seq<char>) -> Seq<char> {
    "Error getting database connection: "@ + detail
}

/// The answer once the store has been asked: the comments as a JSON array of
/// strings, or an internal error.
pub fn listing_response(outcome: StoreOutcome) -> (r: Response)
    ensures
        outcome matches StoreOutcome::Listed(v) ==> (r.status == STATUS_SUCCESS
            && r.body@ == json_string_array(views_of(v@))),
        outcome matches StoreOutcome::Unavailable(m) ==> (r.status == status_of(ErrorKind::InternalError)
            && r.body@ == unavailable_message(m@)),
        outcome matches StoreOutcome::Failed(m) ==> (r.status == status_of(ErrorKind::InternalError)
            && r.body@ == m@),
{
    match outcome {
        StoreOutcome::Listed(v) => Response { status: STATUS_SUCCESS, body: encode_json_array(v) },
        StoreOutcome::Unavailable(m) => {
            let mut body = String::from_str("Error getting database connection: ");
            body.append(m.as_str());
            error_response(ServiceError { kind: ErrorKind::InternalError, message: body })
        },
        StoreOutcome::Failed(m) => error_response(
            ServiceError { kind: ErrorKind::InternalError, message: m },
        ),
    }
}

/// Whether a request is the one route served: a `GET` of `/` with a query.
pub fn is_lookup_route(is_get: bool, path: &str, has_query: bool) -> (r: bool)
    ensures
        r == (is_get && path@ == seq!['/'] && has_query),
{
    if !is_get || !has_query {
        return false;
    }
    if path.unicode_len() != 1 {
        return false;
    }
    let c = path.get_char(0);
    proof {
        if c == '/' {
            assert(path@ =~= seq!['/']);
        }
    }
    c == '/'
}

/// The answer to any other route: not found, with an empty body.
pub fn unrouted_response() -> (r: Response)
    ensures
        r.status == status_of(ErrorKind::NotFound),
        r.body@ == Seq::<char>::empty(),
{
    Response { status: ErrorKind::NotFound.status_code(), body: String::new() }
}

/// The line that stands for an empty listing.
pub open spec fn no_comments_line() -> Seq<char> {
    "[No comments]"@
}

/// The line that shows the comment at `index` of a listing.
pub open spec fn comment_line(index: nat, body: Seq<char>) -> Seq<char> {
    "Comment "@ + decimal_of(index) + ": "@ + body
}

/// The lines that show a listing: one per comment, numbered from zero, or a
/// single line saying that there are none.
pub fn render_comments(comments: &Vec<String>) -> (r: Vec<String>)
    ensures
        comments@.len() == 0 ==> (r@.len() == 1 && r@[0]@ == no_comments_line()),
        comments@.len() > 0 ==> r@.len() == comments@.len(),
        comments@.len() > 0 ==> forall|i: int|
            0 <= i < r@.len() ==> #[trigger] r@[i]@ == comment_line(i as nat, comments@[i]@),
{
    let mut out: Vec<String> = Vec::new();
    if comments.len() == 0 {
        out.push(String::from_str("[No comments]"));
        return out;
    }
    let mut k: usize = 0;
    while k < comments.len()
        invariant
            k <= comments@.len(),
            out@.len() == k,
            forall|i: int| 0 <= i < k ==> #[trigger] out@[i]@ == comment_line(i as nat, comments@[i]@),
        decreases comments.len() - k,
    {
        let mut line = String::from_str("Comment ");
        line.append(decimal(k as u64).as_str());
        line.append(": ");
        line.append(comments[k].as_str());
        out.push(line);
        k = k + 1;
    }
    out
}

/// The diagnostic for a ref that the command line could not resolve.
pub open spec fn missing_sha_message(raw_ref: Seq<char>) -> Seq<char> {
    "Count not find sha "@ + raw_ref
}

/// The commit that a lookup gave, or the failure to report: the lookup's own
/// diagnostic, or one naming the ref that did not resolve.
pub fn require_sha(outcome: Result<Option<String>, String>, raw_ref: &str) -> (r: Result<String, String>)
    ensures
        outcome matches Ok(Some(s)) ==> (r matches Ok(t) && t@ == s@),
        outcome matches Ok(None) ==> (r matches Err(m) && m@ == missing_sha_message(raw_ref@)),
        outcome matches Err(e) ==> (r matches Err(m) && m@ == e@),
{
    match outcome {
        Ok(Some(s)) => Ok(s),
        Ok(None) => {
            let mut m = String::from_str("Count not find sha ");
            m.append(raw_ref);
            Err(m)
        },
        Err(e) => Err(e),
    }
}

} // verus!
