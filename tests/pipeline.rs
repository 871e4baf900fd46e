use code_graffiti::pipeline::{
    decode_failure, error_response, is_lookup_route, listing_response, render_comments,
    require_sha, unrouted_response, ErrorKind, Pending, Resolution, StoreOutcome,
};
use code_graffiti::github::classify_response;
use code_graffiti::store::{comments_for_line, leave_comment};
use code_graffiti::{CommentStore, LineInRepo, Req};

const SHA: &str = "0123456789abcdef0123456789abcdef01234567";

fn request(sha: Option<&str>, r: Option<&str>) -> Req {
    Req {
        repo_user: "acme".to_owned(),
        repo_name: "widgets".to_owned(),
        sha: sha.map(|s| s.to_owned()),
        r: r.map(|s| s.to_owned()),
        path: "src/a.c".to_owned(),
        line: 12,
    }
}

fn ready(res: Resolution) -> LineInRepo {
    match res {
        Resolution::Ready(a) => a,
        _ => panic!("expected a complete anchor"),
    }
}

#[test]
fn repo_borrows_owner_and_name() {
    let req = request(Some(SHA), None);
    let repo = req.repo();
    assert_eq!(repo.user, "acme");
    assert_eq!(repo.name, "widgets");
}

#[test]
fn both_sha_and_ref_is_bad_request() {
    match request(Some(SHA), Some("main")).into_line_in_repo() {
        Resolution::Failed(e) => {
            assert_eq!(e.kind, ErrorKind::BadRequest);
            assert_eq!(e.message, "Must specify exactly one of ref and sha");
            assert_eq!(error_response(e).status, 400);
        }
        _ => panic!("expected a bad request"),
    }
}

#[test]
fn neither_sha_nor_ref_is_bad_request() {
    match request(None, None).into_line_in_repo() {
        Resolution::Failed(e) => assert_eq!(e.kind, ErrorKind::BadRequest),
        _ => panic!("expected a bad request"),
    }
}

#[test]
fn given_sha_is_used_unchecked() {
    let a = ready(request(Some("not-a-sha"), None).into_line_in_repo());
    assert_eq!(a.sha, "not-a-sha");
    assert_eq!(a.repo_user, "acme");
    assert_eq!(a.repo_name, "widgets");
    assert_eq!(a.path, "src/a.c");
    assert_eq!(a.line, 12);
}

#[test]
fn canonical_ref_is_used_without_lookup() {
    let a = ready(request(None, Some(SHA)).into_line_in_repo());
    assert_eq!(a.sha, SHA);
}

#[test]
fn branch_ref_is_looked_up() {
    match request(None, Some("main")).into_line_in_repo() {
        Resolution::Lookup(p, q) => {
            assert_eq!(q.url, "https://api.github.com/repos/acme/widgets/commits/main");
            assert_eq!(p.path, "src/a.c");
            let a = p.resolved(Ok(Some(SHA.to_owned()))).unwrap();
            assert_eq!(a.sha, SHA);
            assert_eq!(a.line, 12);
        }
        _ => panic!("expected a lookup"),
    }
}

fn pending() -> Pending {
    Pending {
        repo_user: "acme".to_owned(),
        repo_name: "widgets".to_owned(),
        path: "src/a.c".to_owned(),
        line: 12,
    }
}

#[test]
fn unknown_ref_and_lookup_failure_are_both_not_found() {
    let e = pending().resolved(Ok(None)).unwrap_err();
    assert_eq!(e.kind, ErrorKind::NotFound);
    assert_eq!(e.message, "Could not find ref");
    assert_eq!(error_response(e).status, 404);
    let e = pending().resolved(Err("Error requesting sha from github: down".to_owned())).unwrap_err();
    assert_eq!(e.kind, ErrorKind::NotFound);
    let r = error_response(e);
    assert_eq!(r.status, 404);
    assert_eq!(r.body, "Error requesting sha from github: down");
}

#[test]
fn status_codes_by_kind() {
    assert_eq!(ErrorKind::BadRequest.status_code(), 400);
    assert_eq!(ErrorKind::NotFound.status_code(), 404);
    assert_eq!(ErrorKind::InternalError.status_code(), 500);
}

#[test]
fn decode_failure_is_bad_request() {
    let e = decode_failure("missing field `line`");
    assert_eq!(e.kind, ErrorKind::BadRequest);
    assert_eq!(e.message, "Error deserialising request params: missing field `line`");
}

#[test]
fn storage_failures_are_internal_errors() {
    let r = listing_response(StoreOutcome::Unavailable("timed out".to_owned()));
    assert_eq!(r.status, 500);
    assert_eq!(r.body, "Error getting database connection: timed out");
    let r = listing_response(StoreOutcome::Failed("Error querying: gone".to_owned()));
    assert_eq!(r.status, 500);
    assert_eq!(r.body, "Error querying: gone");
}

#[test]
fn listing_is_json_array() {
    let r = listing_response(StoreOutcome::Listed(vec!["a \"quoted\"".to_owned(), "b".to_owned()]));
    assert_eq!(r.status, 200);
    assert_eq!(r.body, "[\"a \\\"quoted\\\"\",\"b\"]");
}

#[test]
fn only_get_of_root_with_query_is_routed() {
    assert!(is_lookup_route(true, "/", true));
    assert!(!is_lookup_route(false, "/", true));
    assert!(!is_lookup_route(true, "/", false));
    assert!(!is_lookup_route(true, "/x", true));
    assert!(!is_lookup_route(true, "", true));
    let r = unrouted_response();
    assert_eq!(r.status, 404);
    assert_eq!(r.body, "");
}

fn serve(req: Req, store: &CommentStore, lookup: Option<(u16, &str)>) -> (u16, String) {
    let anchor = match req.into_line_in_repo() {
        Resolution::Ready(a) => a,
        Resolution::Failed(e) => {
            let r = error_response(e);
            return (r.status, r.body);
        }
        Resolution::Lookup(p, _) => {
            let (status, body) = lookup.expect("no lookup expected");
            match p.resolved(classify_response(status, body.to_owned())) {
                Ok(a) => a,
                Err(e) => {
                    let r = error_response(e);
                    return (r.status, r.body);
                }
            }
        }
    };
    let r = listing_response(StoreOutcome::Listed(comments_for_line(store, &anchor)));
    (r.status, r.body)
}

#[test]
fn scenario_no_comments_yet() {
    let store = CommentStore::new();
    assert_eq!(serve(request(Some(SHA), None), &store, None), (200, "[]".to_owned()));
}

#[test]
fn scenario_one_comment() {
    let mut store = CommentStore::new();
    let a = ready(request(Some(SHA), None).into_line_in_repo());
    leave_comment(&mut store, &a, "nice line").unwrap();
    assert_eq!(
        serve(request(Some(SHA), None), &store, None),
        (200, "[\"nice line\"]".to_owned())
    );
}

#[test]
fn scenario_unknown_ref() {
    let store = CommentStore::new();
    let (status, body) = serve(request(None, Some("main")), &store, Some((422, "")));
    assert_eq!(status, 404);
    assert_eq!(body, "Could not find ref");
}

#[test]
fn scenario_lookup_failure() {
    let store = CommentStore::new();
    let (status, body) = serve(request(None, Some("main")), &store, Some((502, "bad gateway")));
    assert_eq!(status, 404);
    assert_eq!(body, "Bad status code from github: 502: bad gateway");
}

#[test]
fn scenario_both_sha_and_ref() {
    let store = CommentStore::new();
    let (status, _) = serve(request(Some(SHA), Some("main")), &store, None);
    assert_eq!(status, 400);
}

#[test]
fn render_lists_numbered_comments() {
    assert_eq!(render_comments(&vec![]), vec!["[No comments]"]);
    assert_eq!(
        render_comments(&vec!["first".to_owned(), "second".to_owned()]),
        vec!["Comment 0: first", "Comment 1: second"]
    );
}

#[test]
fn require_sha_reports_missing_ref() {
    assert_eq!(require_sha(Ok(Some(SHA.to_owned())), "main"), Ok(SHA.to_owned()));
    assert_eq!(require_sha(Ok(None), "main"), Err("Count not find sha main".to_owned()));
    assert_eq!(require_sha(Err("down".to_owned()), "main"), Err("down".to_owned()));
}
