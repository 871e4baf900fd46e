use code_graffiti::store::{comments_for_line, leave_comment, MAX_STORED_LINE};
use code_graffiti::{CommentStore, LineInRepo, NewComment};

fn anchor(path: &str, line: usize) -> LineInRepo {
    LineInRepo {
        repo_user: "acme".to_owned(),
        repo_name: "widgets".to_owned(),
        sha: "0123456789abcdef0123456789abcdef01234567".to_owned(),
        path: path.to_owned(),
        line,
    }
}

#[test]
fn empty_anchor_lists_nothing() {
    let store = CommentStore::new();
    assert_eq!(comments_for_line(&store, &anchor("src/a.c", 12)), Vec::<String>::new());
}

#[test]
fn other_anchor_comments_are_not_listed() {
    let mut store = CommentStore::new();
    assert_eq!(leave_comment(&mut store, &anchor("src/a.c", 13), "elsewhere"), Ok(()));
    assert_eq!(comments_for_line(&store, &anchor("src/a.c", 12)), Vec::<String>::new());
}

#[test]
fn appends_list_in_order() {
    let mut store = CommentStore::new();
    let a = anchor("src/a.c", 12);
    for body in ["one", "two", "three"] {
        assert_eq!(leave_comment(&mut store, &a, body), Ok(()));
    }
    assert_eq!(comments_for_line(&store, &a), vec!["one", "two", "three"]);
}

#[test]
fn interleaved_appends_stay_apart() {
    let mut store = CommentStore::new();
    let a = anchor("src/a.c", 12);
    let b = anchor("src/b.c", 12);
    let mut c = anchor("src/a.c", 12);
    c.sha = "ffffffffffffffffffffffffffffffffffffffff".to_owned();
    leave_comment(&mut store, &a, "a1").unwrap();
    leave_comment(&mut store, &b, "b1").unwrap();
    leave_comment(&mut store, &c, "c1").unwrap();
    leave_comment(&mut store, &a, "a2").unwrap();
    leave_comment(&mut store, &b, "b2").unwrap();
    assert_eq!(comments_for_line(&store, &a), vec!["a1", "a2"]);
    assert_eq!(comments_for_line(&store, &b), vec!["b1", "b2"]);
    assert_eq!(comments_for_line(&store, &c), vec!["c1"]);
    assert_eq!(store.len(), 5);
}

#[test]
fn equal_bodies_are_kept_apart() {
    let mut store = CommentStore::new();
    let a = anchor("src/a.c", 0);
    leave_comment(&mut store, &a, "same").unwrap();
    leave_comment(&mut store, &a, "same").unwrap();
    assert_eq!(comments_for_line(&store, &a), vec!["same", "same"]);
}

#[test]
fn line_beyond_store_range_is_refused() {
    let mut store = CommentStore::new();
    let big = anchor("src/a.c", MAX_STORED_LINE + 1);
    assert!(leave_comment(&mut store, &big, "too far").is_err());
    assert_eq!(store.len(), 0);
    let edge = anchor("src/a.c", MAX_STORED_LINE);
    assert_eq!(leave_comment(&mut store, &edge, "just fits"), Ok(()));
    assert_eq!(comments_for_line(&store, &edge), vec!["just fits"]);
}

#[test]
fn new_comment_borrows_anchor() {
    let a = anchor("src/a.c", 12);
    let c = NewComment::for_line(&a, "hi").unwrap();
    assert_eq!(c.repo_user, "acme");
    assert_eq!(c.path, "src/a.c");
    assert_eq!(c.line, 12);
    assert_eq!(c.comment, "hi");
    assert!(NewComment::for_line(&anchor("x", MAX_STORED_LINE + 1), "hi").is_none());
}
