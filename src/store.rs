use crate::models::LineInRepo;
use vstd::prelude::*;
use vstd::string::StringExecFns;

verus! {

/// A stored comment: its anchor, its body, and the identifier that orders it
/// among the comments stored before and after it.
#[derive(Debug)]
pub struct Comment {
    pub id: i32,
    pub repo_user: String,
    pub repo_name: String,
    pub path: String,
    pub sha: String,
    pub line: i32,
    pub comment: String,
}

/// A comment about to be stored, borrowing its anchor and its body.
pub struct NewComment<'a> {
    pub repo_user: &'a str,
    pub repo_name: &'a str,
    pub path: &'a str,
    pub sha: &'a str,
    pub line: i32,
    pub comment: &'a str,
}

/// The largest line number that a stored row can hold.
pub const MAX_STORED_LINE: usize = 0x7fff_ffff;

impl<'a> NewComment<'a> {
    /// The row for `body` on `context`, or `None` when the line number does
    /// not fit the store's line column.
    pub fn for_line(context: &'a LineInRepo, body: &'a str) -> (r: Option<NewComment<'a>>)
        ensures
            r is Some <==> context.line <= MAX_STORED_LINE,
            r matches Some(c) ==> {
                &&& c.repo_user@ == context.repo_user@
                &&& c.repo_name@ == context.repo_name@
                &&& c.path@ == context.path@
                &&& c.sha@ == context.sha@
                &&& c.line as int == context.line as int
                &&& c.comment@ == body@
            },
    {
        if context.line > MAX_STORED_LINE {
            return None;
        }
        Some(NewComment {
            repo_user: context.repo_user.as_str(),
            repo_name: context.repo_name.as_str(),
            path: context.path.as_str(),
            sha: context.sha.as_str(),
            line: context.line as i32,
            comment: body,
        })
    }
}

/// Whether a stored row belongs to `anchor`: all five anchor fields equal.
pub open spec fn row_matches(row: Comment, anchor: LineInRepo) -> bool {
    &&& row.repo_user@ == anchor.repo_user@
    &&& row.repo_name@ == anchor.repo_name@
    &&& row.sha@ == anchor.sha@
    &&& row.path@ == anchor.path@
    &&& row.line as int == anchor.line as int
}

/// The bodies of the rows that belong to `anchor`, in the order of the rows.
pub open spec fn bodies_for(rows: Seq<Comment>, anchor: LineInRepo) -> Seq<Seq<char>>
    decreases rows.len(),
{
    if rows.len() == 0 {
        Seq::empty()
    } else {
        let earlier = bodies_for(rows.drop_last(), anchor);
        if row_matches(rows.last(), anchor) {
            earlier.push(rows.last().comment@)
        } else {
            earlier
        }
    }
}

/// `after` is `before` with one more row, for `anchor`, holding `body`.
pub open spec fn appended(
    before: Seq<Comment>,
    after: Seq<Comment>,
    anchor: LineInRepo,
    body: Seq<char>,
) -> bool {
    &&& after.len() == before.len() + 1
    &&& after.drop_last() == before
    &&& row_matches(after.last(), anchor)
    &&& after.last().comment@ == body
}

/// The bodies among `bodies` whose anchor in `anchors` is `anchor`, in order.
pub open spec fn bodies_appended_to(
    anchors: Seq<LineInRepo>,
    bodies: Seq<Seq<char>>,
    anchor: LineInRepo,
) -> Seq<Seq<char>>
    decreases anchors.len(),
{
    if anchors.len() == 0 || bodies.len() == 0 {
        Seq::empty()
    } else {
        let earlier = bodies_appended_to(anchors.drop_last(), bodies.drop_last(), anchor);
        if anchors.last().same_anchor(&anchor) {
            earlier.push(bodies.last())
        } else {
            earlier
        }
    }
}

/// Comments kept in memory, in the order in which they were appended.
pub struct CommentStore {
    rows: Vec<Comment>,
    next_id: i32,
}

impl CommentStore {
    /// The stored rows, oldest first.
    pub closed spec fn rows(&self) -> Seq<Comment> {
        self.rows@
    }

    /// Whether another comment can be given an identifier.
    pub closed spec fn has_room(&self) -> bool {
        self.next_id < i32::MAX
    }

    /// Identifiers increase along the rows and stay below the next one.
    pub closed spec fn wf(&self) -> bool {
        &&& self.next_id >= 1
        &&& forall|i: int, j: int| 0 <= i < j < self.rows@.len() ==> self.rows@[i].id < self.rows@[j].id
        &&& forall|i: int| 0 <= i < self.rows@.len() ==> #[trigger] self.rows@[i].id < self.next_id
    }

    /// An empty store.
    pub fn new() -> (r: CommentStore)
        ensures
            r.wf(),
            r.rows() == Seq::<Comment>::empty(),
            r.has_room(),
    {
        CommentStore { rows: Vec::new(), next_id: 1 }
    }

    /// The number of stored comments, over all anchors.
    pub fn len(&self) -> (r: usize)
        ensures
            r == self.rows().len(),
    {
        self.rows.len()
    }
}

/// The bodies of the comments on `context`, oldest first; empty when there
/// are none.
pub fn comments_for_line(connection: &CommentStore, context: &LineInRepo) -> (r: Vec<String>)
    ensures
        r@.len() == bodies_for(connection.rows(), *context).len(),
        forall|i: int| 0 <= i < r@.len() ==> #[trigger] r@[i]@ == bodies_for(connection.rows(), *context)[i],
{
    let rows = &connection.rows;
    let mut out: Vec<String> = Vec::new();
    let mut k: usize = 0;
    while k < rows.len()
        invariant
            k <= rows@.len(),
            rows@ == connection.rows(),
            out@.len() == bodies_for(rows@.subrange(0, k as int), *context).len(),
            forall|i: int| 0 <= i < out@.len() ==> #[trigger] out@[i]@ == bodies_for(rows@.subrange(0, k as int), *context)[i],
        decreases rows.len() - k,
    {
        let row = &rows[k];
        let ghost before = rows@.subrange(0, k as int);
        proof {
            assert(rows@.subrange(0, k + 1).drop_last() =~= before);
        }
        if row.repo_user == context.repo_user && row.repo_name == context.repo_name && row.sha
            == context.sha && row.path == context.path && row.line >= 0 && row.line as usize
            == context.line {
            out.push(row.comment.clone());
        }
        k = k + 1;
    }
    proof {
        assert(rows@.subrange(0, rows@.len() as int) =~= rows@);
    }
    out
}

/// Stores `body` on `context` after every comment stored so far. Fails, and
/// stores nothing, when the line number does not fit the store or no
/// identifier is left.
pub fn leave_comment(connection: &mut CommentStore, context: &LineInRepo, body: &str) -> (r:
    Result<(), String>)
    requires
        old(connection).wf(),
    ensures
        final(connection).wf(),
        r is Ok <==> (context.line <= MAX_STORED_LINE && old(connection).has_room()),
        r is Ok ==> appended(old(connection).rows(), final(connection).rows(), *context, body@),
        r is Err ==> final(connection).rows() == old(connection).rows(),
        r is Err ==> final(connection).has_room() == old(connection).has_room(),
{
    let new_comment = match NewComment::for_line(context, body) {
        Some(c) => c,
        None => {
            return Err(String::from_str("Error saving comment: line number too large"));
        },
    };
    if connection.next_id == i32::MAX {
        return Err(String::from_str("Error saving comment: no identifier left"));
    }
    let row = Comment {
        id: connection.next_id,
        repo_user: String::from_str(new_comment.repo_user),
        repo_name: String::from_str(new_comment.repo_name),
        path: String::from_str(new_comment.path),
        sha: String::from_str(new_comment.sha),
        line: new_comment.line,
        comment: String::from_str(new_comment.comment),
    };
    let ghost before = connection.rows@;
    connection.rows.push(row);
    connection.next_id = connection.next_id + 1;
    proof {
        assert(connection.rows@.drop_last() =~= before);
    }
    Ok(())
}

/// An anchor that no stored row belongs to lists as the empty sequence.
pub proof fn lemma_no_comments_lists_empty(rows: Seq<Comment>, anchor: LineInRepo)
    requires
        forall|i: int| 0 <= i < rows.len() ==> !row_matches(#[trigger] rows[i], anchor),
    ensures
        bodies_for(rows, anchor) == Seq::<Seq<char>>::empty(),
    decreases rows.len(),
{
    if rows.len() > 0 {
        let earlier = rows.drop_last();
        assert forall|i: int| 0 <= i < earlier.len() implies !row_matches(#[trigger] earlier[i], anchor) by {
            assert(earlier[i] == rows[i]);
        }
        lemma_no_comments_lists_empty(earlier, anchor);
        assert(!row_matches(rows[rows.len() - 1], anchor));
    }
}

/// After a run of appends, an anchor lists what it listed before followed by
/// the bodies appended to it, in the order in which they were appended,
/// whatever appends to other anchors came in between.
pub proof fn lemma_listing_follows_appends(
    states: Seq<Seq<Comment>>,
    anchors: Seq<LineInRepo>,
    bodies: Seq<Seq<char>>,
    anchor: LineInRepo,
)
    requires
        states.len() == anchors.len() + 1,
        bodies.len() == anchors.len(),
        forall|i: int|
            0 <= i < anchors.len() ==> appended(#[trigger] states[i], states[i + 1], anchors[i], bodies[i]),
    ensures
        bodies_for(states.last(), anchor) == bodies_for(states[0], anchor) + bodies_appended_to(
            anchors,
            bodies,
            anchor,
        ),
    decreases anchors.len(),
{
    let n = anchors.len() as int;
    if n == 0 {
        assert(bodies_for(states[0], anchor) + Seq::<Seq<char>>::empty() =~= bodies_for(states[0], anchor));
    } else {
        let prefix = states.drop_last();
        assert forall|i: int| 0 <= i < anchors.drop_last().len() implies appended(
            #[trigger] prefix[i],
            prefix[i + 1],
            anchors.drop_last()[i],
            bodies.drop_last()[i],
        ) by {
            assert(appended(states[i], states[i + 1], anchors[i], bodies[i]));
        }
        lemma_listing_follows_appends(prefix, anchors.drop_last(), bodies.drop_last(), anchor);
        assert(appended(states[n - 1], states[n], anchors[n - 1], bodies[n - 1]));
        assert(prefix.last() == states[n - 1]);
        let before = bodies_for(states[0], anchor);
        let earlier = bodies_appended_to(anchors.drop_last(), bodies.drop_last(), anchor);
        if anchors.last().same_anchor(&anchor) {
            assert(before + earlier.push(bodies.last()) =~= (before + earlier).push(bodies.last()));
        }
    }
}

/// Appending bodies one after another to one anchor of an empty store lists
/// exactly those bodies, in that order.
pub proof fn lemma_appends_to_one_anchor(
    states: Seq<Seq<Comment>>,
    bodies: Seq<Seq<char>>,
    anchor: LineInRepo,
)
    requires
        states.len() == bodies.len() + 1,
        states[0].len() == 0,
        forall|i: int|
            0 <= i < bodies.len() ==> appended(#[trigger] states[i], states[i + 1], anchor, bodies[i]),
    ensures
        bodies_for(states.last(), anchor) == bodies,
{
    let anchors = Seq::new(bodies.len(), |i: int| anchor);
    assert forall|i: int| 0 <= i < anchors.len() implies appended(
        #[trigger] states[i],
        states[i + 1],
        anchors[i],
        bodies[i],
    ) by {
        assert(appended(states[i], states[i + 1], anchor, bodies[i]));
    }
    lemma_listing_follows_appends(states, anchors, bodies, anchor);
    lemma_same_anchor_keeps_all(anchors, bodies, anchor);
    assert(bodies_for(states[0], anchor) + bodies =~= bodies);
}

proof fn lemma_same_anchor_keeps_all(anchors: Seq<LineInRepo>, bodies: Seq<Seq<char>>, anchor: LineInRepo)
    requires
        anchors.len() == bodies.len(),
        forall|i: int| 0 <= i < anchors.len() ==> #[trigger] anchors[i] == anchor,
    ensures
        bodies_appended_to(anchors, bodies, anchor) == bodies,
    decreases anchors.len(),
{
    if anchors.len() > 0 {
        let a = anchors.drop_last();
        assert forall|i: int| 0 <= i < a.len() implies #[trigger] a[i] == anchor by {
            assert(anchors[i] == anchor);
        }
        lemma_same_anchor_keeps_all(a, bodies.drop_last(), anchor);
        assert(anchors.last() == anchor);
        assert(bodies.drop_last().push(bodies.last()) =~= bodies);
    }
}

} // verus!
