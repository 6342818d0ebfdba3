use vstd::prelude::*;

use crate::order::{sort_descending, Keyed};
use crate::principal::Principal;

verus! {

/// The bound, in bytes of UTF-8, on a comment's text and on its author's id and name.
pub const MAX_FIELD_LEN: usize = 255;

/// How many comments a retrieval returns at most.
pub const RECENT_WINDOW: usize = 100;

/// A persisted comment; `timestamp` counts microseconds since the Unix epoch.
#[derive(Debug, PartialEq, Eq)]
pub struct Comment {
    pub id: i32,
    pub userid: String,
    pub name: String,
    pub comment: String,
    pub timestamp: i64,
}

/// Comments are ordered by their timestamp.
impl Keyed for Comment {
    open spec fn key_of(&self) -> int {
        self.timestamp as int
    }

    fn key(&self) -> (r: i64) {
        self.timestamp
    }
}

/// The text of a comment that a user submits.
pub struct CreateComment {
    pub comment: String,
}

/// A comment that passed the checks, with its text sanitized, ready to be appended.
#[derive(Debug, PartialEq, Eq)]
pub struct NewComment {
    pub userid: String,
    pub name: String,
    pub comment: String,
}

#[derive(Clone, Copy, Debug, PartialEq, Eq, Structural)]
pub enum CommentError {
    /// The caller is not logged in.
    Authorization,
    /// A field exceeds its length bound.
    Validation,
    /// The ledger could not store the comment.
    StoreFailure,
}

/// The length of a text in bytes of UTF-8, as `str::len` gives it.
pub open spec fn byte_len(s: Seq<char>) -> usize {
    vstd::utf8::encode_utf8(s).len() as usize
}

/// What ammonia's default cleaner makes of a text.
pub uninterp spec fn sanitized(text: Seq<char>) -> Seq<char>;

/// Relies on `ammonia::clean`: the text with the markup outside ammonia's default allow-list
/// removed; the result depends on the text alone.
#[verifier::external_body]
fn sanitize(text: &str) -> (r: String)
    ensures
        r@ == sanitized(text@),
{
    ammonia::clean(text)
}

pub open spec fn over_bound(user_id: Seq<char>, name: Seq<char>, text: Seq<char>) -> bool {
    byte_len(user_id) > MAX_FIELD_LEN || byte_len(name) > MAX_FIELD_LEN || byte_len(text)
        > MAX_FIELD_LEN
}

/// The error that a comment meets before anything is written, if any.
pub open spec fn comment_refusal(principal: Principal, text: Seq<char>) -> Option<CommentError> {
    match principal {
        Principal::Anonymous => Some(CommentError::Authorization),
        Principal::Authenticated { user_id, display_name } => if over_bound(
            user_id@,
            display_name@,
            text,
        ) {
            Some(CommentError::Validation)
        } else {
            None
        },
        Principal::Administrator { user_id, display_name } => if over_bound(
            user_id@,
            display_name@,
            text,
        ) {
            Some(CommentError::Validation)
        } else {
            None
        },
    }
}

fn check_bounds(user_id: &String, name: &String, text: &String) -> (r: bool)
    ensures
        r == over_bound(user_id@, name@, text@),
{
    user_id.as_str().len() > MAX_FIELD_LEN || name.as_str().len() > MAX_FIELD_LEN
        || text.as_str().len() > MAX_FIELD_LEN
}

/// The checks of a comment: a logged-in author, and every field within its bound.
pub fn check_comment(principal: &Principal, text: &String) -> (r: Option<CommentError>)
    ensures
        r == comment_refusal(*principal, text@),
{
    match principal {
        Principal::Anonymous => Some(CommentError::Authorization),
        Principal::Authenticated { user_id, display_name } => {
            if check_bounds(user_id, display_name, text) {
                Some(CommentError::Validation)
            } else {
                None
            }
        },
        Principal::Administrator { user_id, display_name } => {
            if check_bounds(user_id, display_name, text) {
                Some(CommentError::Validation)
            } else {
                None
            }
        },
    }
}

/// Checks a comment and sanitizes its text; the author is the principal.
pub fn prepare_comment(principal: &Principal, request: CreateComment) -> (r: Result<
    NewComment,
    CommentError,
>)
    ensures
        match comment_refusal(*principal, request.comment@) {
            Some(e) => r == Err::<NewComment, CommentError>(e),
            None => r matches Ok(c) && c.comment@ == sanitized(request.comment@) && match *principal {
                Principal::Authenticated { user_id, display_name } => c.userid == user_id
                    && c.name == display_name,
                Principal::Administrator { user_id, display_name } => c.userid == user_id
                    && c.name == display_name,
                Principal::Anonymous => false,
            },
        },
{
    if let Some(e) = check_comment(principal, &request.comment) {
        return Err(e);
    }
    let comment = sanitize(request.comment.as_str());
    match principal {
        Principal::Authenticated { user_id, display_name } => Ok(
            NewComment { userid: user_id.clone(), name: display_name.clone(), comment },
        ),
        Principal::Administrator { user_id, display_name } => Ok(
            NewComment { userid: user_id.clone(), name: display_name.clone(), comment },
        ),
        Principal::Anonymous => Err(CommentError::Authorization),
    }
}

/// Comments ordered newest first: by timestamp, non-increasing.
pub open spec fn newest_first_by_time(rows: Seq<Comment>) -> bool {
    forall|i: int, j: int| 0 <= i < j < rows.len() ==> rows[i].timestamp >= rows[j].timestamp
}

/// Orders comments newest first.
pub fn newest_first_comments(rows: Vec<Comment>) -> (r: Vec<Comment>)
    ensures
        r@.to_multiset() == rows@.to_multiset(),
        newest_first_by_time(r@),
{
    sort_descending(rows)
}

/// The newest `limit` comments, newest first: a prefix of the comments in that order.
pub fn recent(rows: Vec<Comment>, limit: usize) -> (r: Vec<Comment>)
    ensures
        r.len() == if rows.len() < limit {
            rows.len()
        } else {
            limit
        },
        newest_first_by_time(r@),
        exists|s: Seq<Comment>|
            #![trigger s.to_multiset()]
            s.to_multiset() == rows@.to_multiset() && newest_first_by_time(s) && r@ == s.take(
                r.len() as int,
            ),
{
    let ghost input = rows@;
    let mut r = newest_first_comments(rows);
    let ghost sorted = r@;
    r.truncate(limit);
    assert(r@ =~= sorted.take(r.len() as int));
    proof {
        sorted.to_multiset_ensures();
        input.to_multiset_ensures();
    }
    r
}

} // verus!
