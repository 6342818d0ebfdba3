use vstd::prelude::*;

use crate::date::{today, Date};
use crate::order::{sort_descending, Keyed};
use crate::principal::Principal;
use crate::text::{is_blank, is_blank_text, parse_i32, parsed_i32};

verus! {

/// The metadata row of a post: everything but its body.
#[derive(Debug, PartialEq, Eq)]
pub struct PostMeta {
    pub id: i32,
    pub title: String,
    pub published_date: Date,
    pub views: i32,
}

/// Posts are ordered by id, which the metadata sink assigns in increasing order.
impl Keyed for PostMeta {
    open spec fn key_of(&self) -> int {
        self.id as int
    }

    fn key(&self) -> (r: i64) {
        self.id as i64
    }
}

/// Why a post operation failed. Failed writes are neither retried nor rolled back: the row
/// is the authority on a post's existence, and a blob can be written again by an update.
#[derive(Clone, Copy, Debug, PartialEq, Eq, Structural)]
pub enum PostError {
    /// A blank title or body, or a date that names no day.
    Validation,
    /// The caller is not the administrator.
    Authorization,
    /// No blob is stored under the id.
    NotFound,
    /// A sink operation failed; what came before it stays applied.
    StoreFailure,
}

/// The id segment of a post's path.
pub struct Info {
    pub id: String,
}

impl Info {
    /// The id that the segment writes in decimal, or 0 where it writes none.
    pub fn post_id(&self) -> (r: i32)
        ensures
            r == match parsed_i32(self.id@) {
                Some(v) => v,
                None => 0,
            },
    {
        match parse_i32(self.id.as_str()) {
            Some(v) => v,
            None => 0,
        }
    }
}

/// A request to create a post; without a date the post is published today.
pub struct CreatePost {
    pub title: String,
    pub content: String,
    pub published_date: Option<Date>,
}

/// A request to change the fields that are present.
pub struct UpdatePost {
    pub title: Option<String>,
    pub content: Option<String>,
    pub published_date: Option<Date>,
}

/// A post that passed the checks, ready for its row and its blob to be written.
#[derive(Debug, PartialEq, Eq)]
pub struct NewPost {
    pub title: String,
    pub body: String,
    pub published_date: Date,
}

pub open spec fn blob_head() -> Seq<char> {
    "<div class='post-container'><h1 class='post-title'>"@
}

pub open spec fn blob_middle() -> Seq<char> {
    "</h1><div class='post-content'>"@
}

pub open spec fn blob_tail() -> Seq<char> {
    "</div></div>"@
}

/// The blob of a post: its markup with the title and the body embedded verbatim.
pub open spec fn post_blob(title: Seq<char>, body: Seq<char>) -> Seq<char> {
    blob_head() + title + blob_middle() + body + blob_tail()
}

/// Renders the blob of a post.
pub fn render_post(title: &str, body: &str) -> (r: String)
    ensures
        r@ == post_blob(title@, body@),
{
    let mut r = String::from_str("<div class='post-container'><h1 class='post-title'>");
    r.append(title);
    r.append("</h1><div class='post-content'>");
    r.append(body);
    r.append("</div></div>");
    r
}

/// A date is given that names no day.
pub open spec fn invalid_date(published_date: Option<Date>) -> bool {
    published_date matches Some(d) && !d.wf()
}

pub fn date_is_invalid(published_date: Option<Date>) -> (r: bool)
    ensures
        r == invalid_date(published_date),
{
    match published_date {
        Some(d) => !d.is_valid(),
        None => false,
    }
}

/// The error that a create request meets before anything is written, if any.
pub open spec fn create_refusal(
    principal: Principal,
    title: Seq<char>,
    body: Seq<char>,
    published_date: Option<Date>,
) -> Option<PostError> {
    if !principal.admin() {
        Some(PostError::Authorization)
    } else if is_blank_text(title) || is_blank_text(body) || invalid_date(published_date) {
        Some(PostError::Validation)
    } else {
        None
    }
}

/// The checks of a create request, which come before any write.
pub fn check_create(
    principal: &Principal,
    title: &String,
    body: &String,
    published_date: Option<Date>,
) -> (r: Option<PostError>)
    ensures
        r == create_refusal(*principal, title@, body@, published_date),
{
    if !principal.is_admin() {
        Some(PostError::Authorization)
    } else if is_blank(title.as_str()) || is_blank(body.as_str()) || date_is_invalid(
        published_date,
    ) {
        Some(PostError::Validation)
    } else {
        None
    }
}

/// Checks a create request, with `today` as the date of a request that gives none.
pub fn prepare_create_on(principal: &Principal, request: CreatePost, today: Date) -> (r: Result<
    NewPost,
    PostError,
>)
    ensures
        match create_refusal(*principal, request.title@, request.content@, request.published_date) {
            Some(e) => r == Err::<NewPost, PostError>(e),
            None => r == Ok::<NewPost, PostError>(
                NewPost {
                    title: request.title,
                    body: request.content,
                    published_date: match request.published_date {
                        Some(d) => d,
                        None => today,
                    },
                },
            ),
        },
{
    if let Some(e) = check_create(principal, &request.title, &request.content, request.published_date) {
        return Err(e);
    }
    let published_date = match request.published_date {
        Some(d) => d,
        None => today,
    };
    Ok(NewPost { title: request.title, body: request.content, published_date })
}

/// Checks a create request; a request without a date is dated with the current date.
pub fn prepare_create(principal: &Principal, request: CreatePost) -> (r: Result<NewPost, PostError>)
    ensures
        match create_refusal(*principal, request.title@, request.content@, request.published_date) {
            Some(e) => r == Err::<NewPost, PostError>(e),
            None => r matches Ok(p) && p.title == request.title && p.body == request.content && (
            match request.published_date {
                Some(d) => p.published_date == d,
                None => p.published_date.wf(),
            }),
        },
{
    if let Some(e) = check_create(principal, &request.title, &request.content, request.published_date) {
        return Err(e);
    }
    let day = match request.published_date {
        Some(d) => d,
        None => today(),
    };
    prepare_create_on(principal, request, day)
}

impl NewPost {
    /// The blob to write under the id that the metadata sink assigned.
    pub fn blob(&self) -> (r: String)
        ensures
            r@ == post_blob(self.title@, self.body@),
    {
        render_post(self.title.as_str(), self.body.as_str())
    }

    /// The outcome of a create whose row was inserted under `id`: the metadata of the new
    /// post when its blob was written too, else a failure that leaves the row in place.
    pub fn stored(self, id: i32, blob_written: bool) -> (r: Result<PostMeta, PostError>)
        ensures
            blob_written ==> r == Ok::<PostMeta, PostError>(
                PostMeta {
                    id,
                    title: self.title,
                    published_date: self.published_date,
                    views: 0,
                },
            ),
            !blob_written ==> r == Err::<PostMeta, PostError>(PostError::StoreFailure),
    {
        if blob_written {
            Ok(PostMeta { id, title: self.title, published_date: self.published_date, views: 0 })
        } else {
            Err(PostError::StoreFailure)
        }
    }
}

/// What reading a blob from the file sink gave.
pub enum BlobRead {
    Found(String),
    Missing,
    Failed,
}

pub open spec fn content_of(read: BlobRead) -> Result<String, PostError> {
    match read {
        BlobRead::Found(s) => Ok(s),
        BlobRead::Missing => Err(PostError::NotFound),
        BlobRead::Failed => Err(PostError::StoreFailure),
    }
}

/// The answer to a fetch of a post's body: the blob verbatim, whether or not a row exists.
pub fn post_content(read: BlobRead) -> (r: Result<String, PostError>)
    ensures
        r == content_of(read),
{
    match read {
        BlobRead::Found(s) => Ok(s),
        BlobRead::Missing => Err(PostError::NotFound),
        BlobRead::Failed => Err(PostError::StoreFailure),
    }
}

/// What removing a blob from the file sink gave.
#[derive(Clone, Copy, Debug, PartialEq, Eq, Structural)]
pub enum BlobRemoval {
    Removed,
    Missing,
    Failed,
}

/// A finished delete; a blob that was already gone is reported, not treated as an error.
#[derive(Clone, Copy, Debug, PartialEq, Eq, Structural)]
pub struct DeleteReport {
    pub id: i32,
    pub blob_was_missing: bool,
}

/// Admits the administrator alone, as every mutating post operation and the admin listing do.
pub fn check_admin(principal: &Principal) -> (r: Result<(), PostError>)
    ensures
        principal.admin() ==> r == Ok::<(), PostError>(()),
        !principal.admin() ==> r == Err::<(), PostError>(PostError::Authorization),
{
    if principal.is_admin() {
        Ok(())
    } else {
        Err(PostError::Authorization)
    }
}

/// The outcome of a delete whose row is gone, given what became of its blob.
pub fn deleted(id: i32, blob: BlobRemoval) -> (r: Result<DeleteReport, PostError>)
    ensures
        blob == BlobRemoval::Removed ==> r == Ok::<DeleteReport, PostError>(
            DeleteReport { id, blob_was_missing: false },
        ),
        blob == BlobRemoval::Missing ==> r == Ok::<DeleteReport, PostError>(
            DeleteReport { id, blob_was_missing: true },
        ),
        blob == BlobRemoval::Failed ==> r == Err::<DeleteReport, PostError>(PostError::StoreFailure),
{
    match blob {
        BlobRemoval::Removed => Ok(DeleteReport { id, blob_was_missing: false }),
        BlobRemoval::Missing => Ok(DeleteReport { id, blob_was_missing: true }),
        BlobRemoval::Failed => Err(PostError::StoreFailure),
    }
}

/// Rows ordered newest first: by id, descending.
pub open spec fn newest_first_by_id(rows: Seq<PostMeta>) -> bool {
    forall|i: int, j: int| 0 <= i < j < rows.len() ==> rows[i].id >= rows[j].id
}

/// Orders the metadata rows of a listing newest first; an empty listing stays empty.
pub fn newest_first(rows: Vec<PostMeta>) -> (r: Vec<PostMeta>)
    ensures
        r@.to_multiset() == rows@.to_multiset(),
        newest_first_by_id(r@),
{
    sort_descending(rows)
}

/// Where the title starts in a blob.
pub open spec fn title_start() -> int {
    blob_head().len() as int
}

/// Where the body starts in the blob of a post with the given title.
pub open spec fn body_start(title: Seq<char>) -> int {
    (blob_head().len() + title.len() + blob_middle().len()) as int
}

/// A post created from a valid title and body is fetched back as the blob that was written
/// for it, and that blob holds the title and then the body, verbatim.
pub proof fn lemma_create_then_get(principal: Principal, request: CreatePost, stored: String)
    requires
        principal.admin(),
        !is_blank_text(request.title@),
        !is_blank_text(request.content@),
        !invalid_date(request.published_date),
        stored@ == post_blob(request.title@, request.content@),
    ensures
        create_refusal(principal, request.title@, request.content@, request.published_date) is None,
        content_of(BlobRead::Found(stored)) == Ok::<String, PostError>(stored),
        stored@.subrange(title_start(), title_start() + request.title@.len()) == request.title@,
        stored@.subrange(
            body_start(request.title@),
            body_start(request.title@) + request.content@.len(),
        ) == request.content@,
{
    let t = request.title@;
    let b = request.content@;
    let h = blob_head().len() as int;
    let m = blob_middle().len() as int;
    assert(stored@ =~= blob_head() + t + blob_middle() + b + blob_tail());
    assert(stored@.subrange(h, h + t.len()) =~= t);
    assert(stored@.subrange(h + t.len() + m, h + t.len() + m + b.len()) =~= b);
}

/// The command that counts one view of a post.
#[derive(Clone, Copy, Debug, PartialEq, Eq, Structural)]
pub struct ViewIncrement {
    pub id: i32,
}

impl ViewIncrement {
    /// Its effect on the view counters of the metadata sink: the row with the id, if there
    /// is one, counts one view more, and nothing else changes.
    pub open spec fn apply(self, views: Map<i32, int>) -> Map<i32, int> {
        if views.contains_key(self.id) {
            views.insert(self.id, views[self.id] + 1)
        } else {
            views
        }
    }

    /// The effect of issuing the command `n` times.
    pub open spec fn apply_times(self, views: Map<i32, int>, n: nat) -> Map<i32, int>
        decreases n,
    {
        if n == 0 {
            views
        } else {
            self.apply(self.apply_times(views, (n - 1) as nat))
        }
    }
}

/// The command that counts a view of the post `id`; open to every caller.
pub fn increment_views(id: i32) -> (r: ViewIncrement)
    ensures
        r.id == id,
{
    ViewIncrement { id }
}

/// Counting a view `n` times raises the post's counter by exactly `n`; for an id without a
/// row it changes nothing, and it is no error.
pub proof fn lemma_view_increments(id: i32, views: Map<i32, int>, n: nat)
    ensures
        views.contains_key(id) ==> (ViewIncrement { id }).apply_times(views, n) == views.insert(
            id,
            views[id] + n,
        ),
        !views.contains_key(id) ==> (ViewIncrement { id }).apply_times(views, n) == views,
    decreases n,
{
    if n > 0 {
        lemma_view_increments(id, views, (n - 1) as nat);
        if views.contains_key(id) {
            assert((ViewIncrement { id }).apply_times(views, n) =~= views.insert(id, views[id] + n));
        }
    }
}

} // verus!



