use vstd::prelude::*;

use crate::date::Date;
use crate::post::{date_is_invalid, invalid_date, post_blob, render_post, PostError, UpdatePost};
use crate::principal::Principal;
use crate::text::{is_blank, is_blank_text};

verus! {

/// One write of an update, to the metadata sink or to the file sink.
#[derive(Debug, PartialEq, Eq)]
pub enum PostWrite {
    SetTitle { id: i32, title: String },
    SetDate { id: i32, published_date: Date },
    WriteBlob { id: i32, content: String },
}

/// A write, with its texts seen as sequences of characters.
pub enum WriteView {
    SetTitle { id: i32, title: Seq<char> },
    SetDate { id: i32, published_date: Date },
    WriteBlob { id: i32, content: Seq<char> },
}

impl View for PostWrite {
    type V = WriteView;

    open spec fn view(&self) -> WriteView {
        match self {
            PostWrite::SetTitle { id, title } => WriteView::SetTitle { id: *id, title: title@ },
            PostWrite::SetDate { id, published_date } => WriteView::SetDate {
                id: *id,
                published_date: *published_date,
            },
            PostWrite::WriteBlob { id, content } => WriteView::WriteBlob {
                id: *id,
                content: content@,
            },
        }
    }
}

/// An update that passed the checks. Present fields are written in the order title, date,
/// body; a failed write ends the update and leaves the earlier writes applied.
#[derive(Debug, PartialEq, Eq)]
pub struct UpdatePlan {
    pub id: i32,
    pub title: Option<String>,
    pub body: Option<String>,
    pub published_date: Option<Date>,
}

pub open spec fn blank_if_present(s: Option<String>) -> bool {
    s matches Some(t) && is_blank_text(t@)
}

/// The error that an update request meets before anything is written, if any.
pub open spec fn update_refusal(principal: Principal, request: UpdatePost) -> Option<PostError> {
    if !principal.admin() {
        Some(PostError::Authorization)
    } else if blank_if_present(request.title) || blank_if_present(request.content) || invalid_date(
        request.published_date,
    ) {
        Some(PostError::Validation)
    } else {
        None
    }
}

fn blank_option(s: &Option<String>) -> (r: bool)
    ensures
        r == blank_if_present(*s),
{
    match s {
        Some(t) => is_blank(t.as_str()),
        None => false,
    }
}

/// Checks an update request: only the administrator updates, a title or body that is given
/// must not be blank, and a date that is given must name a day.
pub fn prepare_update(principal: &Principal, id: i32, request: UpdatePost) -> (r: Result<
    UpdatePlan,
    PostError,
>)
    ensures
        match update_refusal(*principal, request) {
            Some(e) => r == Err::<UpdatePlan, PostError>(e),
            None => r == Ok::<UpdatePlan, PostError>(
                UpdatePlan {
                    id,
                    title: request.title,
                    body: request.content,
                    published_date: request.published_date,
                },
            ),
        },
{
    if !principal.is_admin() {
        return Err(PostError::Authorization);
    }
    if blank_option(&request.title) || blank_option(&request.content) || date_is_invalid(
        request.published_date,
    ) {
        return Err(PostError::Validation);
    }
    Ok(UpdatePlan {
        id,
        title: request.title,
        body: request.content,
        published_date: request.published_date,
    })
}

/// The update rewrites the blob with the stored title, and that title could not be read.
pub open spec fn title_unavailable(plan: UpdatePlan, stored_title: Option<String>) -> bool {
    plan.body is Some && plan.title is None && stored_title is None
}

/// The title that a rewritten blob embeds: the new one, else the stored one (where neither
/// is at hand no blob is planned, see `title_unavailable`).
pub open spec fn blob_title(plan: UpdatePlan, stored_title: Option<String>) -> Seq<char> {
    match plan.title {
        Some(t) => t@,
        None => match stored_title {
            Some(s) => s@,
            None => Seq::empty(),
        },
    }
}

/// The writes of an update, in order.
pub open spec fn planned_writes(plan: UpdatePlan, stored_title: Option<String>) -> Seq<WriteView> {
    let titles = match plan.title {
        Some(t) => seq![WriteView::SetTitle { id: plan.id, title: t@ }],
        None => Seq::<WriteView>::empty(),
    };
    let dates = match plan.published_date {
        Some(d) => seq![WriteView::SetDate { id: plan.id, published_date: d }],
        None => Seq::<WriteView>::empty(),
    };
    let blobs = match plan.body {
        Some(b) => seq![
            WriteView::WriteBlob { id: plan.id, content: post_blob(blob_title(plan, stored_title), b@) },
        ],
        None => Seq::<WriteView>::empty(),
    };
    titles + dates + blobs
}

impl UpdatePlan {
    /// A body without a title needs the stored title, read from the metadata row.
    pub fn needs_stored_title(&self) -> (r: bool)
        ensures
            r == (self.body is Some && self.title is None),
    {
        self.body.is_some() && self.title.is_none()
    }

    /// The writes to perform, in order; `stored_title` is the title read from the row, where
    /// one was needed and could be read. A body without a title whose stored title could not
    /// be read fails the update before anything is written, so that the blob never embeds a
    /// title other than the row's.
    pub fn writes(&self, stored_title: Option<String>) -> (r: Result<Vec<PostWrite>, PostError>)
        ensures
            title_unavailable(*self, stored_title) ==> r == Err::<Vec<PostWrite>, PostError>(
                PostError::StoreFailure,
            ),
            !title_unavailable(*self, stored_title) ==> (r matches Ok(w) && w@.map_values(
                |w: PostWrite| w@,
            ) == planned_writes(*self, stored_title)),
    {
        let ghost stored = stored_title;
        let title = match &self.title {
            Some(t) => t.clone(),
            None => match stored_title {
                Some(s) => s,
                None => {
                    if self.body.is_some() {
                        return Err(PostError::StoreFailure);
                    }
                    String::new()
                },
            },
        };
        let mut r: Vec<PostWrite> = Vec::new();
        if let Some(t) = &self.title {
            r.push(PostWrite::SetTitle { id: self.id, title: t.clone() });
        }
        if let Some(d) = self.published_date {
            r.push(PostWrite::SetDate { id: self.id, published_date: d });
        }
        if let Some(b) = &self.body {
            assert(title@ == blob_title(*self, stored));
            let content = render_post(title.as_str(), b.as_str());
            r.push(PostWrite::WriteBlob { id: self.id, content });
        }
        assert(r@.map_values(|w: PostWrite| w@) =~= planned_writes(*self, stored));
        Ok(r)
    }
}

/// An update under way: the writes that were planned, how many were applied, and whether
/// one failed. After a failure nothing more is written.
pub struct UpdateRun {
    writes: Vec<PostWrite>,
    applied: usize,
    failed: bool,
}

impl UpdateRun {
    pub closed spec fn planned(&self) -> Seq<WriteView> {
        self.writes@.map_values(|w: PostWrite| w@)
    }

    pub closed spec fn applied_count(&self) -> nat {
        self.applied as nat
    }

    pub closed spec fn has_failed(&self) -> bool {
        self.failed
    }

    pub closed spec fn wf(&self) -> bool {
        self.applied <= self.writes.len()
    }

    /// A write is still to be made.
    pub open spec fn pending(&self) -> bool {
        !self.has_failed() && self.applied_count() < self.planned().len()
    }

    pub fn new(writes: Vec<PostWrite>) -> (r: UpdateRun)
        ensures
            r.wf(),
            r.planned() == writes@.map_values(|w: PostWrite| w@),
            r.applied_count() == 0,
            !r.has_failed(),
    {
        UpdateRun { writes, applied: 0, failed: false }
    }

    /// The write to make next, if any.
    pub fn next_write(&self) -> (r: Option<&PostWrite>)
        requires
            self.wf(),
        ensures
            self.pending() ==> (r matches Some(w) && w@ == self.planned()[self.applied_count() as int]),
            !self.pending() ==> r is None,
    {
        if self.failed || self.applied >= self.writes.len() {
            None
        } else {
            Some(&self.writes[self.applied])
        }
    }

    /// Records how the write that `next_write` gave went.
    pub fn record(&mut self, succeeded: bool)
        requires
            old(self).wf(),
            old(self).pending(),
        ensures
            final(self).wf(),
            final(self).planned() == old(self).planned(),
            succeeded ==> final(self).applied_count() == old(self).applied_count() + 1
                && !final(self).has_failed(),
            !succeeded ==> final(self).applied_count() == old(self).applied_count()
                && final(self).has_failed(),
    {
        if succeeded {
            self.applied = self.applied + 1;
        } else {
            self.failed = true;
        }
    }

    /// The outcome of the update once no write is pending.
    pub fn outcome(&self) -> (r: Option<Result<(), PostError>>)
        requires
            self.wf(),
        ensures
            self.pending() ==> r is None,
            self.has_failed() ==> r == Some(Err::<(), PostError>(PostError::StoreFailure)),
            !self.has_failed() && self.applied_count() == self.planned().len() ==> r == Some(
                Ok::<(), PostError>(()),
            ),
    {
        if self.failed {
            Some(Err(PostError::StoreFailure))
        } else if self.applied < self.writes.len() {
            None
        } else {
            Some(Ok(()))
        }
    }
}

} // verus!

