//! The shapes of what a client sends: the two request bodies and the
//! pagination query.

use vstd::prelude::*;
use crate::model::NoteView;

verus! {

/// The page that is listed when the query names none.
pub const DEFAULT_PAGE: i32 = 1;

/// The number of notes on a page when the query names none.
pub const DEFAULT_LIMIT: i32 = 10;

/// The body of a request that creates a note.
#[derive(Clone, Debug, PartialEq, Eq)]
pub struct CreateNoteSchema {
    pub title: String,
    pub content: String,
}

/// The mathematical value of a [`CreateNoteSchema`].
pub struct CreateNoteView {
    pub title: Seq<char>,
    pub content: Seq<char>,
}

impl View for CreateNoteSchema {
    type V = CreateNoteView;

    open spec fn view(&self) -> CreateNoteView {
        CreateNoteView { title: self.title@, content: self.content@ }
    }
}

/// The body of a request that edits a note. A field that is absent leaves
/// the stored value as it is.
#[derive(Clone, Debug, PartialEq, Eq)]
pub struct UpdateNoteSchema {
    pub title: Option<String>,
    pub content: Option<String>,
    pub is_published: Option<bool>,
}

/// The mathematical value of an [`UpdateNoteSchema`].
pub struct UpdateNoteView {
    pub title: Option<Seq<char>>,
    pub content: Option<Seq<char>>,
    pub is_published: Option<bool>,
}

/// The value of a text that may be absent.
pub open spec fn text_view(text: Option<String>) -> Option<Seq<char>> {
    match text {
        Some(text) => Some(text@),
        None => None,
    }
}

impl View for UpdateNoteSchema {
    type V = UpdateNoteView;

    open spec fn view(&self) -> UpdateNoteView {
        UpdateNoteView {
            title: text_view(self.title),
            content: text_view(self.content),
            is_published: self.is_published,
        }
    }
}

impl UpdateNoteView {
    /// The title that `stored` has once this update is applied.
    pub open spec fn title_over(self, stored: NoteView) -> Seq<char> {
        match self.title {
            Some(title) => title,
            None => stored.title,
        }
    }

    /// The content that `stored` has once this update is applied.
    pub open spec fn content_over(self, stored: NoteView) -> Seq<char> {
        match self.content {
            Some(content) => content,
            None => stored.content,
        }
    }

    /// Whether `stored` is published once this update is applied.
    pub open spec fn published_over(self, stored: NoteView) -> bool {
        match self.is_published {
            Some(published) => published,
            None => stored.is_published != 0,
        }
    }
}

/// The stored form of the publication flag: 1 for published, 0 for not.
pub open spec fn stored_flag(published: bool) -> i8 {
    if published {
        1
    } else {
        0
    }
}

/// The pagination query. A value that is absent, or that did not parse,
/// is `None`.
#[derive(Clone, Copy, Debug, PartialEq, Eq, Structural)]
pub struct FilterOptions {
    pub page: Option<i32>,
    pub limit: Option<i32>,
}

impl Default for FilterOptions {
    /// A query that names neither a page nor a limit.
    fn default() -> (options: FilterOptions)
        ensures
            options == (FilterOptions { page: None, limit: None }),
    {
        FilterOptions { page: None, limit: None }
    }
}

impl FilterOptions {
    /// The page asked for: `DEFAULT_PAGE` where the query names none.
    #[verifier::inline]
    pub open spec fn spec_page(self) -> int {
        match self.page {
            Some(page) => page as int,
            None => DEFAULT_PAGE as int,
        }
    }

    /// The largest number of notes to list: `DEFAULT_LIMIT` where the query
    /// names none.
    #[verifier::inline]
    pub open spec fn spec_limit(self) -> int {
        match self.limit {
            Some(limit) => limit as int,
            None => DEFAULT_LIMIT as int,
        }
    }

    /// The number of notes to pass over: `(page - 1) * limit`, whatever the
    /// signs of the two.
    #[verifier::inline]
    pub open spec fn spec_offset(self) -> int {
        (self.spec_page() - 1) * self.spec_limit()
    }

    pub fn limit(&self) -> (limit: i32)
        ensures
            limit == self.spec_limit(),
    {
        match self.limit {
            Some(limit) => limit,
            None => DEFAULT_LIMIT,
        }
    }

    pub fn offset(&self) -> (offset: i64)
        ensures
            offset == self.spec_offset(),
    {
        let page: i64 = match self.page {
            Some(page) => page as i64,
            None => DEFAULT_PAGE as i64,
        };
        let limit: i64 = self.limit() as i64;
        let before: i64 = page - 1;
        assert(i64::MIN <= before * limit <= i64::MAX) by (nonlinear_arith)
            requires
                -0x8000_0001 <= before <= 0x7fff_fffe,
                -0x8000_0000 <= limit <= 0x7fff_ffff,
        ;
        before * limit
    }
}

} // verus!
