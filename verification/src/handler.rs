//! The handlers: one per operation of the API.
//!
//! A handler never touches the datastore. It is called once to learn what to
//! ask the datastore, and again with each answer, until it gives the
//! response. The stage says how far the request has come and carries the
//! datastore's last answer; the action says what to do next.

use vstd::prelude::*;
use crate::datastore::{affected_view, row_view, rows_view, DbError, DbErrorView};
use crate::ident::{fresh_id, is_uuid_v4_text, uuid_v4_text_exists};
use crate::model::{
    notes_view, project_all, responses_view, to_note_response, NoteModel, NoteModelResponse,
    NoteView,
};
use crate::response::{Response, ResponseView, Status, HTTP_OK};
use crate::schema::{
    stored_flag, CreateNoteSchema, CreateNoteView, FilterOptions, UpdateNoteSchema,
    UpdateNoteView,
};
use crate::text::{contains, debug_quoted, debug_text, occurs_in};

verus! {

/// The health check: 200 with the status `"ok"` and the message `"API"`,
/// whatever the state of the service.
pub fn health_check_handler() -> (response: Response)
    ensures
        response@ == ResponseView::health(),
{
    Response::message(HTTP_OK, Status::Okay, String::from_str("API"))
}

/// How far a request to list notes has come.
#[derive(Debug, PartialEq, Eq)]
pub enum ListStage {
    /// Nothing has been asked yet.
    Begin,
    /// The datastore has answered the query for a page of notes.
    Fetched(Result<Vec<NoteModel>, DbError>),
}

/// The mathematical value of a [`ListStage`].
pub enum ListStageView {
    Begin,
    Fetched(Result<Seq<NoteView>, DbErrorView>),
}

impl View for ListStage {
    type V = ListStageView;

    open spec fn view(&self) -> ListStageView {
        match self {
            ListStage::Begin => ListStageView::Begin,
            ListStage::Fetched(answer) => ListStageView::Fetched(rows_view(*answer)),
        }
    }
}

/// What to do next for a request to list notes.
#[derive(Clone, Debug, PartialEq, Eq)]
pub enum ListAction {
    /// Query the notes in ascending order of their identifiers: pass over
    /// the first `offset` of them and take at most `limit`.
    Fetch { limit: i32, offset: i64 },
    /// Answer the request.
    Respond(Response),
}

/// The mathematical value of a [`ListAction`].
pub enum ListActionView {
    Fetch { limit: int, offset: int },
    Respond(ResponseView),
}

impl View for ListAction {
    type V = ListActionView;

    open spec fn view(&self) -> ListActionView {
        match self {
            ListAction::Fetch { limit, offset } => ListActionView::Fetch {
                limit: *limit as int,
                offset: *offset as int,
            },
            ListAction::Respond(response) => ListActionView::Respond(response@),
        }
    }
}

/// The pagination of a request: what the query holds, or a query that names
/// nothing where the request has none.
pub open spec fn options_or_none(options: Option<FilterOptions>) -> FilterOptions {
    match options {
        Some(options) => options,
        None => FilterOptions { page: None, limit: None },
    }
}

/// The message that says that the datastore could not list the notes.
pub open spec fn list_failure_message(detail: Seq<char>) -> Seq<char> {
    "Database error: "@ + detail
}

/// What a request to list notes does at each stage: it queries the page
/// that the pagination names; it answers 200 with the notes that the
/// datastore gave, in the order in which it gave them, and their number, or
/// 500 where the query failed.
pub open spec fn note_list_spec(options: Option<FilterOptions>, stage: ListStageView)
    -> ListActionView {
    match stage {
        ListStageView::Begin => ListActionView::Fetch {
            limit: options_or_none(options).spec_limit(),
            offset: options_or_none(options).spec_offset(),
        },
        ListStageView::Fetched(Ok(notes)) => ListActionView::Respond(
            ResponseView::notes(project_all(notes)),
        ),
        ListStageView::Fetched(Err(error)) => ListActionView::Respond(
            ResponseView::internal_error(list_failure_message(error.display)),
        ),
    }
}

/// Projects each of the given rows, in their order.
fn to_note_responses(notes: &Vec<NoteModel>) -> (shown: Vec<NoteModelResponse>)
    requires
        forall|i: int| 0 <= i < notes.len() ==> (#[trigger] notes[i])@.is_hydrated(),
    ensures
        responses_view(shown@) == project_all(notes_view(notes@)),
{
    let mut shown: Vec<NoteModelResponse> = Vec::new();
    let mut i: usize = 0;
    while i < notes.len()
        invariant
            i <= notes.len(),
            shown.len() == i,
            forall|j: int| 0 <= j < notes.len() ==> (#[trigger] notes[j])@.is_hydrated(),
            forall|j: int| 0 <= j < i ==> (#[trigger] shown[j])@ == notes[j]@.project(),
        decreases notes.len() - i,
    {
        shown.push(to_note_response(&notes[i]));
        i += 1;
    }
    shown
}

/// Handles a request to list notes.
pub fn note_list_handler(options: Option<FilterOptions>, stage: ListStage) -> (action: ListAction)
    requires
        stage@ matches ListStageView::Fetched(Ok(notes)) ==> forall|i: int|
            0 <= i < notes.len() ==> (#[trigger] notes[i]).is_hydrated(),
    ensures
        action@ == note_list_spec(options, stage@),
{
    match stage {
        ListStage::Begin => {
            let options = match options {
                Some(options) => options,
                None => FilterOptions::default(),
            };
            ListAction::Fetch { limit: options.limit(), offset: options.offset() }
        },
        ListStage::Fetched(Ok(notes)) => {
            assert forall|i: int| 0 <= i < notes.len() implies (#[trigger] notes[i])@.is_hydrated() by {
                assert(notes_view(notes@)[i].is_hydrated());
            }
            ListAction::Respond(Response::notes(to_note_responses(&notes)))
        },
        ListStage::Fetched(Err(error)) => {
            let mut message = String::from_str("Database error: ");
            message.append(error.display.as_str());
            ListAction::Respond(Response::internal_error(message))
        },
    }
}

/// How far a request to create a note has come.
#[derive(Debug, PartialEq, Eq)]
pub enum CreateStage {
    /// Nothing has been asked yet.
    Begin,
    /// The datastore has answered the insert of the note `id`.
    Inserted { id: String, answer: Result<u64, DbError> },
    /// The datastore has answered the query for the new note.
    Refetched(Result<NoteModel, DbError>),
}

/// The mathematical value of a [`CreateStage`].
pub enum CreateStageView {
    Begin,
    Inserted { id: Seq<char>, answer: Result<u64, DbErrorView> },
    Refetched(Result<NoteView, DbErrorView>),
}

impl View for CreateStage {
    type V = CreateStageView;

    open spec fn view(&self) -> CreateStageView {
        match self {
            CreateStage::Begin => CreateStageView::Begin,
            CreateStage::Inserted { id, answer } => CreateStageView::Inserted {
                id: id@,
                answer: affected_view(*answer),
            },
            CreateStage::Refetched(answer) => CreateStageView::Refetched(row_view(*answer)),
        }
    }
}

/// What to do next for a request to create a note.
#[derive(Clone, Debug, PartialEq, Eq)]
pub enum CreateAction {
    /// Insert a note with this identifier, title and content, and with the
    /// datastore's defaults for the flag and the timestamps.
    Insert { id: String, title: String, content: String },
    /// Query the note with this identifier.
    Refetch { id: String },
    /// Answer the request.
    Respond(Response),
}

/// The mathematical value of a [`CreateAction`].
pub enum CreateActionView {
    Insert { id: Seq<char>, title: Seq<char>, content: Seq<char> },
    Refetch { id: Seq<char> },
    Respond(ResponseView),
}

impl View for CreateAction {
    type V = CreateActionView;

    open spec fn view(&self) -> CreateActionView {
        match self {
            CreateAction::Insert { id, title, content } => CreateActionView::Insert {
                id: id@,
                title: title@,
                content: content@,
            },
            CreateAction::Refetch { id } => CreateActionView::Refetch { id: id@ },
            CreateAction::Respond(response) => CreateActionView::Respond(response@),
        }
    }
}

/// The datastore refused an insert because the identifier is taken: its
/// words hold `Duplicate entry`.
pub open spec fn is_duplicate_entry(detail: Seq<char>) -> bool {
    occurs_in("Duplicate entry"@, detail)
}

/// The answer to a failed insert of which the datastore said `detail`, where
/// `quoted` is `detail` as a developer reads it: 409 where the identifier is
/// taken, else 500 with `quoted`.
pub open spec fn insert_failure_spec(detail: Seq<char>, quoted: Seq<char>) -> ResponseView {
    if is_duplicate_entry(detail) {
        ResponseView::conflict()
    } else {
        ResponseView::internal_error(quoted)
    }
}

/// What a request to create a note does at each stage, where `fresh` is the
/// identifier drawn for the note: it inserts the note under `fresh`; where
/// the insert failed it answers as `insert_failure_spec` says, else it
/// queries the new note; it answers 200 with the note as the datastore
/// holds it, or 500 where that query failed.
pub open spec fn create_note_spec(body: CreateNoteView, stage: CreateStageView, fresh: Seq<char>)
    -> CreateActionView {
    match stage {
        CreateStageView::Begin => CreateActionView::Insert {
            id: fresh,
            title: body.title,
            content: body.content,
        },
        CreateStageView::Inserted { id, answer: Ok(_) } => CreateActionView::Refetch { id },
        CreateStageView::Inserted { id, answer: Err(error) } => CreateActionView::Respond(
            insert_failure_spec(error.display, debug_quoted(error.display)),
        ),
        CreateStageView::Refetched(Ok(note)) => CreateActionView::Respond(
            ResponseView::note(note.project()),
        ),
        CreateStageView::Refetched(Err(error)) => CreateActionView::Respond(
            ResponseView::internal_error(error.debug),
        ),
    }
}

/// The insert of a new note under the identifier `id`.
pub fn create_note_with_id(id: String, body: &CreateNoteSchema) -> (action: CreateAction)
    ensures
        action@ == create_note_spec(body@, CreateStageView::Begin, id@),
{
    CreateAction::Insert { id, title: body.title.clone(), content: body.content.clone() }
}

/// The answer to a failed insert of which the datastore said `detail`, where
/// `quoted` is `detail` as a developer reads it.
pub fn insert_failure(detail: &str, quoted: String) -> (response: Response)
    ensures
        response@ == insert_failure_spec(detail@, quoted@),
{
    if contains(detail, "Duplicate entry") {
        Response::conflict()
    } else {
        Response::internal_error(quoted)
    }
}

/// Handles a request to create a note.
///
/// At the first stage it draws a fresh identifier, of which only the shape
/// is known: the action is what `create_note_spec` gives for some identifier
/// of that shape. At every later stage the identifier plays no part.
pub fn create_note_handler(body: &CreateNoteSchema, stage: CreateStage) -> (action: CreateAction)
    requires
        stage@ matches CreateStageView::Refetched(Ok(note)) ==> note.is_hydrated(),
    ensures
        exists|fresh: Seq<char>|
            is_uuid_v4_text(fresh) && action@ == #[trigger] create_note_spec(
                body@,
                stage@,
                fresh,
            ),
{
    let ghost drawn = uuid_v4_text_exists();
    let action = match stage {
        CreateStage::Begin => {
            let id = fresh_id();
            proof {
                drawn = id@;
            }
            create_note_with_id(id, body)
        },
        CreateStage::Inserted { id, answer: Ok(_) } => CreateAction::Refetch { id },
        CreateStage::Inserted { id, answer: Err(error) } => {
            let quoted = debug_text(error.display.as_str());
            CreateAction::Respond(insert_failure(error.display.as_str(), quoted))
        },
        CreateStage::Refetched(Ok(note)) => CreateAction::Respond(
            Response::note(to_note_response(&note)),
        ),
        CreateStage::Refetched(Err(error)) => CreateAction::Respond(
            Response::internal_error(error.debug),
        ),
    };
    assert(action@ == create_note_spec(body@, stage@, drawn));
    action
}

/// How far a request for one note has come.
#[derive(Debug, PartialEq, Eq)]
pub enum GetStage {
    /// Nothing has been asked yet.
    Begin,
    /// The datastore has answered the query for the note.
    Fetched(Result<NoteModel, DbError>),
}

/// The mathematical value of a [`GetStage`].
pub enum GetStageView {
    Begin,
    Fetched(Result<NoteView, DbErrorView>),
}

impl View for GetStage {
    type V = GetStageView;

    open spec fn view(&self) -> GetStageView {
        match self {
            GetStage::Begin => GetStageView::Begin,
            GetStage::Fetched(answer) => GetStageView::Fetched(row_view(*answer)),
        }
    }
}

/// What to do next for a request for one note.
#[derive(Clone, Debug, PartialEq, Eq)]
pub enum GetAction {
    /// Query the note with this identifier.
    Fetch { id: String },
    /// Answer the request.
    Respond(Response),
}

/// The mathematical value of a [`GetAction`].
pub enum GetActionView {
    Fetch { id: Seq<char> },
    Respond(ResponseView),
}

impl View for GetAction {
    type V = GetActionView;

    open spec fn view(&self) -> GetActionView {
        match self {
            GetAction::Fetch { id } => GetActionView::Fetch { id: id@ },
            GetAction::Respond(response) => GetActionView::Respond(response@),
        }
    }
}

/// What a request for the note `id` does at each stage: it queries the note;
/// it answers 200 with the note, 404 with the status `"fail"` where the
/// datastore has no such row, and 500 with the datastore's own words for any
/// other failure.
pub open spec fn get_note_spec(id: Seq<char>, stage: GetStageView) -> GetActionView {
    match stage {
        GetStageView::Begin => GetActionView::Fetch { id },
        GetStageView::Fetched(Ok(note)) => GetActionView::Respond(
            ResponseView::note(note.project()),
        ),
        GetStageView::Fetched(Err(error)) => if error.row_not_found {
            GetActionView::Respond(ResponseView::not_found(Status::Fail, id))
        } else {
            GetActionView::Respond(ResponseView::internal_error(error.debug))
        },
    }
}

/// Handles a request for the note `id`.
pub fn get_note_handler(id: &str, stage: GetStage) -> (action: GetAction)
    requires
        stage@ matches GetStageView::Fetched(Ok(note)) ==> note.is_hydrated(),
    ensures
        action@ == get_note_spec(id@, stage@),
{
    match stage {
        GetStage::Begin => GetAction::Fetch { id: String::from_str(id) },
        GetStage::Fetched(Ok(note)) => GetAction::Respond(Response::note(to_note_response(&note))),
        GetStage::Fetched(Err(error)) => {
            if error.row_not_found {
                GetAction::Respond(Response::not_found(Status::Fail, id))
            } else {
                GetAction::Respond(Response::internal_error(error.debug))
            }
        },
    }
}

/// How far a request to edit a note has come.
#[derive(Debug, PartialEq, Eq)]
pub enum EditStage {
    /// Nothing has been asked yet.
    Begin,
    /// The datastore has answered the query for the note as it stands.
    Fetched(Result<NoteModel, DbError>),
    /// The datastore has answered the update statement with the number of
    /// rows that it matched.
    Updated(Result<u64, DbError>),
    /// The datastore has answered the query for the note as it is now.
    Refetched(Result<NoteModel, DbError>),
}

/// The mathematical value of an [`EditStage`].
pub enum EditStageView {
    Begin,
    Fetched(Result<NoteView, DbErrorView>),
    Updated(Result<u64, DbErrorView>),
    Refetched(Result<NoteView, DbErrorView>),
}

impl View for EditStage {
    type V = EditStageView;

    open spec fn view(&self) -> EditStageView {
        match self {
            EditStage::Begin => EditStageView::Begin,
            EditStage::Fetched(answer) => EditStageView::Fetched(row_view(*answer)),
            EditStage::Updated(answer) => EditStageView::Updated(affected_view(*answer)),
            EditStage::Refetched(answer) => EditStageView::Refetched(row_view(*answer)),
        }
    }
}

/// What to do next for a request to edit a note.
#[derive(Clone, Debug, PartialEq, Eq)]
pub enum EditAction {
    /// Query the note with this identifier, to learn how it stands.
    Fetch { id: String },
    /// Set the title, the content and the stored flag of the note with this
    /// identifier.
    Update { id: String, title: String, content: String, is_published: i8 },
    /// Query the note with this identifier, to show how it is now.
    Refetch { id: String },
    /// Answer the request.
    Respond(Response),
}

/// The mathematical value of an [`EditAction`].
pub enum EditActionView {
    Fetch { id: Seq<char> },
    Update { id: Seq<char>, title: Seq<char>, content: Seq<char>, is_published: i8 },
    Refetch { id: Seq<char> },
    Respond(ResponseView),
}

impl View for EditAction {
    type V = EditActionView;

    open spec fn view(&self) -> EditActionView {
        match self {
            EditAction::Fetch { id } => EditActionView::Fetch { id: id@ },
            EditAction::Update { id, title, content, is_published } => EditActionView::Update {
                id: id@,
                title: title@,
                content: content@,
                is_published: *is_published,
            },
            EditAction::Refetch { id } => EditActionView::Refetch { id: id@ },
            EditAction::Respond(response) => EditActionView::Respond(response@),
        }
    }
}

/// What a request to edit the note `id` does at each stage.
///
/// It queries the note; where the datastore has no such row it answers 404
/// with the status `"error"`. It then updates the note: each field that the
/// body names takes the body's value, each other field keeps the stored one,
/// and the flag is stored as 1 or 0. Where the update matched no row it
/// answers 404 as before. It then queries the note again and answers 200
/// with the note as the datastore holds it. Any other failure of the
/// datastore is answered with 500 and the datastore's own words.
pub open spec fn edit_note_spec(id: Seq<char>, body: UpdateNoteView, stage: EditStageView)
    -> EditActionView {
    match stage {
        EditStageView::Begin => EditActionView::Fetch { id },
        EditStageView::Fetched(Ok(note)) => EditActionView::Update {
            id,
            title: body.title_over(note),
            content: body.content_over(note),
            is_published: stored_flag(body.published_over(note)),
        },
        EditStageView::Fetched(Err(error)) => if error.row_not_found {
            EditActionView::Respond(ResponseView::not_found(Status::Error, id))
        } else {
            EditActionView::Respond(ResponseView::internal_error(error.debug))
        },
        EditStageView::Updated(Ok(rows)) => if rows == 0 {
            EditActionView::Respond(ResponseView::not_found(Status::Error, id))
        } else {
            EditActionView::Refetch { id }
        },
        EditStageView::Updated(Err(error)) => EditActionView::Respond(
            ResponseView::internal_error(error.debug),
        ),
        EditStageView::Refetched(Ok(note)) => EditActionView::Respond(
            ResponseView::note(note.project()),
        ),
        EditStageView::Refetched(Err(error)) => EditActionView::Respond(
            ResponseView::internal_error(error.debug),
        ),
    }
}

/// Handles a request to edit the note `id`.
pub fn edit_note_handler(id: &str, body: &UpdateNoteSchema, stage: EditStage) -> (action:
    EditAction)
    requires
        stage@ matches EditStageView::Refetched(Ok(note)) ==> note.is_hydrated(),
    ensures
        action@ == edit_note_spec(id@, body@, stage@),
{
    match stage {
        EditStage::Begin => EditAction::Fetch { id: String::from_str(id) },
        EditStage::Fetched(Ok(note)) => {
            let published = match body.is_published {
                Some(published) => published,
                None => note.is_published != 0,
            };
            let title = match &body.title {
                Some(title) => title.clone(),
                None => note.title,
            };
            let content = match &body.content {
                Some(content) => content.clone(),
                None => note.content,
            };
            EditAction::Update {
                id: String::from_str(id),
                title,
                content,
                is_published: if published {
                    1
                } else {
                    0
                },
            }
        },
        EditStage::Fetched(Err(error)) => {
            if error.row_not_found {
                EditAction::Respond(Response::not_found(Status::Error, id))
            } else {
                EditAction::Respond(Response::internal_error(error.debug))
            }
        },
        EditStage::Updated(Ok(rows)) => {
            if rows == 0 {
                EditAction::Respond(Response::not_found(Status::Error, id))
            } else {
                EditAction::Refetch { id: String::from_str(id) }
            }
        },
        EditStage::Updated(Err(error)) => EditAction::Respond(
            Response::internal_error(error.debug),
        ),
        EditStage::Refetched(Ok(note)) => EditAction::Respond(
            Response::note(to_note_response(&note)),
        ),
        EditStage::Refetched(Err(error)) => EditAction::Respond(
            Response::internal_error(error.debug),
        ),
    }
}

/// How far a request to delete a note has come.
#[derive(Debug, PartialEq, Eq)]
pub enum DeleteStage {
    /// Nothing has been asked yet.
    Begin,
    /// The datastore has answered the delete statement with the number of
    /// rows that it removed.
    Deleted(Result<u64, DbError>),
}

/// The mathematical value of a [`DeleteStage`].
pub enum DeleteStageView {
    Begin,
    Deleted(Result<u64, DbErrorView>),
}

impl View for DeleteStage {
    type V = DeleteStageView;

    open spec fn view(&self) -> DeleteStageView {
        match self {
            DeleteStage::Begin => DeleteStageView::Begin,
            DeleteStage::Deleted(answer) => DeleteStageView::Deleted(affected_view(*answer)),
        }
    }
}

/// What to do next for a request to delete a note.
#[derive(Clone, Debug, PartialEq, Eq)]
pub enum DeleteAction {
    /// Delete the note with this identifier.
    Delete { id: String },
    /// Answer the request.
    Respond(Response),
}

/// The mathematical value of a [`DeleteAction`].
pub enum DeleteActionView {
    Delete { id: Seq<char> },
    Respond(ResponseView),
}

impl View for DeleteAction {
    type V = DeleteActionView;

    open spec fn view(&self) -> DeleteActionView {
        match self {
            DeleteAction::Delete { id } => DeleteActionView::Delete { id: id@ },
            DeleteAction::Respond(response) => DeleteActionView::Respond(response@),
        }
    }
}

/// What a request to delete the note `id` does at each stage: it deletes
/// the note; it answers 200 with no body where a row was removed, 404 with
/// the status `"error"` where none was, and 500 with the datastore's own
/// words where the statement failed.
pub open spec fn delete_note_spec(id: Seq<char>, stage: DeleteStageView) -> DeleteActionView {
    match stage {
        DeleteStageView::Begin => DeleteActionView::Delete { id },
        DeleteStageView::Deleted(Ok(rows)) => if rows == 0 {
            DeleteActionView::Respond(ResponseView::not_found(Status::Error, id))
        } else {
            DeleteActionView::Respond(ResponseView::empty())
        },
        DeleteStageView::Deleted(Err(error)) => DeleteActionView::Respond(
            ResponseView::internal_error(error.debug),
        ),
    }
}

/// Handles a request to delete the note `id`.
pub fn delete_note_handler(id: &str, stage: DeleteStage) -> (action: DeleteAction)
    ensures
        action@ == delete_note_spec(id@, stage@),
{
    match stage {
        DeleteStage::Begin => DeleteAction::Delete { id: String::from_str(id) },
        DeleteStage::Deleted(Ok(rows)) => {
            if rows == 0 {
                DeleteAction::Respond(Response::not_found(Status::Error, id))
            } else {
                DeleteAction::Respond(Response::empty())
            }
        },
        DeleteStage::Deleted(Err(error)) => DeleteAction::Respond(
            Response::internal_error(error.debug),
        ),
    }
}

} // verus!
