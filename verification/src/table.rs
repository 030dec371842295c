//! A mathematical model of the `notes` table, and of a caller that carries
//! each action of a handler out on it.
//!
//! The handlers themselves never see a table: they see only answers. The
//! model says what those answers are when the datastore behaves as a table
//! with the identifier as its primary key, and so lets a whole request, and
//! several requests in a row, be followed from beginning to end.

use vstd::prelude::*;
use crate::datastore::DbErrorView;
use crate::handler::{
    create_note_spec, delete_note_spec, edit_note_spec, get_note_spec, is_duplicate_entry,
    note_list_spec, CreateActionView, CreateStageView, DeleteActionView, DeleteStageView,
    EditActionView, EditStageView, GetActionView, GetStageView, ListActionView, ListStageView,
};
use crate::model::{NoteView, Timestamp};
use crate::response::ResponseView;
use crate::schema::{CreateNoteView, FilterOptions, UpdateNoteView};

verus! {

/// The stored notes, each under its identifier.
pub type Table = Map<Seq<char>, NoteView>;

/// Every note stands under its own identifier, its stored flag is 0 or 1,
/// and it has both timestamps.
pub open spec fn table_wf(table: Table) -> bool {
    forall|id: Seq<char>| #[trigger]
        table.dom().contains(id) ==> {
            &&& table[id].id == id
            &&& (table[id].is_published == 0 || table[id].is_published == 1)
            &&& table[id].is_hydrated()
        }
}

/// The failures that a table answers with.
pub struct Faults {
    /// The answer to a query for a note that the table does not hold.
    pub missing: DbErrorView,
    /// The answer to an insert under an identifier that is taken.
    pub duplicate: DbErrorView,
    /// The answer to a query for a page with a negative limit or offset.
    pub refused: DbErrorView,
}

impl Faults {
    /// `missing` says that no row was found, and `duplicate` says
    /// `Duplicate entry`.
    pub open spec fn wf(self) -> bool {
        self.missing.row_not_found && is_duplicate_entry(self.duplicate.display)
    }
}

/// The answer to a query for the note `id`.
pub open spec fn fetch(table: Table, faults: Faults, id: Seq<char>) -> Result<
    NoteView,
    DbErrorView,
> {
    if table.dom().contains(id) {
        Ok(table[id])
    } else {
        Err(faults.missing)
    }
}

/// The answer to a query for a page of `sorted`, which holds the stored notes
/// in ascending order of their identifiers: the notes that follow the first
/// `offset`, as far as there are any, and at most `limit` of them.
pub open spec fn fetch_page(sorted: Seq<NoteView>, faults: Faults, limit: int, offset: int)
    -> Result<Seq<NoteView>, DbErrorView> {
    if limit < 0 || offset < 0 {
        Err(faults.refused)
    } else if offset >= sorted.len() {
        Ok(Seq::empty())
    } else if offset + limit >= sorted.len() {
        Ok(sorted.subrange(offset, sorted.len() as int))
    } else {
        Ok(sorted.subrange(offset, offset + limit))
    }
}

/// A note as the table holds it right after its insert at the time `now`:
/// not published, and created and updated at `now`.
pub open spec fn new_note(id: Seq<char>, title: Seq<char>, content: Seq<char>, now: Timestamp)
    -> NoteView {
    NoteView {
        id,
        title,
        content,
        is_published: 0,
        created_at: Some(now),
        updated_at: Some(now),
    }
}

/// The table after an insert at the time `now`, and the answer to it: a
/// failure where the identifier is taken, else one row.
pub open spec fn insert(
    table: Table,
    faults: Faults,
    now: Timestamp,
    id: Seq<char>,
    title: Seq<char>,
    content: Seq<char>,
) -> (Table, Result<u64, DbErrorView>) {
    if table.dom().contains(id) {
        (table, Err(faults.duplicate))
    } else {
        (table.insert(id, new_note(id, title, content, now)), Ok(1))
    }
}

/// The table after an update at the time `now`, and the number of rows that
/// the update matched.
pub open spec fn update(
    table: Table,
    now: Timestamp,
    id: Seq<char>,
    title: Seq<char>,
    content: Seq<char>,
    is_published: i8,
) -> (Table, Result<u64, DbErrorView>) {
    if table.dom().contains(id) {
        (
            table.insert(
                id,
                NoteView { title, content, is_published, updated_at: Some(now), ..table[id] },
            ),
            Ok(1),
        )
    } else {
        (table, Ok(0))
    }
}

/// The table after a delete, and the number of rows that it removed.
pub open spec fn delete(table: Table, id: Seq<char>) -> (Table, Result<u64, DbErrorView>) {
    if table.dom().contains(id) {
        (table.remove(id), Ok(1))
    } else {
        (table, Ok(0))
    }
}

/// A request under way: the table as it stands, the stage of the request,
/// and the response once the handler has given it.
///
/// A turn asks the handler once and carries its action out. A turn that
/// follows the response changes nothing, and a whole request is as many
/// turns as the longest course of the request takes.
pub struct Run<Stage> {
    pub table: Table,
    pub stage: Stage,
    pub response: Option<ResponseView>,
}

/// One turn of a request for the note `id`: the handler is asked, and its
/// action is carried out on the table.
pub open spec fn get_turn(run: Run<GetStageView>, faults: Faults, id: Seq<char>) -> Run<
    GetStageView,
> {
    if run.response is Some {
        run
    } else {
        match get_note_spec(id, run.stage) {
            GetActionView::Fetch { id: asked } => Run {
                stage: GetStageView::Fetched(fetch(run.table, faults, asked)),
                ..run
            },
            GetActionView::Respond(response) => Run { response: Some(response), ..run },
        }
    }
}

/// A whole request for the note `id`.
pub open spec fn run_get(table: Table, faults: Faults, id: Seq<char>) -> Run<GetStageView> {
    let begin = Run { table, stage: GetStageView::Begin, response: None };
    get_turn(get_turn(begin, faults, id), faults, id)
}

/// One turn of a request to list notes, where `sorted` holds the stored
/// notes in ascending order of their identifiers.
pub open spec fn list_turn(
    run: Run<ListStageView>,
    sorted: Seq<NoteView>,
    faults: Faults,
    options: Option<FilterOptions>,
) -> Run<ListStageView> {
    if run.response is Some {
        run
    } else {
        match note_list_spec(options, run.stage) {
            ListActionView::Fetch { limit, offset } => Run {
                stage: ListStageView::Fetched(fetch_page(sorted, faults, limit, offset)),
                ..run
            },
            ListActionView::Respond(response) => Run { response: Some(response), ..run },
        }
    }
}

/// A whole request to list notes, where `sorted` holds the stored notes in
/// ascending order of their identifiers.
pub open spec fn run_list(
    table: Table,
    sorted: Seq<NoteView>,
    faults: Faults,
    options: Option<FilterOptions>,
) -> Run<ListStageView> {
    let begin = Run { table, stage: ListStageView::Begin, response: None };
    list_turn(list_turn(begin, sorted, faults, options), sorted, faults, options)
}

/// One turn of a request to delete the note `id`.
pub open spec fn delete_turn(run: Run<DeleteStageView>, id: Seq<char>) -> Run<DeleteStageView> {
    if run.response is Some {
        run
    } else {
        match delete_note_spec(id, run.stage) {
            DeleteActionView::Delete { id: asked } => Run {
                table: delete(run.table, asked).0,
                stage: DeleteStageView::Deleted(delete(run.table, asked).1),
                ..run
            },
            DeleteActionView::Respond(response) => Run { response: Some(response), ..run },
        }
    }
}

/// A whole request to delete the note `id`.
pub open spec fn run_delete(table: Table, id: Seq<char>) -> Run<DeleteStageView> {
    let begin = Run { table, stage: DeleteStageView::Begin, response: None };
    delete_turn(delete_turn(begin, id), id)
}

/// One turn of a request to create a note at the time `now`, for which the
/// identifier `fresh` is drawn.
pub open spec fn create_turn(
    run: Run<CreateStageView>,
    faults: Faults,
    now: Timestamp,
    body: CreateNoteView,
    fresh: Seq<char>,
) -> Run<CreateStageView> {
    if run.response is Some {
        run
    } else {
        match create_note_spec(body, run.stage, fresh) {
            CreateActionView::Insert { id, title, content } => Run {
                table: insert(run.table, faults, now, id, title, content).0,
                stage: CreateStageView::Inserted {
                    id,
                    answer: insert(run.table, faults, now, id, title, content).1,
                },
                ..run
            },
            CreateActionView::Refetch { id } => Run {
                stage: CreateStageView::Refetched(fetch(run.table, faults, id)),
                ..run
            },
            CreateActionView::Respond(response) => Run { response: Some(response), ..run },
        }
    }
}

/// A whole request to create a note at the time `now`, for which the
/// identifier `fresh` is drawn.
pub open spec fn run_create(
    table: Table,
    faults: Faults,
    now: Timestamp,
    body: CreateNoteView,
    fresh: Seq<char>,
) -> Run<CreateStageView> {
    let begin = Run { table, stage: CreateStageView::Begin, response: None };
    let first = create_turn(begin, faults, now, body, fresh);
    let second = create_turn(first, faults, now, body, fresh);
    create_turn(second, faults, now, body, fresh)
}

/// One turn of a request to edit the note `id` at the time `now`.
pub open spec fn edit_turn(
    run: Run<EditStageView>,
    faults: Faults,
    now: Timestamp,
    id: Seq<char>,
    body: UpdateNoteView,
) -> Run<EditStageView> {
    if run.response is Some {
        run
    } else {
        match edit_note_spec(id, body, run.stage) {
            EditActionView::Fetch { id: asked } => Run {
                stage: EditStageView::Fetched(fetch(run.table, faults, asked)),
                ..run
            },
            EditActionView::Update { id: asked, title, content, is_published } => Run {
                table: update(run.table, now, asked, title, content, is_published).0,
                stage: EditStageView::Updated(
                    update(run.table, now, asked, title, content, is_published).1,
                ),
                ..run
            },
            EditActionView::Refetch { id: asked } => Run {
                stage: EditStageView::Refetched(fetch(run.table, faults, asked)),
                ..run
            },
            EditActionView::Respond(response) => Run { response: Some(response), ..run },
        }
    }
}

/// A whole request to edit the note `id` at the time `now`.
pub open spec fn run_edit(
    table: Table,
    faults: Faults,
    now: Timestamp,
    id: Seq<char>,
    body: UpdateNoteView,
) -> Run<EditStageView> {
    let begin = Run { table, stage: EditStageView::Begin, response: None };
    let first = edit_turn(begin, faults, now, id, body);
    let second = edit_turn(first, faults, now, id, body);
    let third = edit_turn(second, faults, now, id, body);
    edit_turn(third, faults, now, id, body)
}

/// One of two requests to edit a note that are under way at once: its
/// stage, and its response once the handler has given it.
pub struct Lane {
    pub stage: EditStageView,
    pub response: Option<ResponseView>,
}

impl Lane {
    /// A request of which nothing has been done yet.
    pub open spec fn begin() -> Lane {
        Lane { stage: EditStageView::Begin, response: None }
    }

    /// The request has fetched the note and has yet to write it back.
    pub open spec fn holds_copy(self) -> bool {
        self.response is None && self.stage matches EditStageView::Fetched(Ok(_))
    }

    /// The next turn of the request is its update.
    pub open spec fn is_to_update(self, id: Seq<char>, body: UpdateNoteView) -> bool {
        self.response is None && edit_note_spec(id, body, self.stage) is Update
    }
}

/// One edit of a note: when it is made and what it changes.
pub struct Edit {
    pub now: Timestamp,
    pub body: UpdateNoteView,
}

/// Two requests to edit the note `id` that share one table.
pub struct Duo {
    pub table: Table,
    pub first: Lane,
    pub second: Lane,
}

/// One turn of one of two requests: of the first where `first_moves`, else
/// of the second.
pub open spec fn duo_turn(
    duo: Duo,
    faults: Faults,
    id: Seq<char>,
    first: Edit,
    second: Edit,
    first_moves: bool,
) -> Duo {
    if first_moves {
        let run = edit_turn(
            Run { table: duo.table, stage: duo.first.stage, response: duo.first.response },
            faults,
            first.now,
            id,
            first.body,
        );
        Duo {
            table: run.table,
            first: Lane { stage: run.stage, response: run.response },
            second: duo.second,
        }
    } else {
        let run = edit_turn(
            Run { table: duo.table, stage: duo.second.stage, response: duo.second.response },
            faults,
            second.now,
            id,
            second.body,
        );
        Duo {
            table: run.table,
            first: duo.first,
            second: Lane { stage: run.stage, response: run.response },
        }
    }
}

/// The turns of two requests in the order that `schedule` gives: each entry
/// is one turn, of the first request where it is `true`.
pub open spec fn interleave(
    duo: Duo,
    faults: Faults,
    id: Seq<char>,
    first: Edit,
    second: Edit,
    schedule: Seq<bool>,
) -> Duo
    decreases schedule.len(),
{
    if schedule.len() == 0 {
        duo
    } else {
        interleave(
            duo_turn(duo, faults, id, first, second, schedule[0]),
            faults,
            id,
            first,
            second,
            schedule.drop_first(),
        )
    }
}

/// The number of turns that `schedule` gives to the first request where
/// `first` is `true`, else to the second.
pub open spec fn turns_of(schedule: Seq<bool>, first: bool) -> nat
    decreases schedule.len(),
{
    if schedule.len() == 0 {
        0
    } else if schedule[0] == first {
        1 + turns_of(schedule.drop_first(), first)
    } else {
        turns_of(schedule.drop_first(), first)
    }
}

/// In the whole of `schedule`, neither request updates the note while the
/// other holds a copy of it that it has yet to write back.
pub open spec fn undisturbed(
    duo: Duo,
    faults: Faults,
    id: Seq<char>,
    first: Edit,
    second: Edit,
    schedule: Seq<bool>,
) -> bool
    decreases schedule.len(),
{
    if schedule.len() == 0 {
        true
    } else {
        &&& schedule[0] ==> !(duo.first.is_to_update(id, first.body) && duo.second.holds_copy())
        &&& !schedule[0] ==> !(duo.second.is_to_update(id, second.body)
            && duo.first.holds_copy())
        &&& undisturbed(
            duo_turn(duo, faults, id, first, second, schedule[0]),
            faults,
            id,
            first,
            second,
            schedule.drop_first(),
        )
    }
}

} // verus!
