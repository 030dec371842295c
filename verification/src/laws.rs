//! What holds of whole requests, and of several requests in a row, when the
//! datastore behaves as the table of [`crate::table`].

use vstd::prelude::*;
use crate::handler::{note_list_spec, EditStageView, ListActionView, ListStageView};
use crate::model::{project_all, NoteView, Timestamp};
use crate::response::{ResponseView, Status};
use crate::schema::{stored_flag, CreateNoteView, FilterOptions, UpdateNoteView};
use crate::table::{
    duo_turn, interleave, new_note, run_create, run_delete, run_edit, run_get, run_list,
    table_wf, turns_of, undisturbed, Duo, Edit, Faults, Lane, Table,
};

verus! {

/// A note that was created can be fetched. Where the identifier drawn for a
/// new note is free, the request answers 200 with a note that has the title
/// and the content of the body, is not published, and has both timestamps;
/// and a request for the identifier that was answered, made right after,
/// answers 200 with the same note.
pub proof fn created_note_is_fetched(
    table: Table,
    faults: Faults,
    now: Timestamp,
    body: CreateNoteView,
    fresh: Seq<char>,
)
    requires
        !table.dom().contains(fresh),
    ensures
        ({
            let created = run_create(table, faults, now, body, fresh);
            let shown = new_note(fresh, body.title, body.content, now).project();
            &&& created.response == Some(ResponseView::note(shown))
            &&& shown.id == fresh
            &&& shown.title == body.title
            &&& shown.content == body.content
            &&& !shown.is_published
            &&& shown.created_at == now
            &&& shown.updated_at == now
            &&& run_get(created.table, faults, shown.id).response == Some(
                ResponseView::note(shown),
            )
        }),
{
}

/// A note that was deleted is gone. Deleting a note that the table holds
/// answers 200 with no body; deleting the same identifier again answers 404
/// with the status `"error"` and the message that names the identifier.
pub proof fn deleted_note_is_gone(table: Table, id: Seq<char>)
    requires
        table.dom().contains(id),
    ensures
        ({
            let first = run_delete(table, id);
            let second = run_delete(first.table, id);
            &&& first.response == Some(ResponseView::empty())
            &&& !first.table.dom().contains(id)
            &&& second.response == Some(ResponseView::not_found(Status::Error, id))
            &&& second.table == first.table
        }),
{
}

/// An edit changes the fields that its body names and no others. Editing a
/// note that the table holds answers 200 with the note as it is after the
/// edit: each of title, content and flag is the body's where the body names
/// it and the stored one where it does not, and the identifier and the time
/// of creation are the stored ones.
pub proof fn edit_keeps_unnamed_fields(
    table: Table,
    faults: Faults,
    now: Timestamp,
    id: Seq<char>,
    body: UpdateNoteView,
)
    requires
        table_wf(table),
        table.dom().contains(id),
    ensures
        ({
            let edited = run_edit(table, faults, now, id, body);
            let stored = table[id];
            &&& edited.table.dom().contains(id)
            &&& edited.response == Some(ResponseView::note(edited.table[id].project()))
            &&& edited.table[id].id == id
            &&& edited.table[id].title == body.title_over(stored)
            &&& edited.table[id].content == body.content_over(stored)
            &&& edited.table[id].is_published == stored_flag(body.published_over(stored))
            &&& edited.table[id].created_at == stored.created_at
            &&& edited.table[id].updated_at == Some(now)
            &&& body.title is None ==> edited.table[id].title == stored.title
            &&& body.content is None ==> edited.table[id].content == stored.content
            &&& body.is_published is None ==> edited.table[id].is_published
                == stored.is_published
        }),
{
}

/// A note that the table does not hold is not found, and the three
/// operations on one note say so with the same message. Fetching answers
/// 404 with the status `"fail"`; editing and deleting answer 404 with the
/// status `"error"`; none of them changes the table.
pub proof fn missing_note_is_not_found(
    table: Table,
    faults: Faults,
    now: Timestamp,
    id: Seq<char>,
    body: UpdateNoteView,
)
    requires
        faults.wf(),
        !table.dom().contains(id),
    ensures
        run_get(table, faults, id).response == Some(ResponseView::not_found(Status::Fail, id)),
        run_edit(table, faults, now, id, body).response == Some(
            ResponseView::not_found(Status::Error, id),
        ),
        run_delete(table, id).response == Some(ResponseView::not_found(Status::Error, id)),
        run_edit(table, faults, now, id, body).table == table,
        run_delete(table, id).table == table,
{
}

/// An identifier that is taken is a conflict. Where the identifier drawn
/// for a new note is that of a note in the table, the request answers 409
/// with the message `Note already exists` and leaves the table as it was.
pub proof fn taken_identifier_is_a_conflict(
    table: Table,
    faults: Faults,
    now: Timestamp,
    body: CreateNoteView,
    fresh: Seq<char>,
)
    requires
        faults.wf(),
        table.dom().contains(fresh),
    ensures
        run_create(table, faults, now, body, fresh).response == Some(ResponseView::conflict()),
        run_create(table, faults, now, body, fresh).table == table,
{
}

/// Two edits of one note, one after the other, of which one names only the
/// title and the other only the content: both answer 200, and whichever
/// comes first, the note then has the new title and the new content and the
/// flag that it had.
pub proof fn edits_of_separate_fields_compose(
    table: Table,
    faults: Faults,
    earlier: Timestamp,
    later: Timestamp,
    id: Seq<char>,
    title: Seq<char>,
    content: Seq<char>,
)
    requires
        table_wf(table),
        table.dom().contains(id),
    ensures
        ({
            let retitle = UpdateNoteView { title: Some(title), content: None, is_published: None };
            let rewrite = UpdateNoteView {
                title: None,
                content: Some(content),
                is_published: None,
            };
            let title_first = run_edit(table, faults, earlier, id, retitle);
            let then_content = run_edit(title_first.table, faults, later, id, rewrite);
            let content_first = run_edit(table, faults, earlier, id, rewrite);
            let then_title = run_edit(content_first.table, faults, later, id, retitle);
            &&& title_first.response matches Some(first) && first.code == 200
            &&& then_content.response matches Some(second) && second.code == 200
            &&& content_first.response matches Some(first) && first.code == 200
            &&& then_title.response matches Some(second) && second.code == 200
            &&& then_content.table[id].title == title
            &&& then_content.table[id].content == content
            &&& then_content.table[id].is_published == table[id].is_published
            &&& then_title.table[id] == then_content.table[id]
        }),
{
}

/// The two bodies name no field in common.
pub open spec fn separate(first: UpdateNoteView, second: UpdateNoteView) -> bool {
    &&& !(first.title is Some && second.title is Some)
    &&& !(first.content is Some && second.content is Some)
    &&& !(first.is_published is Some && second.is_published is Some)
}

/// `stored` with the fields that `body` names set to the body's values.
spec fn overlay(stored: NoteView, body: UpdateNoteView) -> NoteView {
    NoteView {
        title: body.title_over(stored),
        content: body.content_over(stored),
        is_published: stored_flag(body.published_over(stored)),
        ..stored
    }
}

/// The two notes have the same title, content and flag.
spec fn same_fields(one: NoteView, other: NoteView) -> bool {
    &&& one.title == other.title
    &&& one.content == other.content
    &&& one.is_published == other.is_published
}

/// The request has made its update.
spec fn has_written(lane: Lane) -> bool {
    lane.stage is Updated || lane.stage is Refetched
}

/// A request for a note that exists is at one of the stages that such a
/// request goes through, and has answered, if at all, with 200.
spec fn lane_in_order(lane: Lane) -> bool {
    &&& lane.stage matches EditStageView::Fetched(answer) ==> answer is Ok
    &&& lane.stage matches EditStageView::Updated(answer) ==> answer matches Ok(rows) && rows
        != 0
    &&& lane.stage matches EditStageView::Refetched(answer) ==> answer is Ok
    &&& lane.response matches Some(response) ==> response.code == 200 && lane.stage is Refetched
}

/// How many turns the request has taken, counting none after its response.
spec fn turns_taken(lane: Lane) -> nat {
    if lane.response is Some {
        4
    } else {
        match lane.stage {
            EditStageView::Begin => 0,
            EditStageView::Fetched(_) => 1,
            EditStageView::Updated(_) => 2,
            EditStageView::Refetched(_) => 3,
        }
    }
}

/// The smaller of `turns` and the four turns of a whole request.
spec fn at_most_four(turns: nat) -> nat {
    if turns <= 4 {
        turns
    } else {
        4
    }
}

/// Both requests are in order and the table holds the note.
spec fn duo_in_order(duo: Duo, id: Seq<char>) -> bool {
    &&& table_wf(duo.table)
    &&& duo.table.dom().contains(id)
    &&& lane_in_order(duo.first)
    &&& lane_in_order(duo.second)
}

/// What the note holds when the requests that have written are those that
/// `first_wrote` and `second_wrote` say.
spec fn written_so_far(
    stored: NoteView,
    first: UpdateNoteView,
    second: UpdateNoteView,
    first_wrote: bool,
    second_wrote: bool,
) -> NoteView {
    let after_first = if first_wrote {
        overlay(stored, first)
    } else {
        stored
    };
    if second_wrote {
        overlay(after_first, second)
    } else {
        after_first
    }
}

/// The note holds what has been written so far, and the copy that a request
/// holds is the note as it is.
spec fn duo_in_step(
    duo: Duo,
    id: Seq<char>,
    stored: NoteView,
    first: UpdateNoteView,
    second: UpdateNoteView,
) -> bool {
    &&& same_fields(
        duo.table[id],
        written_so_far(stored, first, second, has_written(duo.first), has_written(duo.second)),
    )
    &&& duo.first.stage matches EditStageView::Fetched(Ok(copy)) ==> same_fields(
        copy,
        duo.table[id],
    )
    &&& duo.second.stage matches EditStageView::Fetched(Ok(copy)) ==> same_fields(
        copy,
        duo.table[id],
    )
}

/// One turn of either request keeps both in order.
proof fn turn_keeps_order(
    duo: Duo,
    faults: Faults,
    id: Seq<char>,
    first: Edit,
    second: Edit,
    first_moves: bool,
)
    requires
        duo_in_order(duo, id),
    ensures
        duo_in_order(duo_turn(duo, faults, id, first, second, first_moves), id),
{
}

/// One turn of either request keeps the note in step, unless it is an
/// update made while the other request holds a copy.
proof fn turn_keeps_step(
    duo: Duo,
    faults: Faults,
    id: Seq<char>,
    first: Edit,
    second: Edit,
    first_moves: bool,
    stored: NoteView,
)
    requires
        duo_in_order(duo, id),
        duo_in_step(duo, id, stored, first.body, second.body),
        separate(first.body, second.body),
        stored.is_published == 0 || stored.is_published == 1,
        first_moves ==> !(duo.first.is_to_update(id, first.body) && duo.second.holds_copy()),
        !first_moves ==> !(duo.second.is_to_update(id, second.body) && duo.first.holds_copy()),
    ensures
        duo_in_step(
            duo_turn(duo, faults, id, first, second, first_moves),
            id,
            stored,
            first.body,
            second.body,
        ),
{
}

/// Any number of turns keeps both requests in order.
proof fn schedule_keeps_order(
    duo: Duo,
    faults: Faults,
    id: Seq<char>,
    first: Edit,
    second: Edit,
    schedule: Seq<bool>,
)
    requires
        duo_in_order(duo, id),
    ensures
        duo_in_order(interleave(duo, faults, id, first, second, schedule), id),
    decreases schedule.len(),
{
    if schedule.len() > 0 {
        turn_keeps_order(duo, faults, id, first, second, schedule[0]);
        schedule_keeps_order(
            duo_turn(duo, faults, id, first, second, schedule[0]),
            faults,
            id,
            first,
            second,
            schedule.drop_first(),
        );
    }
}

/// Each turn that a request is given takes it one stage on, until it has
/// answered.
proof fn schedule_moves_on(
    duo: Duo,
    faults: Faults,
    id: Seq<char>,
    first: Edit,
    second: Edit,
    schedule: Seq<bool>,
)
    requires
        duo_in_order(duo, id),
    ensures
        ({
            let end = interleave(duo, faults, id, first, second, schedule);
            &&& turns_taken(end.first) == at_most_four(
                turns_taken(duo.first) + turns_of(schedule, true),
            )
            &&& turns_taken(end.second) == at_most_four(
                turns_taken(duo.second) + turns_of(schedule, false),
            )
        }),
    decreases schedule.len(),
{
    if schedule.len() > 0 {
        turn_keeps_order(duo, faults, id, first, second, schedule[0]);
        schedule_moves_on(
            duo_turn(duo, faults, id, first, second, schedule[0]),
            faults,
            id,
            first,
            second,
            schedule.drop_first(),
        );
    }
}

/// Any number of undisturbed turns keeps the note in step.
proof fn schedule_keeps_step(
    duo: Duo,
    faults: Faults,
    id: Seq<char>,
    first: Edit,
    second: Edit,
    schedule: Seq<bool>,
    stored: NoteView,
)
    requires
        duo_in_order(duo, id),
        duo_in_step(duo, id, stored, first.body, second.body),
        separate(first.body, second.body),
        stored.is_published == 0 || stored.is_published == 1,
        undisturbed(duo, faults, id, first, second, schedule),
    ensures
        duo_in_step(
            interleave(duo, faults, id, first, second, schedule),
            id,
            stored,
            first.body,
            second.body,
        ),
    decreases schedule.len(),
{
    if schedule.len() > 0 {
        turn_keeps_order(duo, faults, id, first, second, schedule[0]);
        turn_keeps_step(duo, faults, id, first, second, schedule[0], stored);
        schedule_keeps_step(
            duo_turn(duo, faults, id, first, second, schedule[0]),
            faults,
            id,
            first,
            second,
            schedule.drop_first(),
            stored,
        );
    }
}

/// Two edits of one note that are under way at once never fail. Whatever
/// the order of their turns, the table still holds the note, each request
/// has answered once it has had four turns, and each request that has
/// answered has answered 200.
pub proof fn interleaved_edits_answer(
    table: Table,
    faults: Faults,
    id: Seq<char>,
    first: Edit,
    second: Edit,
    schedule: Seq<bool>,
)
    requires
        table_wf(table),
        table.dom().contains(id),
    ensures
        ({
            let begin = Duo { table, first: Lane::begin(), second: Lane::begin() };
            let end = interleave(begin, faults, id, first, second, schedule);
            &&& table_wf(end.table)
            &&& end.table.dom().contains(id)
            &&& end.first.response is Some <==> turns_of(schedule, true) >= 4
            &&& end.second.response is Some <==> turns_of(schedule, false) >= 4
            &&& end.first.response matches Some(response) ==> response.code == 200
            &&& end.second.response matches Some(response) ==> response.code == 200
        }),
{
    let begin = Duo { table, first: Lane::begin(), second: Lane::begin() };
    schedule_keeps_order(begin, faults, id, first, second, schedule);
    schedule_moves_on(begin, faults, id, first, second, schedule);
}

/// Two edits of one note that name no field in common both take effect,
/// whatever the order of their turns, provided that neither updates the
/// note while the other holds a copy of it that it has yet to write back:
/// once both have answered, each of title, content and flag is what the
/// body that names it gave, and the stored one where neither names it.
pub proof fn undisturbed_edits_compose(
    table: Table,
    faults: Faults,
    id: Seq<char>,
    first: Edit,
    second: Edit,
    schedule: Seq<bool>,
)
    requires
        table_wf(table),
        table.dom().contains(id),
        separate(first.body, second.body),
        undisturbed(
            Duo { table, first: Lane::begin(), second: Lane::begin() },
            faults,
            id,
            first,
            second,
            schedule,
        ),
    ensures
        ({
            let begin = Duo { table, first: Lane::begin(), second: Lane::begin() };
            let end = interleave(begin, faults, id, first, second, schedule);
            let stored = table[id];
            let note = end.table[id];
            end.first.response is Some && end.second.response is Some ==> {
                &&& first.body.title matches Some(title) ==> note.title == title
                &&& second.body.title matches Some(title) ==> note.title == title
                &&& first.body.title is None && second.body.title is None ==> note.title
                    == stored.title
                &&& first.body.content matches Some(content) ==> note.content == content
                &&& second.body.content matches Some(content) ==> note.content == content
                &&& first.body.content is None && second.body.content is None ==> note.content
                    == stored.content
                &&& first.body.is_published matches Some(published) ==> note.is_published
                    == stored_flag(published)
                &&& second.body.is_published matches Some(published) ==> note.is_published
                    == stored_flag(published)
                &&& first.body.is_published is None && second.body.is_published is None
                    ==> note.is_published == stored.is_published
            }
        }),
{
    let begin = Duo { table, first: Lane::begin(), second: Lane::begin() };
    schedule_keeps_order(begin, faults, id, first, second, schedule);
    schedule_keeps_step(begin, faults, id, first, second, schedule, table[id]);
}

/// Every request is answered, whatever the table holds and whatever the
/// request asks: a listing, a request for a note and a request to delete one
/// after one statement, a request to create a note after at most two, and a
/// request to edit one after at most three.
pub proof fn every_request_is_answered(
    table: Table,
    sorted: Seq<NoteView>,
    faults: Faults,
    now: Timestamp,
    id: Seq<char>,
    options: Option<FilterOptions>,
    create: CreateNoteView,
    edit: UpdateNoteView,
)
    ensures
        run_list(table, sorted, faults, options).response is Some,
        run_create(table, faults, now, create, id).response is Some,
        run_get(table, faults, id).response is Some,
        run_edit(table, faults, now, id, edit).response is Some,
        run_delete(table, id).response is Some,
{
}

/// Every request leaves the table well formed, and changes no note but the
/// one that it names: a request for a note changes nothing, a request to
/// create a note adds at most the note under the identifier drawn, and a
/// request to edit or to delete a note leaves every other note as it was.
pub proof fn requests_keep_the_table(
    table: Table,
    faults: Faults,
    now: Timestamp,
    id: Seq<char>,
    create: CreateNoteView,
    edit: UpdateNoteView,
)
    requires
        table_wf(table),
    ensures
        run_get(table, faults, id).table == table,
        table_wf(run_create(table, faults, now, create, id).table),
        table_wf(run_edit(table, faults, now, id, edit).table),
        table_wf(run_delete(table, id).table),
        forall|other: Seq<char>|
            other != id ==> {
                &&& run_create(table, faults, now, create, id).table.dom().contains(other)
                    == table.dom().contains(other)
                &&& run_edit(table, faults, now, id, edit).table.dom().contains(other)
                    == table.dom().contains(other)
                &&& run_delete(table, id).table.dom().contains(other) == table.dom().contains(
                    other,
                )
                &&& table.dom().contains(other) ==> {
                    &&& run_create(table, faults, now, create, id).table[other] == table[other]
                    &&& run_edit(table, faults, now, id, edit).table[other] == table[other]
                    &&& run_delete(table, id).table[other] == table[other]
                }
            },
{
}

/// A listing that names no page and no limit shows the first notes in
/// ascending order of their identifiers, at most 10 of them, whether the
/// request has no query at all or a query that names neither. It asks the
/// datastore for at most 10 notes and to pass over none.
pub proof fn default_listing_shows_the_first_ten(
    table: Table,
    sorted: Seq<NoteView>,
    faults: Faults,
)
    ensures
        ({
            let unnamed = Some(FilterOptions { page: None, limit: None });
            let shown = if sorted.len() <= 10 {
                sorted
            } else {
                sorted.subrange(0, 10)
            };
            &&& note_list_spec(None, ListStageView::Begin) == (ListActionView::Fetch {
                limit: 10,
                offset: 0,
            })
            &&& note_list_spec(unnamed, ListStageView::Begin) == note_list_spec(
                None,
                ListStageView::Begin,
            )
            &&& run_list(table, sorted, faults, None).response == Some(
                ResponseView::notes(project_all(shown)),
            )
            &&& run_list(table, sorted, faults, unnamed) == run_list(table, sorted, faults, None)
            &&& shown.len() <= 10
            &&& run_list(table, sorted, faults, None).table == table
        }),
{
    let unnamed = FilterOptions { page: None, limit: None };
    assert(unnamed.spec_offset() == 0) by (nonlinear_arith)
        requires
            unnamed.spec_offset() == (unnamed.spec_page() - 1) * unnamed.spec_limit(),
            unnamed.spec_page() == 1,
    ;
    if sorted.len() == 0 {
        assert(sorted =~= Seq::<NoteView>::empty());
    } else if sorted.len() <= 10 {
        assert(sorted.subrange(0, sorted.len() as int) =~= sorted);
    }
}

/// A page shows its own notes. Where the stored notes fill the pages up to
/// and with the page asked for, the listing shows exactly the notes from
/// place `(page - 1) * limit` up to, and without, place `page * limit`,
/// counted from 0 in ascending order of their identifiers: with the page 2
/// and the limit 5, the sixth to the tenth note.
pub proof fn a_page_shows_its_own_notes(
    table: Table,
    sorted: Seq<NoteView>,
    faults: Faults,
    page: i32,
    limit: i32,
)
    requires
        1 <= page,
        0 <= limit,
        page * limit <= sorted.len(),
    ensures
        ({
            let options = Some(FilterOptions { page: Some(page), limit: Some(limit) });
            let shown = sorted.subrange((page - 1) * limit, page * limit);
            &&& 0 <= (page - 1) * limit <= page * limit
            &&& page * limit - (page - 1) * limit == limit
            &&& run_list(table, sorted, faults, options).response == Some(
                ResponseView::notes(project_all(shown)),
            )
            &&& shown.len() == limit
        }),
{
    let offset = (page - 1) * limit;
    assert(0 <= offset && offset + limit == page * limit) by (nonlinear_arith)
        requires
            offset == (page - 1) * limit,
            1 <= page,
            0 <= limit,
    ;
    if offset >= sorted.len() {
        assert(sorted.subrange(offset, page * limit) =~= Seq::<NoteView>::empty());
    }
}

/// The pages of one limit follow one another: the first page passes over no
/// note, and each later page passes over what the page before it passed
/// over and the `limit` notes that it could hold.
pub proof fn pages_follow_one_another(page: i32, limit: i32)
    requires
        page < i32::MAX,
    ensures
        (FilterOptions { page: Some(1), limit: Some(limit) }).spec_offset() == 0,
        (FilterOptions { page: Some((page + 1) as i32), limit: Some(limit) }).spec_offset() == (
        FilterOptions { page: Some(page), limit: Some(limit) }).spec_offset() + limit,
{
    assert((1 - 1) * limit == 0) by (nonlinear_arith);
    assert((page + 1 - 1) * limit == (page - 1) * limit + limit) by (nonlinear_arith);
}

} // verus!
