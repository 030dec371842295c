use std::collections::BTreeMap;

use notes_api::datastore::DbError;
use notes_api::handler::{
    create_note_handler, create_note_with_id, delete_note_handler, edit_note_handler,
    get_note_handler, note_list_handler, CreateAction, CreateStage, DeleteAction, DeleteStage,
    EditAction, EditStage, GetAction, GetStage, ListAction, ListStage,
};
use notes_api::model::{NoteModel, NoteModelResponse, Timestamp};
use notes_api::response::{Body, Response, Status};
use notes_api::schema::{CreateNoteSchema, FilterOptions, UpdateNoteSchema};

/// A table in memory that answers as the `notes` table does.
struct Table {
    rows: BTreeMap<String, NoteModel>,
    clock: i64,
}

impl Table {
    fn new() -> Table {
        Table { rows: BTreeMap::new(), clock: 1_700_000_000 }
    }

    fn now(&mut self) -> Timestamp {
        self.clock += 1;
        Timestamp { seconds: self.clock, nanoseconds: 0 }
    }

    fn fetch_one(&self, id: &str) -> Result<NoteModel, DbError> {
        self.rows.get(id).cloned().ok_or_else(|| DbError {
            row_not_found: true,
            display: "no rows returned by a query that expected to return at least one row"
                .to_string(),
            debug: "RowNotFound".to_string(),
        })
    }

    fn fetch_page(&self, limit: i32, offset: i64) -> Result<Vec<NoteModel>, DbError> {
        if limit < 0 || offset < 0 {
            return Err(DbError {
                row_not_found: false,
                display: "error returned from database: 1064 (42000): You have an error in \
                          your SQL syntax"
                    .to_string(),
                debug: "Database(MySqlDatabaseError { number: 1064 })".to_string(),
            });
        }
        Ok(self.rows.values().skip(offset as usize).take(limit as usize).cloned().collect())
    }

    fn insert(&mut self, id: &str, title: &str, content: &str) -> Result<u64, DbError> {
        if self.rows.contains_key(id) {
            return Err(DbError {
                row_not_found: false,
                display: format!(
                    "error returned from database: 1062 (23000): Duplicate entry '{}' for key \
                     'notes.PRIMARY'",
                    id
                ),
                debug: "Database(MySqlDatabaseError { number: 1062 })".to_string(),
            });
        }
        let now = self.now();
        let note = NoteModel {
            id: id.to_string(),
            title: title.to_string(),
            content: content.to_string(),
            is_published: 0,
            created_at: Some(now),
            updated_at: Some(now),
        };
        self.rows.insert(id.to_string(), note);
        Ok(1)
    }

    fn update(&mut self, id: &str, title: &str, content: &str, flag: i8) -> Result<u64, DbError> {
        let now = self.now();
        match self.rows.get_mut(id) {
            Some(note) => {
                note.title = title.to_string();
                note.content = content.to_string();
                note.is_published = flag;
                note.updated_at = Some(now);
                Ok(1)
            }
            None => Ok(0),
        }
    }

    fn delete(&mut self, id: &str) -> Result<u64, DbError> {
        match self.rows.remove(id) {
            Some(_) => Ok(1),
            None => Ok(0),
        }
    }
}

fn list(table: &Table, options: Option<FilterOptions>) -> Response {
    let mut stage = ListStage::Begin;
    loop {
        stage = match note_list_handler(options, stage) {
            ListAction::Fetch { limit, offset } => {
                ListStage::Fetched(table.fetch_page(limit, offset))
            }
            ListAction::Respond(response) => return response,
        };
    }
}

fn carry_out_create(table: &mut Table, body: &CreateNoteSchema, first: CreateAction) -> Response {
    let mut action = first;
    loop {
        let stage = match action {
            CreateAction::Insert { id, title, content } => {
                let answer = table.insert(&id, &title, &content);
                CreateStage::Inserted { id, answer }
            }
            CreateAction::Refetch { id } => CreateStage::Refetched(table.fetch_one(&id)),
            CreateAction::Respond(response) => return response,
        };
        action = create_note_handler(body, stage);
    }
}

fn create(table: &mut Table, title: &str, content: &str) -> Response {
    let body = CreateNoteSchema { title: title.to_string(), content: content.to_string() };
    let first = create_note_handler(&body, CreateStage::Begin);
    carry_out_create(table, &body, first)
}

fn create_under(table: &mut Table, id: &str, title: &str, content: &str) -> Response {
    let body = CreateNoteSchema { title: title.to_string(), content: content.to_string() };
    let first = create_note_with_id(id.to_string(), &body);
    carry_out_create(table, &body, first)
}

fn get(table: &Table, id: &str) -> Response {
    let mut stage = GetStage::Begin;
    loop {
        stage = match get_note_handler(id, stage) {
            GetAction::Fetch { id } => GetStage::Fetched(table.fetch_one(&id)),
            GetAction::Respond(response) => return response,
        };
    }
}

fn edit_turn(table: &mut Table, id: &str, body: &UpdateNoteSchema, stage: EditStage) -> Result<
    EditStage,
    Response,
> {
    match edit_note_handler(id, body, stage) {
        EditAction::Fetch { id } => Ok(EditStage::Fetched(table.fetch_one(&id))),
        EditAction::Update { id, title, content, is_published } => {
            Ok(EditStage::Updated(table.update(&id, &title, &content, is_published)))
        }
        EditAction::Refetch { id } => Ok(EditStage::Refetched(table.fetch_one(&id))),
        EditAction::Respond(response) => Err(response),
    }
}

fn edit(table: &mut Table, id: &str, body: &UpdateNoteSchema) -> Response {
    let mut stage = EditStage::Begin;
    loop {
        stage = match edit_turn(table, id, body, stage) {
            Ok(stage) => stage,
            Err(response) => return response,
        };
    }
}

fn delete(table: &mut Table, id: &str) -> Response {
    let mut stage = DeleteStage::Begin;
    loop {
        stage = match delete_note_handler(id, stage) {
            DeleteAction::Delete { id } => DeleteStage::Deleted(table.delete(&id)),
            DeleteAction::Respond(response) => return response,
        };
    }
}

fn note_of(response: Response) -> NoteModelResponse {
    assert_eq!(response.code, 200);
    match response.body {
        Body::Note { note } => note,
        other => panic!("{:?}", other),
    }
}

fn notes_of(response: Response) -> (usize, Vec<NoteModelResponse>) {
    assert_eq!(response.code, 200);
    match response.body {
        Body::Notes { count, notes } => (count, notes),
        other => panic!("{:?}", other),
    }
}

fn not_found(status: Status, id: &str) -> Response {
    Response {
        code: 404,
        body: Body::Message {
            status,
            message: format!("La nota con el ID: {} no encontrado", id),
        },
    }
}

fn only(title: Option<&str>, content: Option<&str>) -> UpdateNoteSchema {
    UpdateNoteSchema {
        title: title.map(str::to_string),
        content: content.map(str::to_string),
        is_published: None,
    }
}

fn filled(count: usize) -> Table {
    let mut table = Table::new();
    for n in (0..count).rev() {
        let id = format!("note-{:02}", n);
        assert_eq!(table.insert(&id, &format!("title {}", n), "text"), Ok(1));
    }
    table
}

#[test]
fn a_created_note_can_be_fetched() {
    let mut table = Table::new();
    let created = note_of(create(&mut table, "T", "C"));
    assert_eq!(created.title, "T");
    assert_eq!(created.content, "C");
    assert!(!created.is_published);
    assert_eq!(created.created_at, Timestamp { seconds: 1_700_000_001, nanoseconds: 0 });
    assert_eq!(created.updated_at, Timestamp { seconds: 1_700_000_001, nanoseconds: 0 });
    assert_eq!(uuid::Uuid::parse_str(&created.id).unwrap().get_version_num(), 4);
    let fetched = note_of(get(&table, &created.id));
    assert_eq!(fetched, created);
}

#[test]
fn two_created_notes_have_two_identifiers() {
    let mut table = Table::new();
    let first = note_of(create(&mut table, "one", "1"));
    let second = note_of(create(&mut table, "two", "2"));
    assert_ne!(first.id, second.id);
    assert_eq!(note_of(get(&table, &first.id)).title, "one");
    assert_eq!(note_of(get(&table, &second.id)).title, "two");
    assert_eq!(table.rows.len(), 2);
}

#[test]
fn a_deleted_note_is_gone() {
    let mut table = Table::new();
    let id = note_of(create(&mut table, "T", "C")).id;
    assert_eq!(delete(&mut table, &id), Response { code: 200, body: Body::Empty });
    assert_eq!(delete(&mut table, &id), not_found(Status::Error, &id));
    assert_eq!(get(&table, &id), not_found(Status::Fail, &id));
    assert!(table.rows.is_empty());
}

#[test]
fn an_edit_of_the_content_keeps_the_title() {
    let mut table = Table::new();
    let id = note_of(create(&mut table, "A", "B")).id;
    let edited = note_of(edit(&mut table, &id, &only(None, Some("C"))));
    assert_eq!(edited.id, id);
    assert_eq!(edited.title, "A");
    assert_eq!(edited.content, "C");
    assert!(!edited.is_published);
    assert_eq!(note_of(get(&table, &id)), edited);
}

#[test]
fn an_edit_keeps_the_time_of_creation_and_moves_the_time_of_update() {
    let mut table = Table::new();
    let created = note_of(create(&mut table, "A", "B"));
    let edited = note_of(edit(&mut table, &created.id, &only(Some("Z"), None)));
    assert_eq!(edited.created_at, created.created_at);
    assert_eq!(edited.updated_at, Timestamp { seconds: 1_700_000_002, nanoseconds: 0 });
}

#[test]
fn an_edit_can_publish_and_unpublish() {
    let mut table = Table::new();
    let id = note_of(create(&mut table, "A", "B")).id;
    let publish = UpdateNoteSchema { title: None, content: None, is_published: Some(true) };
    let edited = note_of(edit(&mut table, &id, &publish));
    assert!(edited.is_published);
    assert_eq!(table.rows[&id].is_published, 1);
    let kept = note_of(edit(&mut table, &id, &only(Some("Z"), None)));
    assert!(kept.is_published);
    let unpublish = UpdateNoteSchema { title: None, content: None, is_published: Some(false) };
    let edited = note_of(edit(&mut table, &id, &unpublish));
    assert!(!edited.is_published);
    assert_eq!(table.rows[&id].is_published, 0);
}

#[test]
fn a_listing_without_a_query_shows_the_first_ten_in_ascending_order() {
    let table = filled(12);
    let (count, notes) = notes_of(list(&table, None));
    assert_eq!(count, 10);
    let ids: Vec<String> = notes.into_iter().map(|note| note.id).collect();
    let expected: Vec<String> = (0..10).map(|n| format!("note-{:02}", n)).collect();
    assert_eq!(ids, expected);
}

#[test]
fn a_listing_of_fewer_than_ten_notes_shows_them_all() {
    let table = filled(3);
    let (count, notes) = notes_of(list(&table, None));
    assert_eq!(count, 3);
    assert_eq!(notes.len(), 3);
    assert_eq!(notes[0].id, "note-00");
    assert_eq!(notes[2].id, "note-02");
}

#[test]
fn the_second_page_of_five_shows_the_sixth_to_the_tenth() {
    let table = filled(12);
    let options = FilterOptions { page: Some(2), limit: Some(5) };
    let (count, notes) = notes_of(list(&table, Some(options)));
    assert_eq!(count, 5);
    let ids: Vec<String> = notes.into_iter().map(|note| note.id).collect();
    assert_eq!(ids, vec!["note-05", "note-06", "note-07", "note-08", "note-09"]);
}

#[test]
fn a_page_past_the_end_is_empty() {
    let table = filled(12);
    let options = FilterOptions { page: Some(4), limit: Some(5) };
    assert_eq!(notes_of(list(&table, Some(options))), (0, vec![]));
}

#[test]
fn the_last_page_may_be_short() {
    let table = filled(12);
    let options = FilterOptions { page: Some(3), limit: Some(5) };
    let (count, notes) = notes_of(list(&table, Some(options)));
    assert_eq!(count, 2);
    assert_eq!(notes[0].id, "note-10");
    assert_eq!(notes[1].id, "note-11");
}

#[test]
fn a_limit_of_zero_lists_nothing() {
    let table = filled(12);
    let options = FilterOptions { page: Some(1), limit: Some(0) };
    assert_eq!(notes_of(list(&table, Some(options))), (0, vec![]));
}

#[test]
fn page_zero_is_left_to_the_datastore_to_refuse() {
    let table = filled(12);
    let options = FilterOptions { page: Some(0), limit: Some(5) };
    assert_eq!(
        list(&table, Some(options)),
        Response {
            code: 500,
            body: Body::Message {
                status: Status::Error,
                message: "Database error: error returned from database: 1064 (42000): You \
                          have an error in your SQL syntax"
                    .to_string(),
            },
        }
    );
}

#[test]
fn fetching_a_missing_note_fails_with_404() {
    let table = filled(2);
    assert_eq!(get(&table, "nowhere"), not_found(Status::Fail, "nowhere"));
}

#[test]
fn editing_a_missing_note_is_an_error_with_404() {
    let mut table = filled(2);
    let response = edit(&mut table, "nowhere", &only(Some("X"), None));
    assert_eq!(response, not_found(Status::Error, "nowhere"));
    assert_eq!(table.rows.len(), 2);
    assert_eq!(table.rows["note-00"].title, "title 0");
}

#[test]
fn deleting_a_missing_note_is_an_error_with_404() {
    let mut table = filled(2);
    assert_eq!(delete(&mut table, "nowhere"), not_found(Status::Error, "nowhere"));
    assert_eq!(table.rows.len(), 2);
}

#[test]
fn creating_under_a_taken_identifier_is_a_conflict() {
    let mut table = Table::new();
    let taken = "3f2b8c1e-5d4a-4c6b-9e7f-0a1b2c3d4e5f";
    let first = note_of(create_under(&mut table, taken, "first", "1"));
    assert_eq!(first.id, taken);
    let second = create_under(&mut table, taken, "second", "2");
    assert_eq!(
        second,
        Response {
            code: 409,
            body: Body::Message {
                status: Status::Error,
                message: "Note already exists".to_string(),
            },
        }
    );
    assert_eq!(note_of(get(&table, taken)).title, "first");
    assert_eq!(table.rows.len(), 1);
}

#[test]
fn two_edits_in_a_row_both_take_effect() {
    for title_first in [true, false] {
        let mut table = Table::new();
        let id = note_of(create(&mut table, "A", "B")).id;
        let retitle = only(Some("T"), None);
        let rewrite = only(None, Some("C"));
        let (first, second) = if title_first {
            (&retitle, &rewrite)
        } else {
            (&rewrite, &retitle)
        };
        assert_eq!(edit(&mut table, &id, first).code, 200);
        let last = note_of(edit(&mut table, &id, second));
        assert_eq!(last.title, "T");
        assert_eq!(last.content, "C");
        assert!(!last.is_published);
    }
}

#[test]
fn an_edit_that_starts_after_the_update_of_another_sees_it() {
    let mut table = Table::new();
    let id = note_of(create(&mut table, "A", "B")).id;
    let retitle = only(Some("T"), None);
    let rewrite = only(None, Some("C"));
    let one = edit_turn(&mut table, &id, &retitle, EditStage::Begin).unwrap();
    let one = edit_turn(&mut table, &id, &retitle, one).unwrap();
    let two = edit_turn(&mut table, &id, &rewrite, EditStage::Begin).unwrap();
    let one = edit_turn(&mut table, &id, &retitle, one).unwrap();
    let two = edit_turn(&mut table, &id, &rewrite, two).unwrap();
    let first = note_of(edit_turn(&mut table, &id, &retitle, one).unwrap_err());
    let two = edit_turn(&mut table, &id, &rewrite, two).unwrap();
    let second = note_of(edit_turn(&mut table, &id, &rewrite, two).unwrap_err());
    assert_eq!(first.title, "T");
    assert_eq!(second.title, "T");
    assert_eq!(second.content, "C");
    assert_eq!(table.rows[&id].title, "T");
    assert_eq!(table.rows[&id].content, "C");
}

#[test]
fn two_edits_that_both_fetch_before_either_updates_lose_the_earlier_change() {
    let mut table = Table::new();
    let id = note_of(create(&mut table, "A", "B")).id;
    let retitle = only(Some("T"), None);
    let rewrite = only(None, Some("C"));
    let one = edit_turn(&mut table, &id, &retitle, EditStage::Begin).unwrap();
    let two = edit_turn(&mut table, &id, &rewrite, EditStage::Begin).unwrap();
    let one = edit_turn(&mut table, &id, &retitle, one).unwrap();
    let two = edit_turn(&mut table, &id, &rewrite, two).unwrap();
    let one = edit_turn(&mut table, &id, &retitle, one).unwrap();
    let two = edit_turn(&mut table, &id, &rewrite, two).unwrap();
    let first = edit_turn(&mut table, &id, &retitle, one).unwrap_err();
    let second = edit_turn(&mut table, &id, &rewrite, two).unwrap_err();
    assert_eq!(first.code, 200);
    assert_eq!(second.code, 200);
    assert_eq!(table.rows[&id].title, "A");
    assert_eq!(table.rows[&id].content, "C");
}

#[test]
fn an_edit_of_a_note_that_is_deleted_meanwhile_is_an_error_with_404() {
    let mut table = Table::new();
    let id = note_of(create(&mut table, "A", "B")).id;
    let retitle = only(Some("T"), None);
    let stage = edit_turn(&mut table, &id, &retitle, EditStage::Begin).unwrap();
    assert_eq!(delete(&mut table, &id).code, 200);
    let stage = edit_turn(&mut table, &id, &retitle, stage).unwrap();
    let response = edit_turn(&mut table, &id, &retitle, stage).unwrap_err();
    assert_eq!(response, not_found(Status::Error, &id));
}

#[test]
fn requests_touch_no_note_but_their_own() {
    let mut table = filled(3);
    let before = table.rows["note-01"].clone();
    assert_eq!(edit(&mut table, "note-00", &only(Some("X"), Some("Y"))).code, 200);
    assert_eq!(delete(&mut table, "note-02").code, 200);
    assert_eq!(create(&mut table, "new", "note").code, 200);
    assert_eq!(get(&table, "note-00").code, 200);
    assert_eq!(table.rows["note-01"], before);
    assert_eq!(table.rows.len(), 3);
    for note in table.rows.values() {
        assert!(note.is_published == 0 || note.is_published == 1);
        assert!(note.is_hydrated());
    }
}
