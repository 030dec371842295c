//! The note as it is stored, and the note as it is shown to a client.

use vstd::prelude::*;

verus! {

/// A point in time: whole seconds since the Unix epoch, and the nanoseconds
/// within that second.
#[derive(Clone, Copy, Debug, PartialEq, Eq, Structural)]
pub struct Timestamp {
    pub seconds: i64,
    pub nanoseconds: u32,
}

/// A row of the `notes` table.
///
/// The datastore assigns both timestamps, so a note that has not been read
/// back yet may lack them.
#[derive(Clone, Debug, PartialEq, Eq)]
pub struct NoteModel {
    pub id: String,
    pub title: String,
    pub content: String,
    pub is_published: i8,
    pub created_at: Option<Timestamp>,
    pub updated_at: Option<Timestamp>,
}

/// The mathematical value of a [`NoteModel`].
pub struct NoteView {
    pub id: Seq<char>,
    pub title: Seq<char>,
    pub content: Seq<char>,
    pub is_published: i8,
    pub created_at: Option<Timestamp>,
    pub updated_at: Option<Timestamp>,
}

impl View for NoteModel {
    type V = NoteView;

    open spec fn view(&self) -> NoteView {
        NoteView {
            id: self.id@,
            title: self.title@,
            content: self.content@,
            is_published: self.is_published,
            created_at: self.created_at,
            updated_at: self.updated_at,
        }
    }
}

impl NoteView {
    /// Both timestamps are present: the row has been read back from the
    /// datastore.
    pub open spec fn is_hydrated(self) -> bool {
        self.created_at is Some && self.updated_at is Some
    }

    /// What a client sees of a hydrated row.
    pub open spec fn project(self) -> NoteResponseView {
        NoteResponseView {
            id: self.id,
            title: self.title,
            content: self.content,
            is_published: self.is_published != 0,
            created_at: self.created_at->0,
            updated_at: self.updated_at->0,
        }
    }
}

/// A note as it is shown to a client: the flag is a boolean and both
/// timestamps are present.
#[derive(Clone, Debug, PartialEq, Eq)]
pub struct NoteModelResponse {
    pub id: String,
    pub title: String,
    pub content: String,
    pub is_published: bool,
    pub created_at: Timestamp,
    pub updated_at: Timestamp,
}

/// The mathematical value of a [`NoteModelResponse`].
pub struct NoteResponseView {
    pub id: Seq<char>,
    pub title: Seq<char>,
    pub content: Seq<char>,
    pub is_published: bool,
    pub created_at: Timestamp,
    pub updated_at: Timestamp,
}

impl View for NoteModelResponse {
    type V = NoteResponseView;

    open spec fn view(&self) -> NoteResponseView {
        NoteResponseView {
            id: self.id@,
            title: self.title@,
            content: self.content@,
            is_published: self.is_published,
            created_at: self.created_at,
            updated_at: self.updated_at,
        }
    }
}

/// The values of stored notes, in their order.
pub open spec fn notes_view(notes: Seq<NoteModel>) -> Seq<NoteView> {
    notes.map_values(|note: NoteModel| note@)
}

/// The values of shown notes, in their order.
pub open spec fn responses_view(notes: Seq<NoteModelResponse>) -> Seq<NoteResponseView> {
    notes.map_values(|note: NoteModelResponse| note@)
}

/// What a client sees of each of the given rows, in their order.
pub open spec fn project_all(notes: Seq<NoteView>) -> Seq<NoteResponseView> {
    notes.map_values(|note: NoteView| note.project())
}

impl NoteModel {
    /// Whether both timestamps are present.
    pub fn is_hydrated(&self) -> (hydrated: bool)
        ensures
            hydrated == self@.is_hydrated(),
    {
        self.created_at.is_some() && self.updated_at.is_some()
    }
}

/// Projects a stored note to the shape that clients see: the stored flag
/// becomes a boolean that is true unless the flag is 0, and every other field
/// is copied.
pub fn to_note_response(note: &NoteModel) -> (response: NoteModelResponse)
    requires
        note@.is_hydrated(),
    ensures
        response@ == note@.project(),
{
    NoteModelResponse {
        id: note.id.clone(),
        title: note.title.clone(),
        content: note.content.clone(),
        is_published: note.is_published != 0,
        created_at: note.created_at.unwrap(),
        updated_at: note.updated_at.unwrap(),
    }
}

} // verus!
