//! The plain values exchanged with a storage backend: one `StoreCall` per
//! round trip, one `StoreAnswer` back.

use vstd::prelude::*;
use crate::error::StorageFault;
use crate::types::{copy_tags, text_of, Note, NoteId, NoteView, Tags};

verus! {

/// Which notes a query selects.
#[derive(Debug, PartialEq, Eq)]
pub enum NoteFilter {
    /// Every note.
    All,
    /// The note with this id.
    ById(NoteId),
    /// Notes whose title is exactly this text.
    ByTitle(String),
    /// Notes carrying at least one of these tags.
    AnyTag(Vec<Tags>),
}

/// The mathematical view of `NoteFilter`.
#[verifier::ext_equal]
pub enum NoteFilterView {
    All,
    ById(NoteId),
    ByTitle(Seq<char>),
    AnyTag(Seq<Tags>),
}

impl NoteFilterView {
    /// Whether `note` is selected.
    pub open spec fn matches(self, note: NoteView) -> bool {
        match self {
            NoteFilterView::All => true,
            NoteFilterView::ById(id) => note.id == id,
            NoteFilterView::ByTitle(title) => note.title == title,
            NoteFilterView::AnyTag(tags) => note.has_any_tag(tags),
        }
    }
}

impl View for NoteFilter {
    type V = NoteFilterView;

    open spec fn view(&self) -> NoteFilterView {
        match self {
            NoteFilter::All => NoteFilterView::All,
            NoteFilter::ById(id) => NoteFilterView::ById(*id),
            NoteFilter::ByTitle(title) => NoteFilterView::ByTitle(title@),
            NoteFilter::AnyTag(tags) => NoteFilterView::AnyTag(tags@),
        }
    }
}

impl NoteFilter {
    /// Whether `note` is selected.
    pub fn matches(&self, note: &Note) -> (selected: bool)
        ensures
            selected == self@.matches(note@),
    {
        match self {
            NoteFilter::All => true,
            NoteFilter::ById(id) => note.id == *id,
            NoteFilter::ByTitle(title) => note.title == *title,
            NoteFilter::AnyTag(tags) => note.has_any_tag(tags),
        }
    }
}

/// The fields a partial update writes. A field left `None` keeps its value;
/// the modification time is always written.
#[derive(Debug, PartialEq, Eq)]
pub struct NoteChanges {
    pub title: Option<String>,
    pub content: Option<String>,
    pub tags: Option<Vec<Tags>>,
    pub updated_at: u64,
}

/// The mathematical view of `NoteChanges`.
#[verifier::ext_equal]
pub struct NoteChangesView {
    pub title: Option<Seq<char>>,
    pub content: Option<Seq<char>>,
    pub tags: Option<Seq<Tags>>,
    pub updated_at: u64,
}

/// The tags of an optional tag list.
pub open spec fn tags_of(tags: Option<Vec<Tags>>) -> Option<Seq<Tags>> {
    match tags {
        Some(t) => Some(t@),
        None => None,
    }
}

impl View for NoteChanges {
    type V = NoteChangesView;

    open spec fn view(&self) -> NoteChangesView {
        NoteChangesView {
            title: text_of(self.title),
            content: text_of(self.content),
            tags: tags_of(self.tags),
            updated_at: self.updated_at,
        }
    }
}

impl NoteChangesView {
    /// The note after these changes: identity and creation time stay.
    pub open spec fn apply(self, note: NoteView) -> NoteView {
        NoteView {
            id: note.id,
            title: match self.title {
                Some(t) => t,
                None => note.title,
            },
            content: match self.content {
                Some(c) => Some(c),
                None => note.content,
            },
            created_at: note.created_at,
            updated_at: self.updated_at,
            tags: match self.tags {
                Some(t) => t,
                None => note.tags,
            },
        }
    }
}

impl NoteChanges {
    /// Writes the changes into `note`.
    pub fn apply(&self, note: &mut Note)
        ensures
            final(note)@ == self@.apply(old(note)@),
    {
        match &self.title {
            Some(t) => {
                note.title = t.clone();
            },
            None => {},
        }
        match &self.content {
            Some(c) => {
                note.content = Some(c.clone());
            },
            None => {},
        }
        match &self.tags {
            Some(t) => {
                note.tags = copy_tags(t);
            },
            None => {},
        }
        note.updated_at = self.updated_at;
    }
}

/// One round trip asked of the storage backend.
#[derive(Debug, PartialEq, Eq)]
pub enum StoreCall {
    /// Persist a new note.
    InsertOne(Note),
    /// The first note, in storage order, that the filter selects.
    FindOne(NoteFilter),
    /// The selected notes in storage order, after skipping `skip` of them,
    /// at most `limit` of them where a limit is given, and without their
    /// content where `omit_content` is set.
    FindMany { filter: NoteFilter, skip: u64, limit: Option<u64>, omit_content: bool },
    /// Remove the note with this id.
    DeleteOne(NoteId),
    /// Write the changes into the note with this id.
    UpdateOne(NoteId, NoteChanges),
}

/// The mathematical view of `StoreCall`.
#[verifier::ext_equal]
pub enum StoreCallView {
    InsertOne(NoteView),
    FindOne(NoteFilterView),
    FindMany { filter: NoteFilterView, skip: u64, limit: Option<u64>, omit_content: bool },
    DeleteOne(NoteId),
    UpdateOne(NoteId, NoteChangesView),
}

impl StoreCallView {
    /// Whether the call leaves the stored notes as they are.
    pub open spec fn reads(self) -> bool {
        self is FindOne || self is FindMany
    }
}

impl View for StoreCall {
    type V = StoreCallView;

    open spec fn view(&self) -> StoreCallView {
        match self {
            StoreCall::InsertOne(note) => StoreCallView::InsertOne(note@),
            StoreCall::FindOne(filter) => StoreCallView::FindOne(filter@),
            StoreCall::FindMany { filter, skip, limit, omit_content } => StoreCallView::FindMany {
                filter: filter@,
                skip: *skip,
                limit: *limit,
                omit_content: *omit_content,
            },
            StoreCall::DeleteOne(id) => StoreCallView::DeleteOne(*id),
            StoreCall::UpdateOne(id, changes) => StoreCallView::UpdateOne(*id, changes@),
        }
    }
}

/// What the backend answered.
#[derive(Debug, PartialEq, Eq)]
pub enum StoreAnswer {
    /// The note was persisted.
    Inserted,
    /// The outcome of a `FindOne`.
    One(Option<Note>),
    /// The outcome of a `FindMany`.
    Many(Vec<Note>),
    /// How many notes a `DeleteOne` removed.
    Deleted(u64),
    /// How many notes an `UpdateOne` matched.
    Updated(u64),
    /// The call did not go through.
    Failed(StorageFault),
}

/// The mathematical view of `StoreAnswer`.
#[verifier::ext_equal]
pub enum StoreAnswerView {
    Inserted,
    One(Option<NoteView>),
    Many(Seq<NoteView>),
    Deleted(u64),
    Updated(u64),
    Failed(StorageFault),
}

/// The notes of a list, each by its view.
pub open spec fn views(notes: Seq<Note>) -> Seq<NoteView> {
    notes.map_values(|n: Note| n@)
}

/// The view of an optional note.
pub open spec fn view_of(note: Option<Note>) -> Option<NoteView> {
    match note {
        Some(n) => Some(n@),
        None => None,
    }
}

impl View for StoreAnswer {
    type V = StoreAnswerView;

    open spec fn view(&self) -> StoreAnswerView {
        match self {
            StoreAnswer::Inserted => StoreAnswerView::Inserted,
            StoreAnswer::One(note) => StoreAnswerView::One(view_of(*note)),
            StoreAnswer::Many(notes) => StoreAnswerView::Many(views(notes@)),
            StoreAnswer::Deleted(n) => StoreAnswerView::Deleted(*n),
            StoreAnswer::Updated(n) => StoreAnswerView::Updated(*n),
            StoreAnswer::Failed(fault) => StoreAnswerView::Failed(*fault),
        }
    }
}

} // verus!
