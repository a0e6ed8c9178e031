//! The note store: creation, deletion, partial update and the queries, run
//! here against the in-memory collection.

use vstd::prelude::*;
use crate::clock::unix_now;
use crate::collection::NoteCollection;
use crate::error::{ServiceError, StorageFault};
use crate::ident::is_random_uuid;
use crate::model::{
    after_update, first_match, has_id, lemma_first_match_by_id, lemma_select_all, lookup, page_of,
    select, store_wf, without_id,
};
use crate::plan::{
    begin_create, begin_delete, begin_find_by_id, begin_find_by_title, begin_find_notes, begin_page,
    begin_update, continue_delete, continue_update, draft_note, finish_create, finish_delete,
    finish_find_many, finish_find_one, finish_page, finish_update, tag_filter, PAGE_SIZE,
};
use crate::store::{tags_of, view_of, views, NoteFilterView};
use crate::types::{new_note, preview_views, text_of, Note, NoteId, NotePreview, NoteView, Tags};

verus! {

/// The store and the collection it keeps its notes in.
pub struct NoteService {
    collection: NoteCollection,
}

impl View for NoteService {
    type V = Seq<NoteView>;

    closed spec fn view(&self) -> Seq<NoteView> {
        self.collection@
    }
}

impl NoteService {
    /// The store's invariant holds of this value.
    pub closed spec fn wf(&self) -> bool {
        &&& self.collection.wf()
        &&& store_wf(self.collection@)
    }

    /// What the invariant says of the stored notes.
    pub proof fn lemma_wf(&self)
        requires
            self.wf(),
        ensures
            store_wf(self@),
    {
    }

    /// A store with no notes.
    pub fn new() -> (service: NoteService)
        ensures
            service.wf(),
            service@ == Seq::<NoteView>::empty(),
    {
        NoteService { collection: NoteCollection::new() }
    }

    /// Persists a note that creation has made.
    fn persist(&mut self, note: Note) -> (result: Result<NoteId, ServiceError>)
        requires
            old(self).wf(),
            note@.well_formed(),
        ensures
            final(self).wf(),
            match result {
                Ok(got) => got == note.id && !has_id(old(self)@, note.id) && final(self)@ == old(
                    self,
                )@.push(note@),
                Err(e) => e == ServiceError::StorageError(StorageFault::DuplicateId) && has_id(
                    old(self)@,
                    note.id,
                ) && final(self)@ == old(self)@,
            },
    {
        let id = note.id;
        let answer = self.collection.perform(begin_create(note));
        finish_create(id, &answer)
    }

    /// Creates a note under the id `id` at the time `now`. The note is
    /// appended with both timestamps at `now`, unless the id is taken: then
    /// nothing changes and the failure is a storage error.
    pub fn create_note_with(
        &mut self,
        id: NoteId,
        now: u64,
        title: String,
        content: String,
        tags: Vec<Tags>,
    ) -> (result: Result<NoteId, ServiceError>)
        requires
            old(self).wf(),
        ensures
            final(self).wf(),
            match result {
                Ok(got) => got == id && !has_id(old(self)@, id) && final(self)@ == old(self)@.push(
                    new_note(id, title@, content@, tags@, now),
                ),
                Err(e) => e == ServiceError::StorageError(StorageFault::DuplicateId) && has_id(
                    old(self)@,
                    id,
                ) && final(self)@ == old(self)@,
            },
    {
        self.persist(Note::new(id, title, content, tags, now))
    }

    /// Creates a note under a fresh random id, stamped with the current
    /// time, and returns the id. Where the id drawn is taken, nothing
    /// changes and the failure is a storage error.
    pub fn create_note(&mut self, title: String, content: String, tags: Vec<Tags>) -> (result: Result<
        NoteId,
        ServiceError,
    >)
        requires
            old(self).wf(),
        ensures
            final(self).wf(),
            match result {
                Ok(id) => is_random_uuid(id) && !has_id(old(self)@, id) && exists|now: u64|
                    final(self)@ == old(self)@.push(
                        #[trigger] new_note(id, title@, content@, tags@, now),
                    ),
                Err(e) => e == ServiceError::StorageError(StorageFault::DuplicateId) && final(self)@
                    == old(self)@ && exists|taken: NoteId|
                    is_random_uuid(taken) && #[trigger] has_id(old(self)@, taken),
            },
    {
        self.persist(draft_note(title, content, tags))
    }

    /// Deletes the note `id`. A note that does not exist is `NotFound`, and
    /// nothing changes.
    pub fn delete_note(&mut self, id: NoteId) -> (result: Result<(), ServiceError>)
        requires
            old(self).wf(),
        ensures
            final(self).wf(),
            match result {
                Ok(_) => has_id(old(self)@, id) && final(self)@ == without_id(old(self)@, id),
                Err(e) => e == ServiceError::NotFound && !has_id(old(self)@, id) && final(self)@
                    == old(self)@,
            },
    {
        proof {
            lemma_first_match_by_id(self.collection@, id);
        }
        let lookup = self.collection.perform(begin_delete(id));
        match continue_delete(id, &lookup) {
            Ok(removal) => {
                let answer = self.collection.perform(removal);
                finish_delete(&answer)
            },
            Err(e) => Err(e),
        }
    }

    /// Updates the note `id` at the time `now`: each supplied field
    /// replaces the stored one, and each omitted field stays. The
    /// modification time becomes `now`, except where `now` lies before the
    /// note's creation: then it becomes the creation time, so that no note
    /// is ever dated as changed before it was made. A note that does not
    /// exist is `NotFound`, and nothing changes.
    pub fn update_note_at(
        &mut self,
        id: NoteId,
        new_title: Option<String>,
        new_content: Option<String>,
        new_tags: Option<Vec<Tags>>,
        now: u64,
    ) -> (result: Result<(), ServiceError>)
        requires
            old(self).wf(),
        ensures
            final(self).wf(),
            match result {
                Ok(_) => has_id(old(self)@, id) && final(self)@ == after_update(
                    old(self)@,
                    id,
                    text_of(new_title),
                    text_of(new_content),
                    tags_of(new_tags),
                    now,
                ),
                Err(e) => e == ServiceError::NotFound && !has_id(old(self)@, id) && final(self)@
                    == old(self)@,
            },
    {
        proof {
            lemma_first_match_by_id(self.collection@, id);
        }
        let lookup = self.collection.perform(begin_update(id));
        match continue_update(id, new_title, new_content, new_tags, now, &lookup) {
            Ok(write) => {
                let answer = self.collection.perform(write);
                finish_update(&answer)
            },
            Err(e) => Err(e),
        }
    }

    /// Updates the note `id` at the current time: what `update_note_at`
    /// does for the time the clock reads. The modification time written is
    /// that reading, or the note's creation time where the clock reads a
    /// moment before it.
    pub fn update_note(
        &mut self,
        id: NoteId,
        new_title: Option<String>,
        new_content: Option<String>,
        new_tags: Option<Vec<Tags>>,
    ) -> (result: Result<(), ServiceError>)
        requires
            old(self).wf(),
        ensures
            final(self).wf(),
            match result {
                Ok(_) => has_id(old(self)@, id) && exists|now: u64|
                    final(self)@ == #[trigger] after_update(
                        old(self)@,
                        id,
                        text_of(new_title),
                        text_of(new_content),
                        tags_of(new_tags),
                        now,
                    ),
                Err(e) => e == ServiceError::NotFound && !has_id(old(self)@, id) && final(self)@
                    == old(self)@,
            },
    {
        let now: u64 = unix_now();
        self.update_note_at(id, new_title, new_content, new_tags, now)
    }

    /// The note `id`, or `None` where there is none.
    pub fn find_note_by_id(&self, id: NoteId) -> (result: Result<Option<Note>, ServiceError>)
        requires
            self.wf(),
        ensures
            result matches Ok(found) && view_of(found) == lookup(self@, id),
    {
        proof {
            lemma_first_match_by_id(self.collection@, id);
        }
        match self.collection.query(begin_find_by_id(id)) {
            Ok(answer) => finish_find_one(answer),
            Err(_) => Err(ServiceError::StorageError(StorageFault::UnexpectedReply)),
        }
    }

    /// The notes carrying any of `tags`, or every note where no tags are
    /// given, in the order they were created in.
    pub fn find_notes(&self, tags: Option<Vec<Tags>>) -> (result: Result<Vec<Note>, ServiceError>)
        requires
            self.wf(),
        ensures
            result matches Ok(notes) && views(notes@) == select(self@, tag_filter(tags_of(tags))),
    {
        let ghost filter = tag_filter(tags_of(tags));
        match self.collection.query(begin_find_notes(tags)) {
            Ok(answer) => {
                assert(select(self@, filter).subrange(0, select(self@, filter).len() as int)
                    =~= select(self@, filter));
                finish_find_many(answer)
            },
            Err(_) => Err(ServiceError::StorageError(StorageFault::UnexpectedReply)),
        }
    }

    /// The first note, in the order of creation, whose title is exactly
    /// `title`, or `None` where there is none.
    pub fn get_note_by_title(&self, title: String) -> (result: Result<Option<Note>, ServiceError>)
        requires
            self.wf(),
        ensures
            result matches Ok(found) && view_of(found) == first_match(
                self@,
                NoteFilterView::ByTitle(title@),
            ),
    {
        match self.collection.query(begin_find_by_title(title)) {
            Ok(answer) => finish_find_one(answer),
            Err(_) => Err(ServiceError::StorageError(StorageFault::UnexpectedReply)),
        }
    }

    /// Page `page` of the notes in the order of creation, as previews.
    /// Pages count from one; page zero is an invalid argument.
    pub fn get_all_notes_by_page(&self, page: usize) -> (result: Result<
        Vec<NotePreview>,
        ServiceError,
    >)
        requires
            self.wf(),
        ensures
            match result {
                Ok(list) => page > 0 && preview_views(list@) == page_of(self@, page as int)
                    && list@.len() <= PAGE_SIZE,
                Err(e) => page == 0 && e == ServiceError::InvalidArgument,
            },
    {
        match begin_page(page) {
            Ok(call) => match self.collection.query(call) {
                Ok(answer) => {
                    proof {
                        self.collection.lemma_wf();
                        lemma_select_all(self@);
                    }
                    let result = finish_page(&answer);
                    proof {
                        let listed = result->Ok_0;
                        assert(preview_views(listed@) =~= page_of(self@, page as int));
                    }
                    result
                },
                Err(_) => Err(ServiceError::StorageError(StorageFault::UnexpectedReply)),
            },
            Err(e) => Err(e),
        }
    }
}

} // verus!
