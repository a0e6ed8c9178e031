//! An in-memory document collection: the storage backend that the model
//! describes, and the one the service runs on when nothing durable is needed.

use vstd::prelude::*;
use crate::error::StorageFault;
use crate::model::{
    answer_to, first_match, has_id, ids_unique, index_of, is_first_match, lemma_select_push,
    project, select, state_after, strip, window,
};
use crate::store::{view_of, views, NoteChanges, NoteFilter, StoreAnswer, StoreCall};
use crate::types::{copy_tags, Note, NoteId, NoteView};

verus! {

/// Notes in the order they were inserted, no id twice.
pub struct NoteCollection {
    notes: Vec<Note>,
}

impl View for NoteCollection {
    type V = Seq<NoteView>;

    closed spec fn view(&self) -> Seq<NoteView> {
        views(self.notes@)
    }
}

/// A copy of `note` as a projection returns it.
fn projected(note: &Note, omit_content: bool) -> (out: Note)
    ensures
        out@ == if omit_content {
            strip(note@)
        } else {
            note@
        },
{
    if omit_content {
        Note {
            id: note.id,
            title: note.title.clone(),
            content: None,
            created_at: note.created_at,
            updated_at: note.updated_at,
            tags: copy_tags(&note.tags),
        }
    } else {
        note.clone()
    }
}

impl NoteCollection {
    /// No id is stored twice.
    pub closed spec fn wf(&self) -> bool {
        ids_unique(views(self.notes@))
    }

    /// What well-formedness says of the contents: no id twice, and no more
    /// notes than a vector can hold.
    pub proof fn lemma_wf(&self)
        requires
            self.wf(),
        ensures
            ids_unique(self@),
            self@.len() <= usize::MAX,
    {
        assert(self@.len() == self.notes.len());
    }

    /// An empty collection.
    pub fn new() -> (c: NoteCollection)
        ensures
            c.wf(),
            c@ == Seq::<NoteView>::empty(),
    {
        let c = NoteCollection { notes: Vec::new() };
        assert(views(c.notes@) =~= Seq::<NoteView>::empty());
        c
    }

    /// How many notes are stored.
    pub fn len(&self) -> (n: usize)
        ensures
            n == self@.len(),
    {
        self.notes.len()
    }

    /// The position of the note with this id.
    fn position(&self, id: NoteId) -> (at: Option<usize>)
        requires
            self.wf(),
        ensures
            match at {
                Some(i) => i < self@.len() && self@[i as int].id == id && i == index_of(self@, id),
                None => !has_id(self@, id),
            },
    {
        let mut i: usize = 0;
        while i < self.notes.len()
            invariant
                i <= self.notes.len(),
                ids_unique(views(self.notes@)),
                forall|k: int| 0 <= k < i ==> (#[trigger] views(self.notes@)[k]).id != id,
            decreases self.notes.len() - i,
        {
            if self.notes[i].id == id {
                assert(views(self.notes@)[i as int].id == id);
                return Some(i);
            }
            i += 1;
        }
        None
    }

    /// The first note the filter selects.
    fn find_one(&self, filter: &NoteFilter) -> (found: Option<Note>)
        ensures
            view_of(found) == first_match(self@, filter@),
    {
        let mut i: usize = 0;
        while i < self.notes.len()
            invariant
                i <= self.notes.len(),
                forall|k: int| 0 <= k < i ==> !filter@.matches(#[trigger] views(self.notes@)[k]),
            decreases self.notes.len() - i,
        {
            if filter.matches(&self.notes[i]) {
                assert(is_first_match(self@, filter@, i as int));
                return Some(self.notes[i].clone());
            }
            i += 1;
        }
        None
    }

    /// The selected notes, windowed and projected.
    fn find_many(&self, filter: &NoteFilter, skip: u64, limit: Option<u64>, omit_content: bool) -> (out:
        Vec<Note>)
        ensures
            views(out@) == project(window(select(self@, filter@), skip, limit), omit_content),
    {
        let mut out: Vec<Note> = Vec::new();
        let mut seen: u64 = 0;
        let mut i: usize = 0;
        assert(self@.subrange(0, 0) =~= Seq::<NoteView>::empty());
        assert(select(Seq::<NoteView>::empty(), filter@) =~= Seq::<NoteView>::empty()) by {
            reveal(Seq::filter);
        }
        assert(views(out@) =~= Seq::<NoteView>::empty());
        while i < self.notes.len()
            invariant
                i <= self.notes.len(),
                self@ == views(self.notes@),
                seen == select(self@.subrange(0, i as int), filter@).len(),
                seen <= i,
                views(out@) == project(
                    window(select(self@.subrange(0, i as int), filter@), skip, limit),
                    omit_content,
                ),
            decreases self.notes.len() - i,
        {
            let ghost before = select(self@.subrange(0, i as int), filter@);
            proof {
                lemma_select_push(self@.subrange(0, i as int), filter@, self@[i as int]);
                assert(self@.subrange(0, i as int).push(self@[i as int]) =~= self@.subrange(
                    0,
                    i as int + 1,
                ));
            }
            if filter.matches(&self.notes[i]) {
                let keep = seen >= skip && match limit {
                    Some(l) => seen - skip < l,
                    None => true,
                };
                if keep {
                    let ghost old_out = views(out@);
                    out.push(projected(&self.notes[i], omit_content));
                    assert(views(out@) =~= old_out.push(
                        if omit_content {
                            strip(self@[i as int])
                        } else {
                            self@[i as int]
                        },
                    ));
                }
                seen += 1;
                assert(views(out@) =~= project(
                    window(before.push(self@[i as int]), skip, limit),
                    omit_content,
                ));
            }
            i += 1;
        }
        assert(self@.subrange(0, i as int) =~= self@);
        out
    }

    /// Appends the note unless its id is taken.
    fn insert_one(&mut self, note: Note) -> (answer: StoreAnswer)
        requires
            old(self).wf(),
        ensures
            final(self).wf(),
            answer@ == answer_to(old(self)@, StoreCall::InsertOne(note)@),
            final(self)@ == state_after(old(self)@, StoreCall::InsertOne(note)@),
    {
        match self.position(note.id) {
            Some(_) => StoreAnswer::Failed(StorageFault::DuplicateId),
            None => {
                let ghost before = views(self.notes@);
                self.notes.push(note);
                assert(views(self.notes@) =~= before.push(note@));
                StoreAnswer::Inserted
            },
        }
    }

    /// Removes the note with this id and says how many were removed.
    fn delete_one(&mut self, id: NoteId) -> (removed: u64)
        requires
            old(self).wf(),
        ensures
            final(self).wf(),
            StoreAnswer::Deleted(removed)@ == answer_to(old(self)@, StoreCall::DeleteOne(id)@),
            final(self)@ == state_after(old(self)@, StoreCall::DeleteOne(id)@),
    {
        match self.position(id) {
            Some(i) => {
                let ghost before = views(self.notes@);
                self.notes.remove(i);
                assert(views(self.notes@) =~= before.remove(i as int));
                1
            },
            None => 0,
        }
    }

    /// Writes the changes into the note with this id and says how many
    /// notes matched.
    fn update_one(&mut self, id: NoteId, changes: &NoteChanges) -> (matched: u64)
        requires
            old(self).wf(),
        ensures
            final(self).wf(),
            StoreAnswer::Updated(matched)@ == answer_to(
                old(self)@,
                StoreCall::UpdateOne(id, *changes)@,
            ),
            final(self)@ == state_after(old(self)@, StoreCall::UpdateOne(id, *changes)@),
    {
        match self.position(id) {
            Some(i) => {
                let ghost before = views(self.notes@);
                let mut note = self.notes[i].clone();
                changes.apply(&mut note);
                self.notes.set(i, note);
                assert(views(self.notes@) =~= before.update(i as int, changes@.apply(before[i as int])));
                1
            },
            None => 0,
        }
    }

    /// Answers a call that only reads; a call that writes is handed back.
    pub fn query(&self, call: StoreCall) -> (answer: Result<StoreAnswer, StoreCall>)
        requires
            self.wf(),
        ensures
            match answer {
                Ok(a) => call@.reads() && a@ == answer_to(self@, call@),
                Err(c) => !call@.reads() && c == call,
            },
    {
        match call {
            StoreCall::FindOne(filter) => Ok(StoreAnswer::One(self.find_one(&filter))),
            StoreCall::FindMany { filter, skip, limit, omit_content } => Ok(
                StoreAnswer::Many(self.find_many(&filter, skip, limit, omit_content)),
            ),
            other => Err(other),
        }
    }

    /// Answers one storage call.
    pub fn perform(&mut self, call: StoreCall) -> (answer: StoreAnswer)
        requires
            old(self).wf(),
        ensures
            final(self).wf(),
            answer@ == answer_to(old(self)@, call@),
            final(self)@ == state_after(old(self)@, call@),
    {
        match self.query(call) {
            Ok(answer) => answer,
            Err(StoreCall::InsertOne(note)) => self.insert_one(note),
            Err(StoreCall::DeleteOne(id)) => StoreAnswer::Deleted(self.delete_one(id)),
            Err(StoreCall::UpdateOne(id, changes)) => StoreAnswer::Updated(
                self.update_one(id, &changes),
            ),
            Err(_) => StoreAnswer::Failed(StorageFault::UnexpectedReply),
        }
    }
}

} // verus!
