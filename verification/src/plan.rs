//! The decisions of every store operation, apart from the storage that
//! carries them out. An operation begins with a storage call, and each
//! answer either ends it or leads to the next call.

use vstd::prelude::*;
use crate::clock::unix_now;
use crate::error::{ServiceError, StorageFault};
use crate::ident::{is_random_uuid, random_id};
use crate::store::{
    tags_of, view_of, views, NoteChanges, NoteChangesView, NoteFilter, NoteFilterView, StoreAnswer,
    StoreAnswerView, StoreCall, StoreCallView,
};
use crate::types::{
    new_note, preview_views, previews, text_of, Note, NoteId, NotePreview, NotePreviewView,
    NoteView, Tags,
};

verus! {

/// How many notes a page holds.
pub const PAGE_SIZE: u64 = 10;

/// The failure an answer stands for when it is not the one awaited.
pub open spec fn failure_of(answer: StoreAnswerView) -> ServiceError {
    match answer {
        StoreAnswerView::Failed(fault) => ServiceError::StorageError(fault),
        _ => ServiceError::StorageError(StorageFault::UnexpectedReply),
    }
}

/// The failure an answer stands for when it is not the one awaited.
pub fn failure(answer: &StoreAnswer) -> (e: ServiceError)
    ensures
        e == failure_of(answer@),
{
    match answer {
        StoreAnswer::Failed(fault) => ServiceError::StorageError(*fault),
        _ => ServiceError::StorageError(StorageFault::UnexpectedReply),
    }
}

/// A planned call, by its view.
pub open spec fn call_view(step: Result<StoreCall, ServiceError>) -> Result<
    StoreCallView,
    ServiceError,
> {
    match step {
        Ok(call) => Ok(call@),
        Err(e) => Err(e),
    }
}

/// The modification time an update at `now` writes: the current time, and
/// never a moment before the note was created.
pub open spec fn refreshed(created_at: u64, now: u64) -> u64 {
    if now >= created_at {
        now
    } else {
        created_at
    }
}

// ---------------------------------------------------------------- create

/// The note that creation makes of its arguments: under a fresh random id,
/// with both timestamps at the current time.
pub fn draft_note(title: String, content: String, tags: Vec<Tags>) -> (note: Note)
    ensures
        is_random_uuid(note.id),
        note@.well_formed(),
        exists|now: u64| note@ == #[trigger] new_note(note.id, title@, content@, tags@, now),
{
    let id = random_id();
    let now: u64 = unix_now();
    Note::new(id, title, content, tags, now)
}

/// Creation asks the storage to insert the note.
pub fn begin_create(note: Note) -> (call: StoreCall)
    ensures
        call@ == StoreCallView::InsertOne(note@),
{
    StoreCall::InsertOne(note)
}

/// How creation of the note `id` ends.
pub open spec fn create_result(id: NoteId, answer: StoreAnswerView) -> Result<
    NoteId,
    ServiceError,
> {
    match answer {
        StoreAnswerView::Inserted => Ok(id),
        _ => Err(failure_of(answer)),
    }
}

/// Ends creation: the id once the note is persisted, a storage error
/// otherwise.
pub fn finish_create(id: NoteId, answer: &StoreAnswer) -> (result: Result<NoteId, ServiceError>)
    ensures
        result == create_result(id, answer@),
{
    match answer {
        StoreAnswer::Inserted => Ok(id),
        _ => Err(failure(answer)),
    }
}

// ---------------------------------------------------------------- delete

/// Deletion first asks whether the note exists.
pub fn begin_delete(id: NoteId) -> (call: StoreCall)
    ensures
        call@ == StoreCallView::FindOne(NoteFilterView::ById(id)),
{
    StoreCall::FindOne(NoteFilter::ById(id))
}

/// What deletion does once the lookup is answered.
pub open spec fn delete_step(id: NoteId, lookup: StoreAnswerView) -> Result<
    StoreCallView,
    ServiceError,
> {
    match lookup {
        StoreAnswerView::One(Some(_)) => Ok(StoreCallView::DeleteOne(id)),
        StoreAnswerView::One(None) => Err(ServiceError::NotFound),
        _ => Err(failure_of(lookup)),
    }
}

/// Continues deletion: the removal where the note was found, `NotFound`
/// where it was not.
pub fn continue_delete(id: NoteId, lookup: &StoreAnswer) -> (step: Result<StoreCall, ServiceError>)
    ensures
        call_view(step) == delete_step(id, lookup@),
{
    match lookup {
        StoreAnswer::One(Some(_)) => Ok(StoreCall::DeleteOne(id)),
        StoreAnswer::One(None) => Err(ServiceError::NotFound),
        _ => Err(failure(lookup)),
    }
}

/// How deletion ends.
pub open spec fn delete_result(answer: StoreAnswerView) -> Result<(), ServiceError> {
    match answer {
        StoreAnswerView::Deleted(removed) => if removed == 0 {
            Err(ServiceError::StorageError(StorageFault::LostDeleteRace))
        } else {
            Ok(())
        },
        _ => Err(failure_of(answer)),
    }
}

/// Ends deletion. A removal that removed nothing, after the note had been
/// seen, lost a race: that is a storage error of its own, not `NotFound`.
pub fn finish_delete(answer: &StoreAnswer) -> (result: Result<(), ServiceError>)
    ensures
        result == delete_result(answer@),
{
    match answer {
        StoreAnswer::Deleted(removed) => if *removed == 0 {
            Err(ServiceError::StorageError(StorageFault::LostDeleteRace))
        } else {
            Ok(())
        },
        _ => Err(failure(answer)),
    }
}

// ---------------------------------------------------------------- update

/// An update first asks whether the note exists.
pub fn begin_update(id: NoteId) -> (call: StoreCall)
    ensures
        call@ == StoreCallView::FindOne(NoteFilterView::ById(id)),
{
    StoreCall::FindOne(NoteFilter::ById(id))
}

/// The changes an update at `now` writes into a note created at
/// `created_at`.
pub open spec fn changes_at(
    title: Option<Seq<char>>,
    content: Option<Seq<char>>,
    tags: Option<Seq<Tags>>,
    created_at: u64,
    now: u64,
) -> NoteChangesView {
    NoteChangesView { title, content, tags, updated_at: refreshed(created_at, now) }
}

/// What an update does once the lookup is answered.
pub open spec fn update_step(
    id: NoteId,
    title: Option<Seq<char>>,
    content: Option<Seq<char>>,
    tags: Option<Seq<Tags>>,
    now: u64,
    lookup: StoreAnswerView,
) -> Result<StoreCallView, ServiceError> {
    match lookup {
        StoreAnswerView::One(Some(note)) => Ok(
            StoreCallView::UpdateOne(id, changes_at(title, content, tags, note.created_at, now)),
        ),
        StoreAnswerView::One(None) => Err(ServiceError::NotFound),
        _ => Err(failure_of(lookup)),
    }
}

/// Continues an update: the write of the supplied fields and the refreshed
/// modification time where the note was found, `NotFound` where it was not.
pub fn continue_update(
    id: NoteId,
    new_title: Option<String>,
    new_content: Option<String>,
    new_tags: Option<Vec<Tags>>,
    now: u64,
    lookup: &StoreAnswer,
) -> (step: Result<StoreCall, ServiceError>)
    ensures
        call_view(step) == update_step(
            id,
            text_of(new_title),
            text_of(new_content),
            tags_of(new_tags),
            now,
            lookup@,
        ),
{
    match lookup {
        StoreAnswer::One(Some(note)) => {
            let updated_at: u64 = if now >= note.created_at {
                now
            } else {
                note.created_at
            };
            Ok(
                StoreCall::UpdateOne(
                    id,
                    NoteChanges { title: new_title, content: new_content, tags: new_tags, updated_at },
                ),
            )
        },
        StoreAnswer::One(None) => Err(ServiceError::NotFound),
        _ => Err(failure(lookup)),
    }
}

/// How an update ends.
pub open spec fn update_result(answer: StoreAnswerView) -> Result<(), ServiceError> {
    match answer {
        StoreAnswerView::Updated(matched) => if matched == 0 {
            Err(ServiceError::NotFound)
        } else {
            Ok(())
        },
        _ => Err(failure_of(answer)),
    }
}

/// Ends an update: a write that matched no note found none.
pub fn finish_update(answer: &StoreAnswer) -> (result: Result<(), ServiceError>)
    ensures
        result == update_result(answer@),
{
    match answer {
        StoreAnswer::Updated(matched) => if *matched == 0 {
            Err(ServiceError::NotFound)
        } else {
            Ok(())
        },
        _ => Err(failure(answer)),
    }
}

// --------------------------------------------------------------- queries

/// A lookup by id asks for the one note with that id.
pub fn begin_find_by_id(id: NoteId) -> (call: StoreCall)
    ensures
        call@ == StoreCallView::FindOne(NoteFilterView::ById(id)),
{
    StoreCall::FindOne(NoteFilter::ById(id))
}

/// A lookup by title asks for the first note with exactly that title.
pub fn begin_find_by_title(title: String) -> (call: StoreCall)
    ensures
        call@ == StoreCallView::FindOne(NoteFilterView::ByTitle(title@)),
{
    StoreCall::FindOne(NoteFilter::ByTitle(title))
}

/// How a lookup ends.
pub open spec fn found_one(answer: StoreAnswerView) -> Result<Option<NoteView>, ServiceError> {
    match answer {
        StoreAnswerView::One(note) => Ok(note),
        _ => Err(failure_of(answer)),
    }
}

/// The outcome of a lookup, by its view.
pub open spec fn one_view(result: Result<Option<Note>, ServiceError>) -> Result<
    Option<NoteView>,
    ServiceError,
> {
    match result {
        Ok(note) => Ok(view_of(note)),
        Err(e) => Err(e),
    }
}

/// Ends a lookup: absence is an answer, not an error.
pub fn finish_find_one(answer: StoreAnswer) -> (result: Result<Option<Note>, ServiceError>)
    ensures
        one_view(result) == found_one(answer@),
{
    match answer {
        StoreAnswer::One(note) => Ok(note),
        other => Err(failure(&other)),
    }
}

/// The filter a tag query stands for: any of the tags, or every note where
/// no tags are given.
pub open spec fn tag_filter(tags: Option<Seq<Tags>>) -> NoteFilterView {
    match tags {
        Some(t) => NoteFilterView::AnyTag(t),
        None => NoteFilterView::All,
    }
}

/// A tag query asks for every selected note, unbounded and complete.
pub fn begin_find_notes(tags: Option<Vec<Tags>>) -> (call: StoreCall)
    ensures
        call@ == (StoreCallView::FindMany {
            filter: tag_filter(tags_of(tags)),
            skip: 0,
            limit: None,
            omit_content: false,
        }),
{
    let filter = match tags {
        Some(t) => NoteFilter::AnyTag(t),
        None => NoteFilter::All,
    };
    StoreCall::FindMany { filter, skip: 0, limit: None, omit_content: false }
}

/// How a query for many notes ends.
pub open spec fn found_many(answer: StoreAnswerView) -> Result<Seq<NoteView>, ServiceError> {
    match answer {
        StoreAnswerView::Many(notes) => Ok(notes),
        _ => Err(failure_of(answer)),
    }
}

/// The outcome of a query for many notes, by its view.
pub open spec fn many_view(result: Result<Vec<Note>, ServiceError>) -> Result<
    Seq<NoteView>,
    ServiceError,
> {
    match result {
        Ok(notes) => Ok(views(notes@)),
        Err(e) => Err(e),
    }
}

/// Ends a query for many notes.
pub fn finish_find_many(answer: StoreAnswer) -> (result: Result<Vec<Note>, ServiceError>)
    ensures
        many_view(result) == found_many(answer@),
{
    match answer {
        StoreAnswer::Many(notes) => Ok(notes),
        other => Err(failure(&other)),
    }
}

// ------------------------------------------------------------------ pages

/// How many notes come before page `page`, as far as a `u64` can say.
pub open spec fn page_skip(page: usize) -> u64 {
    if (page - 1) * PAGE_SIZE <= u64::MAX {
        ((page - 1) * PAGE_SIZE) as u64
    } else {
        u64::MAX
    }
}

/// What a page listing asks for.
pub open spec fn page_step(page: usize) -> Result<StoreCallView, ServiceError> {
    if page == 0 {
        Err(ServiceError::InvalidArgument)
    } else {
        Ok(
            StoreCallView::FindMany {
                filter: NoteFilterView::All,
                skip: page_skip(page),
                limit: Some(PAGE_SIZE),
                omit_content: true,
            },
        )
    }
}

/// Begins a page listing. Pages count from one: page zero is rejected.
/// Any other page asks for at most `PAGE_SIZE` notes of the whole
/// collection, without their content, after the notes of the pages before.
pub fn begin_page(page: usize) -> (step: Result<StoreCall, ServiceError>)
    ensures
        call_view(step) == page_step(page),
{
    if page == 0 {
        return Err(ServiceError::InvalidArgument);
    }
    let before: u64 = (page - 1) as u64;
    let skip: u64 = match before.checked_mul(PAGE_SIZE) {
        Some(s) => s,
        None => u64::MAX,
    };
    Ok(StoreCall::FindMany { filter: NoteFilter::All, skip, limit: Some(PAGE_SIZE), omit_content: true })
}

/// The first `PAGE_SIZE` notes of a list, or all of it.
pub open spec fn first_page(notes: Seq<NoteView>) -> Seq<NoteView> {
    if notes.len() <= PAGE_SIZE {
        notes
    } else {
        notes.subrange(0, PAGE_SIZE as int)
    }
}

/// How a page listing ends.
pub open spec fn page_result(answer: StoreAnswerView) -> Result<Seq<NotePreviewView>, ServiceError> {
    match answer {
        StoreAnswerView::Many(notes) => Ok(previews(first_page(notes))),
        _ => Err(failure_of(answer)),
    }
}

/// The outcome of a page listing, by its view.
pub open spec fn page_view(result: Result<Vec<NotePreview>, ServiceError>) -> Result<
    Seq<NotePreviewView>,
    ServiceError,
> {
    match result {
        Ok(list) => Ok(preview_views(list@)),
        Err(e) => Err(e),
    }
}

/// Ends a page listing: the previews of what the storage returned, cut to
/// `PAGE_SIZE`, so that no page is ever longer whatever the storage did.
pub fn finish_page(answer: &StoreAnswer) -> (result: Result<Vec<NotePreview>, ServiceError>)
    ensures
        page_view(result) == page_result(answer@),
        result matches Ok(list) ==> list@.len() <= PAGE_SIZE,
{
    match answer {
        StoreAnswer::Many(notes) => {
            let mut list: Vec<NotePreview> = Vec::new();
            let mut i: usize = 0;
            while i < notes.len() && i < PAGE_SIZE as usize
                invariant
                    i <= notes.len(),
                    i <= PAGE_SIZE,
                    preview_views(list@) == previews(views(notes@).subrange(0, i as int)),
                decreases notes.len() - i,
            {
                let ghost before = preview_views(list@);
                list.push(notes[i].preview());
                i += 1;
                assert(preview_views(list@) =~= before.push(notes@[i - 1]@.preview()));
                assert(preview_views(list@) =~= previews(views(notes@).subrange(0, i as int)));
            }
            assert(views(notes@).subrange(0, i as int) =~= first_page(views(notes@)));
            Ok(list)
        },
        _ => Err(failure(answer)),
    }
}

} // verus!
