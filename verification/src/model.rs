//! The document collection as mathematics: a sequence of notes in storage
//! order, and what each storage call answers and leaves behind.

use vstd::prelude::*;
use crate::error::StorageFault;
use crate::plan::{changes_at, PAGE_SIZE};
use crate::store::{NoteChangesView, NoteFilterView, StoreAnswerView, StoreCallView};
use crate::types::{previews, NoteId, NotePreviewView, NoteView, Tags};

verus! {

/// The filter as a predicate.
pub open spec fn selector(filter: NoteFilterView) -> spec_fn(NoteView) -> bool {
    |n: NoteView| filter.matches(n)
}

/// The notes the filter selects, in storage order.
pub open spec fn select(s: Seq<NoteView>, filter: NoteFilterView) -> Seq<NoteView> {
    s.filter(selector(filter))
}

/// Whether `i` is the position of the first note the filter selects.
pub open spec fn is_first_match(s: Seq<NoteView>, filter: NoteFilterView, i: int) -> bool {
    &&& 0 <= i < s.len()
    &&& filter.matches(s[i])
    &&& forall|k: int| 0 <= k < i ==> !filter.matches(#[trigger] s[k])
}

/// Whether the filter selects anything.
pub open spec fn any_match(s: Seq<NoteView>, filter: NoteFilterView) -> bool {
    exists|i: int| 0 <= i < s.len() && filter.matches(#[trigger] s[i])
}

/// The first note, in storage order, that the filter selects.
pub open spec fn first_match(s: Seq<NoteView>, filter: NoteFilterView) -> Option<NoteView> {
    if any_match(s, filter) {
        Some(s[choose|i: int| is_first_match(s, filter, i)])
    } else {
        None
    }
}

/// Whether a note with this id is stored.
pub open spec fn has_id(s: Seq<NoteView>, id: NoteId) -> bool {
    exists|i: int| 0 <= i < s.len() && (#[trigger] s[i]).id == id
}

/// No id is stored twice.
pub open spec fn ids_unique(s: Seq<NoteView>) -> bool {
    forall|i: int, j: int| 0 <= i < j < s.len() ==> (#[trigger] s[i]).id != (#[trigger] s[j]).id
}

/// The position of the note with this id.
pub open spec fn index_of(s: Seq<NoteView>, id: NoteId) -> int {
    choose|i: int| 0 <= i < s.len() && (#[trigger] s[i]).id == id
}

/// The note with this id, if it is stored.
pub open spec fn lookup(s: Seq<NoteView>, id: NoteId) -> Option<NoteView> {
    if has_id(s, id) {
        Some(s[index_of(s, id)])
    } else {
        None
    }
}

/// The collection after the note with this id is removed.
pub open spec fn without_id(s: Seq<NoteView>, id: NoteId) -> Seq<NoteView> {
    if has_id(s, id) {
        s.remove(index_of(s, id))
    } else {
        s
    }
}

/// The collection after the changes are written into the note with this id.
pub open spec fn with_changes(s: Seq<NoteView>, id: NoteId, changes: NoteChangesView) -> Seq<
    NoteView,
> {
    if has_id(s, id) {
        s.update(index_of(s, id), changes.apply(s[index_of(s, id)]))
    } else {
        s
    }
}

/// How many notes carry this id in a collection without duplicates.
pub open spec fn count_of(s: Seq<NoteView>, id: NoteId) -> u64 {
    if has_id(s, id) {
        1
    } else {
        0
    }
}

/// What is left of `s` after skipping `skip` notes and keeping at most
/// `limit` of the rest.
pub open spec fn window(s: Seq<NoteView>, skip: u64, limit: Option<u64>) -> Seq<NoteView> {
    let from = if skip <= s.len() {
        skip as int
    } else {
        s.len() as int
    };
    let to = match limit {
        Some(l) => if from + l <= s.len() {
            from + l
        } else {
            s.len() as int
        },
        None => s.len() as int,
    };
    s.subrange(from, to)
}

/// A note as a projection without content returns it.
pub open spec fn strip(n: NoteView) -> NoteView {
    NoteView {
        id: n.id,
        title: n.title,
        content: None,
        created_at: n.created_at,
        updated_at: n.updated_at,
        tags: n.tags,
    }
}

/// The notes as a query returns them, with or without their content.
pub open spec fn project(s: Seq<NoteView>, omit_content: bool) -> Seq<NoteView> {
    if omit_content {
        s.map_values(|n: NoteView| strip(n))
    } else {
        s
    }
}

/// What a collection holding `s`, with no id twice, answers to `call`.
pub open spec fn answer_to(s: Seq<NoteView>, call: StoreCallView) -> StoreAnswerView {
    match call {
        StoreCallView::InsertOne(note) => if has_id(s, note.id) {
            StoreAnswerView::Failed(StorageFault::DuplicateId)
        } else {
            StoreAnswerView::Inserted
        },
        StoreCallView::FindOne(filter) => StoreAnswerView::One(first_match(s, filter)),
        StoreCallView::FindMany { filter, skip, limit, omit_content } => StoreAnswerView::Many(
            project(window(select(s, filter), skip, limit), omit_content),
        ),
        StoreCallView::DeleteOne(id) => StoreAnswerView::Deleted(count_of(s, id)),
        StoreCallView::UpdateOne(id, changes) => StoreAnswerView::Updated(count_of(s, id)),
    }
}

/// What a collection holding `s`, with no id twice, holds after `call`.
pub open spec fn state_after(s: Seq<NoteView>, call: StoreCallView) -> Seq<NoteView> {
    match call {
        StoreCallView::InsertOne(note) => if has_id(s, note.id) {
            s
        } else {
            s.push(note)
        },
        StoreCallView::DeleteOne(id) => without_id(s, id),
        StoreCallView::UpdateOne(id, changes) => with_changes(s, id, changes),
        _ => s,
    }
}

/// What the store keeps true of its notes: no id twice, and no note changed
/// before it was created.
pub open spec fn store_wf(s: Seq<NoteView>) -> bool {
    &&& ids_unique(s)
    &&& forall|i: int| 0 <= i < s.len() ==> (#[trigger] s[i]).well_formed()
}

/// The collection after an update of the note `id` at `now`: the supplied
/// fields replace the old ones, and the modification time is refreshed.
pub open spec fn after_update(
    s: Seq<NoteView>,
    id: NoteId,
    title: Option<Seq<char>>,
    content: Option<Seq<char>>,
    tags: Option<Seq<Tags>>,
    now: u64,
) -> Seq<NoteView> {
    with_changes(s, id, changes_at(title, content, tags, s[index_of(s, id)].created_at, now))
}

/// Page `page` of the collection, counted from one: the previews of the
/// notes at positions `(page - 1) * PAGE_SIZE` up to, and not including,
/// `page * PAGE_SIZE`, as far as they exist.
pub open spec fn page_of(s: Seq<NoteView>, page: int) -> Seq<NotePreviewView> {
    let from = if (page - 1) * PAGE_SIZE <= s.len() {
        (page - 1) * PAGE_SIZE
    } else {
        s.len() as int
    };
    let to = if from + PAGE_SIZE <= s.len() {
        from + PAGE_SIZE
    } else {
        s.len() as int
    };
    previews(s.subrange(from, to))
}

/// Where no id is stored twice, the note at a position is the note with
/// its id.
pub proof fn lemma_lookup_at(s: Seq<NoteView>, i: int)
    requires
        ids_unique(s),
        0 <= i < s.len(),
    ensures
        has_id(s, s[i].id),
        index_of(s, s[i].id) == i,
        lookup(s, s[i].id) == Some(s[i]),
{
    let j = index_of(s, s[i].id);
    if j < i {
        assert(s[j].id != s[i].id);
    }
    if i < j {
        assert(s[i].id != s[j].id);
    }
}

/// Where no id is stored twice, the first note with an id is the note with
/// that id.
pub proof fn lemma_first_match_by_id(s: Seq<NoteView>, id: NoteId)
    requires
        ids_unique(s),
    ensures
        first_match(s, NoteFilterView::ById(id)) == lookup(s, id),
        any_match(s, NoteFilterView::ById(id)) == has_id(s, id),
{
    let filter = NoteFilterView::ById(id);
    if has_id(s, id) {
        let i = index_of(s, id);
        assert(filter.matches(s[i]));
        assert(is_first_match(s, filter, i)) by {
            assert forall|k: int| 0 <= k < i implies !filter.matches(#[trigger] s[k]) by {
                assert(s[k].id != s[i].id);
            }
        }
        let j = choose|j: int| is_first_match(s, filter, j);
        assert(s[j].id == id);
        if j < i {
            assert(s[j].id != s[i].id);
        }
        if i < j {
            assert(s[i].id != s[j].id);
        }
    } else {
        if any_match(s, filter) {
            let w = choose|w: int| 0 <= w < s.len() && filter.matches(#[trigger] s[w]);
            assert(s[w].id == id);
        }
    }
}

/// Selecting from a collection with one more note at its end.
pub proof fn lemma_select_push(s: Seq<NoteView>, filter: NoteFilterView, n: NoteView)
    ensures
        select(s.push(n), filter) == if filter.matches(n) {
            select(s, filter).push(n)
        } else {
            select(s, filter)
        },
{
    reveal(Seq::filter);
    assert(s.push(n).drop_last() =~= s);
}

/// Every selected note is stored, and satisfies the filter.
pub proof fn lemma_select_sound(s: Seq<NoteView>, filter: NoteFilterView)
    ensures
        select(s, filter).len() <= s.len(),
        forall|k: int|
            0 <= k < select(s, filter).len() ==> filter.matches(#[trigger] select(s, filter)[k])
                && s.contains(select(s, filter)[k]),
    decreases s.len(),
{
    reveal(Seq::filter);
    if s.len() > 0 {
        let front = s.drop_last();
        lemma_select_sound(front, filter);
        assert forall|k: int| 0 <= k < select(s, filter).len() implies filter.matches(
            #[trigger] select(s, filter)[k],
        ) && s.contains(select(s, filter)[k]) by {
            if k < select(front, filter).len() {
                let x = select(front, filter)[k];
                assert(front.contains(x));
                let w = choose|w: int| 0 <= w < front.len() && front[w] == x;
                assert(s[w] == x);
            } else {
                assert(s[s.len() - 1] == s.last());
            }
        }
    }
}

/// Every stored note that satisfies the filter is selected.
pub proof fn lemma_select_complete(s: Seq<NoteView>, filter: NoteFilterView, i: int)
    requires
        0 <= i < s.len(),
        filter.matches(s[i]),
    ensures
        select(s, filter).contains(s[i]),
    decreases s.len(),
{
    reveal(Seq::filter);
    let front = s.drop_last();
    if i < s.len() - 1 {
        lemma_select_complete(front, filter, i);
        let w = choose|w: int| 0 <= w < select(front, filter).len() && select(front, filter)[w]
            == front[i];
        assert(select(s, filter)[w] == s[i]);
    } else {
        assert(select(s, filter).last() == s[i]);
    }
}

/// The filter that selects everything selects the whole collection.
pub proof fn lemma_select_all(s: Seq<NoteView>)
    ensures
        select(s, NoteFilterView::All) == s,
    decreases s.len(),
{
    reveal(Seq::filter);
    if s.len() > 0 {
        lemma_select_all(s.drop_last());
        assert(s.drop_last().push(s.last()) =~= s);
    }
}

} // verus!
