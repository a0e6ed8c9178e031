//! What holds of the store across operations, proved of the collection's
//! model.

use vstd::prelude::*;
use crate::model::{
    after_update, has_id, ids_unique, index_of, lemma_lookup_at, lemma_select_all,
    lemma_select_complete, lemma_select_sound, lookup, page_of, select, store_wf, without_id,
};
use crate::plan::{refreshed, PAGE_SIZE};
use crate::store::NoteFilterView;
use crate::types::{new_note, NoteId, NoteView, Tags};

verus! {

/// A note that was created is found under its id exactly as it was created:
/// with the given title, content and tags, and with equal timestamps. The
/// notes stored before stay as they were.
pub proof fn create_then_get(
    s: Seq<NoteView>,
    id: NoteId,
    title: Seq<char>,
    content: Seq<char>,
    tags: Seq<Tags>,
    now: u64,
)
    requires
        store_wf(s),
        !has_id(s, id),
    ensures
        store_wf(s.push(new_note(id, title, content, tags, now))),
        lookup(s.push(new_note(id, title, content, tags, now)), id) == Some(
            new_note(id, title, content, tags, now),
        ),
        new_note(id, title, content, tags, now).title == title,
        new_note(id, title, content, tags, now).content == Some(content),
        new_note(id, title, content, tags, now).tags == tags,
        new_note(id, title, content, tags, now).created_at == new_note(
            id,
            title,
            content,
            tags,
            now,
        ).updated_at,
        forall|other: NoteId|
            other != id ==> #[trigger] lookup(
                s.push(new_note(id, title, content, tags, now)),
                other,
            ) == lookup(s, other),
{
    let note = new_note(id, title, content, tags, now);
    let t = s.push(note);
    assert(ids_unique(t)) by {
        assert forall|i: int, j: int| 0 <= i < j < t.len() implies (#[trigger] t[i]).id != (
        #[trigger] t[j]).id by {
            if j == s.len() {
                assert(s[i].id != id);
            } else {
                assert(s[i].id != s[j].id);
            }
        }
    }
    assert(store_wf(t)) by {
        assert forall|i: int| 0 <= i < t.len() implies (#[trigger] t[i]).well_formed() by {
            if i < s.len() {
                assert(s[i].well_formed());
            }
        }
    }
    lemma_lookup_at(t, s.len() as int);
    assert forall|other: NoteId| other != id implies #[trigger] lookup(t, other) == lookup(
        s,
        other,
    ) by {
        if has_id(s, other) {
            let i = index_of(s, other);
            lemma_lookup_at(s, i);
            assert(t[i] == s[i]);
            lemma_lookup_at(t, i);
        } else if has_id(t, other) {
            let i = index_of(t, other);
            assert(i < s.len());
            assert(s[i].id == other);
        }
    }
}

/// After an update the note is found with each supplied field replaced and
/// each omitted field, its id and its creation time unchanged. Its
/// modification time is the time of the update wherever the clock has not
/// gone back behind the note's creation, so it grows strictly whenever the
/// clock has advanced. The other notes stay as they were.
pub proof fn update_then_get(
    s: Seq<NoteView>,
    id: NoteId,
    title: Option<Seq<char>>,
    content: Option<Seq<char>>,
    tags: Option<Seq<Tags>>,
    now: u64,
)
    requires
        store_wf(s),
        has_id(s, id),
    ensures
        store_wf(after_update(s, id, title, content, tags, now)),
        lookup(after_update(s, id, title, content, tags, now), id) is Some,
        ({
            let before = lookup(s, id)->Some_0;
            let after = lookup(after_update(s, id, title, content, tags, now), id)->Some_0;
            &&& after.id == id
            &&& after.created_at == before.created_at
            &&& after.updated_at == refreshed(before.created_at, now)
            &&& now > before.updated_at ==> after.updated_at == now && after.updated_at
                > before.updated_at
            &&& title matches Some(x) ==> after.title == x
            &&& title is None ==> after.title == before.title
            &&& content matches Some(x) ==> after.content == Some(x)
            &&& content is None ==> after.content == before.content
            &&& tags matches Some(x) ==> after.tags == x
            &&& tags is None ==> after.tags == before.tags
        }),
        forall|other: NoteId|
            other != id ==> #[trigger] lookup(
                after_update(s, id, title, content, tags, now),
                other,
            ) == lookup(s, other),
{
    let i = index_of(s, id);
    let t = after_update(s, id, title, content, tags, now);
    lemma_lookup_at(s, i);
    assert(s[i].well_formed());
    assert(t.len() == s.len());
    assert(t[i].id == id);
    assert(ids_unique(t)) by {
        assert forall|a: int, b: int| 0 <= a < b < t.len() implies (#[trigger] t[a]).id != (
        #[trigger] t[b]).id by {
            assert(s[a].id != s[b].id);
        }
    }
    assert(store_wf(t)) by {
        assert forall|k: int| 0 <= k < t.len() implies (#[trigger] t[k]).well_formed() by {
            assert(s[k].well_formed());
        }
    }
    lemma_lookup_at(t, i);
    assert forall|other: NoteId| other != id implies #[trigger] lookup(t, other) == lookup(
        s,
        other,
    ) by {
        if has_id(s, other) {
            let k = index_of(s, other);
            lemma_lookup_at(s, k);
            assert(t[k] == s[k]);
            lemma_lookup_at(t, k);
        } else if has_id(t, other) {
            let k = index_of(t, other);
            assert(s[k].id == other);
        }
    }
}

/// After a note is deleted no note is found under its id. The other notes
/// stay as they were.
pub proof fn delete_then_get(s: Seq<NoteView>, id: NoteId)
    requires
        store_wf(s),
        has_id(s, id),
    ensures
        store_wf(without_id(s, id)),
        lookup(without_id(s, id), id) is None,
        without_id(s, id).len() == s.len() - 1,
        forall|other: NoteId|
            other != id ==> #[trigger] lookup(without_id(s, id), other) == lookup(s, other),
{
    let i = index_of(s, id);
    let t = without_id(s, id);
    lemma_lookup_at(s, i);
    assert forall|k: int| 0 <= k < t.len() implies (#[trigger] t[k]) == s[if k < i {
        k
    } else {
        k + 1
    }] by {}
    assert(ids_unique(t)) by {
        assert forall|a: int, b: int| 0 <= a < b < t.len() implies (#[trigger] t[a]).id != (
        #[trigger] t[b]).id by {
            let a0 = if a < i {
                a
            } else {
                a + 1
            };
            let b0 = if b < i {
                b
            } else {
                b + 1
            };
            assert(s[a0].id != s[b0].id);
        }
    }
    assert(store_wf(t)) by {
        assert forall|k: int| 0 <= k < t.len() implies (#[trigger] t[k]).well_formed() by {
            let k0 = if k < i {
                k
            } else {
                k + 1
            };
            assert(s[k0].well_formed());
        }
    }
    if has_id(t, id) {
        let k = index_of(t, id);
        let k0 = if k < i {
            k
        } else {
            k + 1
        };
        assert(t[k] == s[k0]);
        if k0 < i {
            assert(s[k0].id != s[i].id);
        } else {
            assert(s[i].id != s[k0].id);
        }
    }
    assert forall|other: NoteId| other != id implies #[trigger] lookup(t, other) == lookup(
        s,
        other,
    ) by {
        if has_id(s, other) {
            let k0 = index_of(s, other);
            lemma_lookup_at(s, k0);
            let k = if k0 < i {
                k0
            } else {
                k0 - 1
            };
            assert(t[k] == s[k0]);
            lemma_lookup_at(t, k);
        } else if has_id(t, other) {
            let k = index_of(t, other);
            let k0 = if k < i {
                k
            } else {
                k + 1
            };
            assert(t[k] == s[k0]);
            assert(s[k0].id == other);
        }
    }
}

/// Every stored note has a title.
pub open spec fn all_titled(s: Seq<NoteView>) -> bool {
    forall|i: int| 0 <= i < s.len() ==> (#[trigger] s[i]).title.len() > 0
}

/// The store keeps titles non-empty as long as it is given none that is
/// empty: creation with a title, an update that supplies a title or leaves
/// the old one, and deletion all keep every stored title non-empty.
pub proof fn titles_stay_nonempty(
    s: Seq<NoteView>,
    id: NoteId,
    title: Seq<char>,
    new_title: Option<Seq<char>>,
    content: Seq<char>,
    new_content: Option<Seq<char>>,
    tags: Seq<Tags>,
    new_tags: Option<Seq<Tags>>,
    now: u64,
)
    requires
        all_titled(s),
        title.len() > 0,
        new_title matches Some(t) ==> t.len() > 0,
    ensures
        all_titled(s.push(new_note(id, title, content, tags, now))),
        all_titled(after_update(s, id, new_title, new_content, new_tags, now)),
        all_titled(without_id(s, id)),
{
    let created = s.push(new_note(id, title, content, tags, now));
    assert forall|i: int| 0 <= i < created.len() implies (#[trigger] created[i]).title.len()
        > 0 by {
        if i < s.len() {
            assert(s[i].title.len() > 0);
        }
    }
    let updated = after_update(s, id, new_title, new_content, new_tags, now);
    assert forall|i: int| 0 <= i < updated.len() implies (#[trigger] updated[i]).title.len()
        > 0 by {
        assert(s[i].title.len() > 0);
    }
    let reduced = without_id(s, id);
    assert forall|i: int| 0 <= i < reduced.len() implies (#[trigger] reduced[i]).title.len()
        > 0 by {
        if has_id(s, id) {
            let at = index_of(s, id);
            let origin = if i < at {
                i
            } else {
                i + 1
            };
            assert(reduced[i] == s[origin]);
            assert(s[origin].title.len() > 0);
        } else {
            assert(s[i].title.len() > 0);
        }
    }
}

/// No page holds more than `PAGE_SIZE` notes, whatever is stored and
/// whichever page is asked for.
pub proof fn page_is_bounded(s: Seq<NoteView>, page: int)
    requires
        page >= 1,
    ensures
        page_of(s, page).len() <= PAGE_SIZE,
{
}

/// Asking without tags returns every note, and asking with tags returns
/// only notes that asking without tags returns too: each of them carries
/// one of the tags and is stored.
pub proof fn tagged_within_all(s: Seq<NoteView>, tags: Seq<Tags>)
    ensures
        select(s, NoteFilterView::All) == s,
        select(s, NoteFilterView::AnyTag(tags)).len() <= select(s, NoteFilterView::All).len(),
        forall|n: NoteView|
            #[trigger] select(s, NoteFilterView::AnyTag(tags)).contains(n) ==> select(
                s,
                NoteFilterView::All,
            ).contains(n) && n.has_any_tag(tags),
{
    lemma_select_all(s);
    lemma_select_sound(s, NoteFilterView::AnyTag(tags));
    let picked = select(s, NoteFilterView::AnyTag(tags));
    assert forall|n: NoteView| #[trigger] picked.contains(n) implies s.contains(n)
        && n.has_any_tag(tags) by {
        let k = choose|k: int| 0 <= k < picked.len() && picked[k] == n;
        assert(NoteFilterView::AnyTag(tags).matches(picked[k]));
    }
}

/// Asking with tags misses nothing: every stored note that carries one of
/// the tags is returned.
pub proof fn tagged_are_found(s: Seq<NoteView>, tags: Seq<Tags>, i: int)
    requires
        0 <= i < s.len(),
        s[i].has_any_tag(tags),
    ensures
        select(s, NoteFilterView::AnyTag(tags)).contains(s[i]),
{
    lemma_select_complete(s, NoteFilterView::AnyTag(tags), i);
}

} // verus!
