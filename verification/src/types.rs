//! The persisted entities and their mathematical views.

use vstd::prelude::*;

verus! {

/// The closed vocabulary a note can be tagged from.
#[derive(Clone, Copy, Debug, PartialEq, Eq, Structural)]
pub enum Tags {
    RiscV,
    Linux,
    Windows,
    Kernel,
}

impl Tags {
    /// The canonical name of the tag, as it is stored and sent.
    pub open spec fn spec_name(self) -> Seq<char> {
        match self {
            Tags::RiscV => "RiscV"@,
            Tags::Linux => "Linux"@,
            Tags::Windows => "Windows"@,
            Tags::Kernel => "Kernel"@,
        }
    }

    /// The tag a canonical name stands for.
    pub open spec fn spec_from_name(name: Seq<char>) -> Option<Tags> {
        if name == "RiscV"@ {
            Some(Tags::RiscV)
        } else if name == "Linux"@ {
            Some(Tags::Linux)
        } else if name == "Windows"@ {
            Some(Tags::Windows)
        } else if name == "Kernel"@ {
            Some(Tags::Kernel)
        } else {
            None
        }
    }

    /// The canonical name of the tag.
    pub fn name(self) -> (text: String)
        ensures
            text@ == self.spec_name(),
    {
        match self {
            Tags::RiscV => "RiscV".to_owned(),
            Tags::Linux => "Linux".to_owned(),
            Tags::Windows => "Windows".to_owned(),
            Tags::Kernel => "Kernel".to_owned(),
        }
    }

    /// The tag a canonical name stands for; any other text names no tag.
    pub fn from_name(name: &String) -> (tag: Option<Tags>)
        ensures
            tag == Tags::spec_from_name(name@),
    {
        if *name == "RiscV".to_owned() {
            Some(Tags::RiscV)
        } else if *name == "Linux".to_owned() {
            Some(Tags::Linux)
        } else if *name == "Windows".to_owned() {
            Some(Tags::Windows)
        } else if *name == "Kernel".to_owned() {
            Some(Tags::Kernel)
        } else {
            None
        }
    }

    /// A tag's name stands for that tag and no other.
    pub proof fn name_round_trip(self)
        ensures
            Tags::spec_from_name(self.spec_name()) == Some(self),
    {
        reveal_strlit("RiscV");
        reveal_strlit("Linux");
        reveal_strlit("Windows");
        reveal_strlit("Kernel");
        assert("RiscV"@[0] != "Linux"@[0]);
        assert("RiscV"@.len() != "Windows"@.len());
        assert("RiscV"@.len() != "Kernel"@.len());
        assert("Linux"@.len() != "Windows"@.len());
        assert("Linux"@.len() != "Kernel"@.len());
        assert("Windows"@.len() != "Kernel"@.len());
    }
}

/// The 128-bit identity of a note, as the big-endian reading of a UUID's
/// sixteen bytes.
#[derive(Clone, Copy, Debug, PartialEq, Eq, Structural)]
pub struct NoteId {
    pub bits: u128,
}

/// A persisted note.
#[derive(Debug, PartialEq, Eq)]
pub struct Note {
    pub id: NoteId,
    pub title: String,
    /// Markdown text; `None` is distinct from the empty string.
    pub content: Option<String>,
    /// Seconds since the epoch, set once.
    pub created_at: u64,
    /// Seconds since the epoch, refreshed by every mutation.
    pub updated_at: u64,
    pub tags: Vec<Tags>,
}

/// What a note is, independent of how its text and tag list are stored.
#[verifier::ext_equal]
pub struct NoteView {
    pub id: NoteId,
    pub title: Seq<char>,
    pub content: Option<Seq<char>>,
    pub created_at: u64,
    pub updated_at: u64,
    pub tags: Seq<Tags>,
}

/// A note as a page listing shows it: every field but the content.
#[derive(Debug, PartialEq, Eq)]
pub struct NotePreview {
    pub id: NoteId,
    pub title: String,
    pub created_at: u64,
    pub updated_at: u64,
    pub tags: Vec<Tags>,
}

/// What a preview is, independent of how its text and tag list are stored.
#[verifier::ext_equal]
pub struct NotePreviewView {
    pub id: NoteId,
    pub title: Seq<char>,
    pub created_at: u64,
    pub updated_at: u64,
    pub tags: Seq<Tags>,
}

/// The text of an optional string.
pub open spec fn text_of(s: Option<String>) -> Option<Seq<char>> {
    match s {
        Some(t) => Some(t@),
        None => None,
    }
}

impl View for Note {
    type V = NoteView;

    open spec fn view(&self) -> NoteView {
        NoteView {
            id: self.id,
            title: self.title@,
            content: text_of(self.content),
            created_at: self.created_at,
            updated_at: self.updated_at,
            tags: self.tags@,
        }
    }
}

impl View for NotePreview {
    type V = NotePreviewView;

    open spec fn view(&self) -> NotePreviewView {
        NotePreviewView {
            id: self.id,
            title: self.title@,
            created_at: self.created_at,
            updated_at: self.updated_at,
            tags: self.tags@,
        }
    }
}

impl NoteView {
    /// A note never claims to have been changed before it was made.
    pub open spec fn well_formed(self) -> bool {
        self.created_at <= self.updated_at
    }

    /// The projection a page listing applies: the content is left out.
    pub open spec fn preview(self) -> NotePreviewView {
        NotePreviewView {
            id: self.id,
            title: self.title,
            created_at: self.created_at,
            updated_at: self.updated_at,
            tags: self.tags,
        }
    }

    /// Whether the note carries at least one of `wanted`.
    pub open spec fn has_any_tag(self, wanted: Seq<Tags>) -> bool {
        exists|i: int, j: int|
            0 <= i < self.tags.len() && 0 <= j < wanted.len() && #[trigger] self.tags[i]
                == #[trigger] wanted[j]
    }
}

/// A copy of a tag list.
pub fn copy_tags(tags: &Vec<Tags>) -> (out: Vec<Tags>)
    ensures
        out@ == tags@,
{
    let mut out: Vec<Tags> = Vec::new();
    let mut i: usize = 0;
    while i < tags.len()
        invariant
            i <= tags.len(),
            out@ == tags@.subrange(0, i as int),
        decreases tags.len() - i,
    {
        out.push(tags[i]);
        i += 1;
        assert(out@ == tags@.subrange(0, i as int));
    }
    assert(tags@.subrange(0, tags.len() as int) == tags@);
    out
}

/// A copy of an optional text.
pub fn copy_text(text: &Option<String>) -> (out: Option<String>)
    ensures
        text_of(out) == text_of(*text),
{
    match text {
        Some(t) => Some(t.clone()),
        None => None,
    }
}

impl Clone for Note {
    fn clone(&self) -> (out: Note)
        ensures
            out@ == self@,
    {
        Note {
            id: self.id,
            title: self.title.clone(),
            content: copy_text(&self.content),
            created_at: self.created_at,
            updated_at: self.updated_at,
            tags: copy_tags(&self.tags),
        }
    }
}

/// The note that creation at `now` makes of its arguments.
pub open spec fn new_note(
    id: NoteId,
    title: Seq<char>,
    content: Seq<char>,
    tags: Seq<Tags>,
    now: u64,
) -> NoteView {
    NoteView { id, title, content: Some(content), created_at: now, updated_at: now, tags }
}

/// The previews of a list of notes.
pub open spec fn previews(notes: Seq<NoteView>) -> Seq<NotePreviewView> {
    notes.map_values(|n: NoteView| n.preview())
}

/// A list of previews, each by its view.
pub open spec fn preview_views(list: Seq<NotePreview>) -> Seq<NotePreviewView> {
    list.map_values(|p: NotePreview| p@)
}

impl Note {
    /// A note created at `now`: both timestamps are that moment.
    pub fn new(id: NoteId, title: String, content: String, tags: Vec<Tags>, now: u64) -> (note: Note)
        ensures
            note@ == new_note(id, title@, content@, tags@, now),
            note@.well_formed(),
    {
        Note { id, title, content: Some(content), created_at: now, updated_at: now, tags }
    }

    /// The preview of this note: a copy of every field but the content.
    pub fn preview(&self) -> (out: NotePreview)
        ensures
            out@ == self@.preview(),
    {
        NotePreview {
            id: self.id,
            title: self.title.clone(),
            created_at: self.created_at,
            updated_at: self.updated_at,
            tags: copy_tags(&self.tags),
        }
    }

    /// Whether the note carries at least one of `wanted`.
    pub fn has_any_tag(&self, wanted: &Vec<Tags>) -> (found: bool)
        ensures
            found == self@.has_any_tag(wanted@),
    {
        let mut i: usize = 0;
        while i < self.tags.len()
            invariant
                i <= self.tags.len(),
                forall|a: int, b: int|
                    0 <= a < i && 0 <= b < wanted@.len() ==> #[trigger] self.tags@[a]
                        != #[trigger] wanted@[b],
            decreases self.tags.len() - i,
        {
            let mut j: usize = 0;
            while j < wanted.len()
                invariant
                    i < self.tags.len(),
                    j <= wanted.len(),
                    forall|b: int| 0 <= b < j ==> self.tags@[i as int] != #[trigger] wanted@[b],
                decreases wanted.len() - j,
            {
                if self.tags[i] == wanted[j] {
                    assert(self@.tags[i as int] == wanted@[j as int]);
                    return true;
                }
                j += 1;
            }
            i += 1;
        }
        false
    }
}

} // verus!
