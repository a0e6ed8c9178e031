//! The note handlers: how a request's text becomes arguments, and how an
//! outcome becomes a reply.

use vstd::prelude::*;
use crate::db::NoteService;
use crate::error::{ServiceError, StorageFault};
use crate::ident::{is_random_uuid, parse_note_id, parsed_uuid};
use crate::model::{first_match, has_id, page_of, without_id};
use crate::store::NoteFilterView;
use crate::types::{
    new_note, preview_views, Note, NoteId, NotePreview, NotePreviewView, NoteView, Tags,
};

verus! {

/// The body of a request to create a note.
#[derive(Debug, PartialEq, Eq)]
pub struct CreateNoteRequest {
    pub title: String,
    pub content: String,
    pub tags: Vec<Tags>,
}

// ------------------------------------------------------------ page numbers

/// Whether the character is a decimal digit.
pub open spec fn is_digit(c: char) -> bool {
    '0' <= c <= '9'
}

/// The number a string of decimal digits stands for.
pub open spec fn decimal_value(digits: Seq<char>) -> nat
    decreases digits.len(),
{
    if digits.len() == 0 {
        0
    } else {
        decimal_value(digits.drop_last()) * 10 + (digits.last() as nat - '0' as nat) as nat
    }
}

/// The digits of a number's text: the text without one leading plus sign.
pub open spec fn digits_of(text: Seq<char>) -> Seq<char> {
    if text.len() > 0 && text[0] == '+' {
        text.subrange(1, text.len() as int)
    } else {
        text
    }
}

/// The number a text stands for: at least one decimal digit and nothing
/// else, after an optional plus sign, with a value that fits.
pub open spec fn number_of(text: Seq<char>) -> Option<usize> {
    let digits = digits_of(text);
    if digits.len() > 0 && (forall|i: int| 0 <= i < digits.len() ==> is_digit(#[trigger] digits[i]))
        && decimal_value(digits) <= usize::MAX {
        Some(decimal_value(digits) as usize)
    } else {
        None
    }
}

/// The value of a digit string is at least the value of each of its
/// beginnings.
proof fn lemma_decimal_grows(digits: Seq<char>, n: int)
    requires
        0 <= n <= digits.len(),
    ensures
        decimal_value(digits.subrange(0, n)) <= decimal_value(digits),
    decreases digits.len() - n,
{
    if n == digits.len() {
        assert(digits.subrange(0, n) =~= digits);
    } else {
        lemma_decimal_grows(digits, n + 1);
        assert(digits.subrange(0, n + 1).drop_last() =~= digits.subrange(0, n));
    }
}

/// Reads a non-negative decimal number.
pub fn parse_number(text: &str) -> (number: Option<usize>)
    ensures
        number == number_of(text@),
{
    let len: usize = text.unicode_len();
    let start: usize = if len > 0 && text.get_char(0) == '+' {
        1
    } else {
        0
    };
    if start == len {
        return None;
    }
    let ghost digits = digits_of(text@);
    let mut value: usize = 0;
    let mut i: usize = start;
    assert(digits.subrange(0, 0) =~= Seq::<char>::empty());
    while i < len
        invariant
            start <= i <= len,
            len == text@.len(),
            digits == digits_of(text@),
            digits.len() == len - start,
            forall|k: int| 0 <= k < digits.len() ==> digits[k] == text@[k + start],
            forall|k: int| 0 <= k < i - start ==> is_digit(#[trigger] digits[k]),
            value == decimal_value(digits.subrange(0, i - start)),
        decreases len - i,
    {
        let c = text.get_char(i);
        assert(c == digits[i - start]);
        if !('0' <= c && c <= '9') {
            return None;
        }
        let digit: usize = (c as u32 - '0' as u32) as usize;
        proof {
            assert(digits.subrange(0, i - start + 1).drop_last() =~= digits.subrange(0, i - start));
            lemma_decimal_grows(digits, i - start + 1);
        }
        let next = match value.checked_mul(10) {
            Some(tenfold) => tenfold.checked_add(digit),
            None => None,
        };
        match next {
            Some(n) => {
                value = n;
            },
            None => {
                return None;
            },
        }
        i += 1;
    }
    assert(digits.subrange(0, len - start) =~= digits);
    Some(value)
}

/// The page a listing request asks for.
pub open spec fn requested_page(query: Option<Seq<char>>) -> Result<usize, ServiceError> {
    match query {
        None => Ok(1),
        Some(text) => match number_of(text) {
            Some(page) => if page > 0 {
                Ok(page)
            } else {
                Err(ServiceError::InvalidArgument)
            },
            None => Err(ServiceError::InvalidArgument),
        },
    }
}

/// The `page` parameter of a query, by its text.
pub open spec fn query_text(query: Option<&str>) -> Option<Seq<char>> {
    match query {
        Some(text) => Some(text@),
        None => None,
    }
}

/// The page a listing request asks for: the first where it names none, the
/// named one where it names a positive number, and otherwise a rejected
/// argument.
pub fn page_from_query(query: Option<&str>) -> (page: Result<usize, ServiceError>)
    ensures
        page == requested_page(query_text(query)),
{
    match query {
        None => Ok(1),
        Some(text) => match parse_number(text) {
            Some(page) => if page > 0 {
                Ok(page)
            } else {
                Err(ServiceError::InvalidArgument)
            },
            None => Err(ServiceError::InvalidArgument),
        },
    }
}

// ----------------------------------------------------------------- replies

/// Status of a reply that carries what was asked for.
pub const STATUS_OK: u16 = 200;

/// Status of a reply to a creation.
pub const STATUS_CREATED: u16 = 201;

/// What a reply carries.
#[derive(Debug, PartialEq, Eq)]
pub enum ReplyBody {
    /// The id of the note that was created.
    Created(NoteId),
    /// One page of previews.
    Page(Vec<NotePreview>),
    /// The note that was asked for.
    Found(Note),
    /// The id of the note that was deleted.
    Deleted(NoteId),
    /// Why the request failed.
    Failure(ServiceError),
}

/// A reply, ready for the transport to send.
#[derive(Debug, PartialEq, Eq)]
pub struct Reply {
    pub status: u16,
    pub body: ReplyBody,
}

impl Reply {
    /// The reply reports the failure `e`, under the status of its kind.
    pub open spec fn fails_with(self, e: ServiceError) -> bool {
        self.status == e.spec_status() && self.body == ReplyBody::Failure(e)
    }

    /// The reply reports that the note `id` was created.
    pub open spec fn created(self, id: NoteId) -> bool {
        self.status == STATUS_CREATED && self.body == ReplyBody::Created(id)
    }

    /// The reply reports that the note `id` was deleted.
    pub open spec fn deleted(self, id: NoteId) -> bool {
        self.status == STATUS_OK && self.body == ReplyBody::Deleted(id)
    }

    /// The reply carries this note.
    pub open spec fn found(self, note: NoteView) -> bool {
        self.status == STATUS_OK && match self.body {
            ReplyBody::Found(got) => got@ == note,
            _ => false,
        }
    }

    /// The reply carries this page.
    pub open spec fn lists(self, page: Seq<NotePreviewView>) -> bool {
        self.status == STATUS_OK && match self.body {
            ReplyBody::Page(got) => preview_views(got@) == page,
            _ => false,
        }
    }
}

/// The reply to a failed request.
pub fn failure_reply(e: ServiceError) -> (reply: Reply)
    ensures
        reply.fails_with(e),
{
    Reply { status: e.status(), body: ReplyBody::Failure(e) }
}

/// The reply to a creation.
pub fn created_reply(outcome: Result<NoteId, ServiceError>) -> (reply: Reply)
    ensures
        match outcome {
            Ok(id) => reply.created(id),
            Err(e) => reply.fails_with(e),
        },
{
    match outcome {
        Ok(id) => Reply { status: STATUS_CREATED, body: ReplyBody::Created(id) },
        Err(e) => failure_reply(e),
    }
}

/// The reply to a page listing.
pub fn page_reply(outcome: Result<Vec<NotePreview>, ServiceError>) -> (reply: Reply)
    ensures
        match outcome {
            Ok(list) => reply.lists(preview_views(list@)),
            Err(e) => reply.fails_with(e),
        },
{
    match outcome {
        Ok(list) => Reply { status: STATUS_OK, body: ReplyBody::Page(list) },
        Err(e) => failure_reply(e),
    }
}

/// The reply to a lookup: a note that is not there is `NotFound`.
pub fn note_reply(outcome: Result<Option<Note>, ServiceError>) -> (reply: Reply)
    ensures
        match outcome {
            Ok(Some(note)) => reply.found(note@),
            Ok(None) => reply.fails_with(ServiceError::NotFound),
            Err(e) => reply.fails_with(e),
        },
{
    match outcome {
        Ok(Some(note)) => Reply { status: STATUS_OK, body: ReplyBody::Found(note) },
        Ok(None) => failure_reply(ServiceError::NotFound),
        Err(e) => failure_reply(e),
    }
}

/// The reply to a deletion of the note `id`.
pub fn deleted_reply(id: NoteId, outcome: Result<(), ServiceError>) -> (reply: Reply)
    ensures
        match outcome {
            Ok(_) => reply.deleted(id),
            Err(e) => reply.fails_with(e),
        },
{
    match outcome {
        Ok(_) => Reply { status: STATUS_OK, body: ReplyBody::Deleted(id) },
        Err(e) => failure_reply(e),
    }
}

// ---------------------------------------------------------------- handlers

/// Creates the requested note and replies with its id. Where the id drawn
/// for it is taken, the reply is a storage error and nothing changes.
pub fn create_note(service: &mut NoteService, request: CreateNoteRequest) -> (reply: Reply)
    requires
        old(service).wf(),
    ensures
        final(service).wf(),
        final(service)@ == old(service)@ ==> reply.fails_with(
            ServiceError::StorageError(StorageFault::DuplicateId),
        ) && exists|taken: NoteId| is_random_uuid(taken) && #[trigger] has_id(old(service)@, taken),
        final(service)@ != old(service)@ ==> exists|id: NoteId, now: u64|
            {
                &&& reply.created(id)
                &&& is_random_uuid(id)
                &&& !has_id(old(service)@, id)
                &&& final(service)@ == old(service)@.push(
                    #[trigger] new_note(id, request.title@, request.content@, request.tags@, now),
                )
            },
{
    let ghost before = service@;
    let outcome = service.create_note(request.title, request.content, request.tags);
    proof {
        if let Ok(id) = outcome {
            let now = choose|now: u64|
                service@ == before.push(
                    #[trigger] new_note(id, request.title@, request.content@, request.tags@, now),
                );
            assert(service@.len() == before.len() + 1);
        }
    }
    created_reply(outcome)
}

/// Lists the page that the query asks for.
pub fn find_note(service: &NoteService, query: Option<&str>) -> (reply: Reply)
    requires
        service.wf(),
    ensures
        match requested_page(query_text(query)) {
            Ok(page) => reply.lists(page_of(service@, page as int)),
            Err(e) => reply.fails_with(e),
        },
{
    match page_from_query(query) {
        Ok(page) => page_reply(service.get_all_notes_by_page(page)),
        Err(e) => failure_reply(e),
    }
}

/// Replies with the first note of the given title.
pub fn get_note(service: &NoteService, title: String) -> (reply: Reply)
    requires
        service.wf(),
    ensures
        match first_match(service@, NoteFilterView::ByTitle(title@)) {
            Some(note) => reply.found(note),
            None => reply.fails_with(ServiceError::NotFound),
        },
{
    note_reply(service.get_note_by_title(title))
}

/// Deletes the note whose id the text names. A text that names no id is a
/// rejected argument, and nothing changes.
pub fn delete_note(service: &mut NoteService, id: &str) -> (reply: Reply)
    requires
        old(service).wf(),
    ensures
        final(service).wf(),
        match parsed_uuid(id@) {
            Some(bits) => if has_id(old(service)@, NoteId { bits }) {
                &&& reply.deleted(NoteId { bits })
                &&& final(service)@ == without_id(old(service)@, NoteId { bits })
            } else {
                &&& reply.fails_with(ServiceError::NotFound)
                &&& final(service)@ == old(service)@
            },
            None => {
                &&& reply.fails_with(ServiceError::InvalidArgument)
                &&& final(service)@ == old(service)@
            },
        },
{
    match parse_note_id(id) {
        Ok(note_id) => deleted_reply(note_id, service.delete_note(note_id)),
        Err(e) => failure_reply(e),
    }
}

} // verus!
