//! Note identities: made at random, or read from their text form.

use vstd::prelude::*;
use crate::error::ServiceError;
use crate::types::NoteId;

verus! {

/// `mongodb::bson::uuid::Error`, carried through unread.
#[verifier::external_type_specification]
#[verifier::external_body]
pub struct ExUuidError(mongodb::bson::uuid::Error);

/// The bits that say which kind of UUID an id is: the version nibble and
/// the two variant bits.
pub const KIND_MASK: u128 = 0x0000_0000_0000_f000_c000_0000_0000_0000u128;

/// The kind bits of a random (version 4, RFC 4122) UUID.
pub const RANDOM_KIND: u128 = 0x0000_0000_0000_4000_8000_0000_0000_0000u128;

/// Whether the id has the layout of a random UUID.
pub open spec fn is_random_uuid(id: NoteId) -> bool {
    id.bits & KIND_MASK == RANDOM_KIND
}

/// Whether the id has the layout of a random UUID.
pub fn has_random_layout(id: NoteId) -> (yes: bool)
    ensures
        yes == is_random_uuid(id),
{
    id.bits & KIND_MASK == RANDOM_KIND
}

/// Draws an id with `mongodb::bson::Uuid::new`, which takes 128 bits from
/// the operating system's generator and overwrites the version and variant
/// bits. The contract claims that layout and nothing of the other bits. The
/// call does not return where the system has no randomness to give.
#[verifier::external_body]
pub(crate) fn random_id() -> (id: NoteId)
    ensures
        is_random_uuid(id),
{
    NoteId { bits: u128::from_be_bytes(mongodb::bson::Uuid::new().bytes()) }
}

/// The id that `mongodb::bson::Uuid::parse_str` reads from a text, or `None`
/// where it reports an error.
pub uninterp spec fn parsed_uuid(text: Seq<char>) -> Option<u128>;

/// Reads an id with `mongodb::bson::Uuid::parse_str`. What it accepts (the
/// simple, hyphenated, URN and braced forms of thirty-two hexadecimal
/// digits) depends on the text alone and goes by the name `parsed_uuid`.
#[verifier::external_body]
pub(crate) fn parse_uuid(text: &str) -> (parsed: Result<NoteId, mongodb::bson::uuid::Error>)
    ensures
        match parsed {
            Ok(id) => parsed_uuid(text@) == Some(id.bits),
            Err(_) => parsed_uuid(text@) is None,
        },
{
    match mongodb::bson::Uuid::parse_str(text) {
        Ok(uuid) => Ok(NoteId { bits: u128::from_be_bytes(uuid.bytes()) }),
        Err(e) => Err(e),
    }
}

/// What a parse outcome means to a caller: a malformed id is a rejected
/// argument.
pub fn id_from_parse(parsed: Result<NoteId, mongodb::bson::uuid::Error>) -> (id: Result<
    NoteId,
    ServiceError,
>)
    ensures
        match parsed {
            Ok(got) => id == Ok::<NoteId, ServiceError>(got),
            Err(_) => id == Err::<NoteId, ServiceError>(ServiceError::InvalidArgument),
        },
{
    match parsed {
        Ok(got) => Ok(got),
        Err(_) => Err(ServiceError::InvalidArgument),
    }
}

/// Reads a note id from its text form.
pub fn parse_note_id(text: &str) -> (id: Result<NoteId, ServiceError>)
    ensures
        match id {
            Ok(got) => parsed_uuid(text@) == Some(got.bits),
            Err(e) => e == ServiceError::InvalidArgument && parsed_uuid(text@) is None,
        },
{
    id_from_parse(parse_uuid(text))
}

} // verus!
