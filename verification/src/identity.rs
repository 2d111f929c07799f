//! Identities: UUIDs as 128-bit numbers, and their text form.

use vstd::prelude::*;
use crate::error::StorageError;

verus! {

/// The UUID that a text denotes, if it denotes one.
pub uninterp spec fn parsed_uuid(text: Seq<char>) -> Option<u128>;

/// The canonical text of a UUID.
pub uninterp spec fn uuid_text(id: u128) -> Seq<char>;

/// Whether a text is the canonical text of the UUID it denotes.
pub open spec fn is_canonical_uuid(text: Seq<char>) -> bool {
    match parsed_uuid(text) {
        Some(id) => uuid_text(id) == text,
        None => false,
    }
}

/// Calls `uuid::Uuid::try_parse` and hands out the UUID as a number
/// (`Uuid::as_u128`). The result is a function of the text alone; which
/// texts are accepted is left to the `uuid` crate.
#[verifier::external_body]
pub(crate) fn parse_uuid(text: &str) -> (id: Option<u128>)
    ensures
        id == parsed_uuid(text@),
{
    match uuid::Uuid::try_parse(text) {
        Ok(id) => Some(id.as_u128()),
        Err(_) => None,
    }
}

/// Calls `to_string` on the `uuid::Uuid` made by `Uuid::from_u128`: the
/// lower-case hyphenated form. The `uuid` crate documents that its parser
/// accepts every form it prints, so the text denotes the same UUID again.
#[verifier::external_body]
pub(crate) fn format_uuid(id: u128) -> (text: String)
    ensures
        text@ == uuid_text(id),
        parsed_uuid(text@) == Some(id),
{
    uuid::Uuid::from_u128(id).to_string()
}

/// Reads an id given as text.
pub fn try_get_uuid(id: &str) -> (r: Result<u128, StorageError>)
    ensures
        match parsed_uuid(id@) {
            Some(uuid) => r == Ok::<u128, StorageError>(uuid),
            None => r == Err::<u128, StorageError>(StorageError::MalformedIdentity),
        },
{
    match parse_uuid(id) {
        Some(uuid) => Ok(uuid),
        None => Err(StorageError::MalformedIdentity),
    }
}

/// Writes an id as text. The text reads back as the same id.
pub fn uuid_to_string(id: u128) -> (text: String)
    ensures
        text@ == uuid_text(id),
        parsed_uuid(text@) == Some(id),
        is_canonical_uuid(text@),
{
    format_uuid(id)
}

} // verus!
