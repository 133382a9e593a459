//! Document identities as text, and fresh ones.
//!
//! A document identity is a UUID. Reading one from text, writing one as text
//! and drawing a new one are the `uuid` crate's work.

use vstd::prelude::*;
use crate::api::DocumentId;

verus! {

/// The value that `uuid::Uuid::parse_str` reads from a text, as
/// `Uuid::as_u128` gives it; `None` where it rejects the text.
pub uninterp spec fn uuid_value(text: Seq<char>) -> Option<u128>;

/// The text that `Display` of `uuid::Uuid` writes for the UUID that
/// `Uuid::from_u128` makes of a value.
pub uninterp spec fn uuid_text(value: u128) -> Seq<char>;

/// `uuid::Uuid::parse_str`, then `Uuid::as_u128`. The result is a function of
/// the text alone.
#[verifier::external_body]
pub(crate) fn parse_uuid(text: &str) -> (value: Option<u128>)
    ensures
        value == uuid_value(text@),
{
    uuid::Uuid::parse_str(text).ok().map(|u| u.as_u128())
}

/// `uuid::Uuid::from_u128`, then `Display` through `to_string`. The result is
/// a function of the value alone.
#[verifier::external_body]
pub(crate) fn write_uuid(value: u128) -> (text: String)
    ensures
        text@ == uuid_text(value),
{
    uuid::Uuid::from_u128(value).to_string()
}

/// `uuid::Uuid::new_v4`, then `Uuid::as_u128`. The value is random.
#[verifier::external_body]
pub(crate) fn random_uuid() -> (value: u128) {
    uuid::Uuid::new_v4().as_u128()
}

impl DocumentId {
    /// The identity that a text names, if it names one.
    pub open spec fn parsed(text: Seq<char>) -> Option<DocumentId> {
        match uuid_value(text) {
            Some(value) => Some(DocumentId { value }),
            None => None,
        }
    }

    /// The text of an identity: the name of its repository's directory.
    pub open spec fn text(self) -> Seq<char> {
        uuid_text(self.value)
    }

    /// Reads an identity from text.
    pub fn parse(text: &str) -> (id: Option<DocumentId>)
        ensures
            id == DocumentId::parsed(text@),
    {
        match parse_uuid(text) {
            Some(value) => Some(DocumentId { value }),
            None => None,
        }
    }

    /// Writes the identity as text.
    pub fn to_text(&self) -> (text: String)
        ensures
            text@ == self.text(),
    {
        write_uuid(self.value)
    }

    /// A new identity, drawn at random.
    pub fn fresh() -> (id: DocumentId) {
        DocumentId { value: random_uuid() }
    }
}

} // verus!
