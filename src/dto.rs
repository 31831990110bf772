//! The shapes in which entries cross the service's interface.
use vstd::prelude::*;

use crate::errors::Error;
use crate::models;

verus! {

/// The source type as callers name it.
#[derive(Clone, Copy, Debug, PartialEq, Eq, Structural)]
pub enum EntrySourceType {
    Article,
    Video,
}

impl From<models::EntrySourceType> for EntrySourceType {
    fn from(source_type: models::EntrySourceType) -> Self {
        match source_type {
            models::EntrySourceType::Article => EntrySourceType::Article,
            models::EntrySourceType::Video => EntrySourceType::Video,
        }
    }
}

impl vstd::std_specs::convert::FromSpecImpl<models::EntrySourceType> for EntrySourceType {
    open spec fn obeys_from_spec() -> bool {
        true
    }

    open spec fn from_spec(v: models::EntrySourceType) -> EntrySourceType {
        match v {
            models::EntrySourceType::Article => EntrySourceType::Article,
            models::EntrySourceType::Video => EntrySourceType::Video,
        }
    }
}

impl From<EntrySourceType> for models::EntrySourceType {
    fn from(source_type: EntrySourceType) -> Self {
        match source_type {
            EntrySourceType::Article => models::EntrySourceType::Article,
            EntrySourceType::Video => models::EntrySourceType::Video,
        }
    }
}

impl vstd::std_specs::convert::FromSpecImpl<EntrySourceType> for models::EntrySourceType {
    open spec fn obeys_from_spec() -> bool {
        true
    }

    open spec fn from_spec(v: EntrySourceType) -> models::EntrySourceType {
        stored_source_type(v)
    }
}

/// The stored source type for the one a caller named.
pub open spec fn stored_source_type(v: EntrySourceType) -> models::EntrySourceType {
    match v {
        EntrySourceType::Article => models::EntrySourceType::Article,
        EntrySourceType::Video => models::EntrySourceType::Video,
    }
}

/// Whether `url::Url::parse` accepts the text as an absolute URL.
pub uninterp spec fn is_url(s: Seq<char>) -> bool;

/// Relies on validator's `ValidateUrl::validate_url` for `str`, which is
/// whether `url::Url::parse` accepts the text.
#[verifier::external_body]
fn validate_url(s: &str) -> (r: bool)
    ensures
        r == is_url(s@),
{
    validator::ValidateUrl::validate_url(s)
}

/// A request to save a link. Title, body and source type may be left out:
/// title and body are then looked up on the page, and the source type is
/// told from the link.
#[derive(Debug)]
pub struct AddEntryRequest {
    pub url: String,
    pub title: Option<String>,
    pub body: Option<String>,
    pub source_type: Option<EntrySourceType>,
}

impl AddEntryRequest {
    /// Accepts the request when its URL is an absolute URL.
    pub fn validate(&self) -> (r: Result<(), Error>)
        ensures
            r is Ok <==> is_url(self.url@),
            r is Err ==> r == Err::<(), Error>(Error::InvalidUrl),
    {
        if validate_url(self.url.as_str()) {
            Ok(())
        } else {
            Err(Error::InvalidUrl)
        }
    }
}

} // verus!
