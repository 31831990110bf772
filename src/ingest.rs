//! Saving a link: the fields of the new entry from the request and from
//! what was found on the page.
use vstd::prelude::*;

use crate::dto::{is_url, stored_source_type, AddEntryRequest};
use crate::errors::Error;
use crate::metadata::{
    fetched_body, fetched_oembed_title, fetched_title, is_video_url, is_youtube_url, or_else,
    PageMetadata,
};
use crate::models::{created_at_or_after, created_before, opt_str_view, Entry, EntrySourceType, EntryStore};

verus! {

/// Whether the page must be looked up: the request has no usable title
/// (see `has_title`) or leaves out the body.
pub fn needs_metadata(request: &AddEntryRequest) -> (r: bool)
    ensures
        r == (!has_title(request.title) || request.body is None),
{
    !usable_title(&request.title) || request.body.is_none()
}

/// The source type told from a link: a video for a video-platform link, an
/// article otherwise.
pub open spec fn detected_source_type(url: Seq<char>) -> EntrySourceType {
    if is_video_url(url) {
        EntrySourceType::Video
    } else {
        EntrySourceType::Article
    }
}

/// The source type told from `url`.
pub fn detect_source_type(url: &str) -> (r: EntrySourceType)
    ensures
        r == detected_source_type(url@),
{
    if is_youtube_url(url) {
        EntrySourceType::Video
    } else {
        EntrySourceType::Article
    }
}

/// Whether an optional title is present and not empty. A title is kept as
/// given, white space included; only an empty one counts as none.
pub open spec fn has_title(t: Option<String>) -> bool {
    t is Some && t->Some_0@.len() > 0
}

/// The title of the new entry: the caller's, else the page's, else the URL.
/// An empty title counts as none.
pub open spec fn entry_title(request: AddEntryRequest, meta: PageMetadata) -> Seq<char> {
    if has_title(request.title) {
        request.title->Some_0@
    } else if has_title(meta.title) {
        meta.title->Some_0@
    } else {
        request.url@
    }
}

/// The body of the new entry: the caller's, else the page's, else none.
pub open spec fn entry_body(request: AddEntryRequest, meta: PageMetadata) -> Option<Seq<char>> {
    match request.body {
        Some(b) => Some(b@),
        None => meta.body.deep_view(),
    }
}

/// The source type of the new entry: the caller's, else the one told from
/// the URL.
pub open spec fn entry_source_type(request: AddEntryRequest) -> EntrySourceType {
    match request.source_type {
        Some(s) => stored_source_type(s),
        None => detected_source_type(request.url@),
    }
}

/// The fields of an entry about to be stored.
#[derive(Debug)]
pub struct NewEntry {
    pub url: String,
    pub title: String,
    pub body: Option<String>,
    pub source_type: EntrySourceType,
}

/// The fields of the new entry for `request`, given what was found on the
/// page (`meta`; empty when the page was not looked up or could not be read).
pub fn prepare_entry(request: &AddEntryRequest, meta: &PageMetadata) -> (r: NewEntry)
    ensures
        r.url@ == request.url@,
        r.title@ == entry_title(*request, *meta),
        request.url@.len() > 0 ==> r.title@.len() > 0,
        r.body.deep_view() == entry_body(*request, *meta),
        r.source_type == entry_source_type(*request),
{
    let title = if usable_title(&request.title) {
        request.title.clone().unwrap()
    } else if usable_title(&meta.title) {
        meta.title.clone().unwrap()
    } else {
        request.url.clone()
    };
    let body = match &request.body {
        Some(b) => Some(b.clone()),
        None => match &meta.body {
            Some(b) => Some(b.clone()),
            None => None,
        },
    };
    let source_type = match request.source_type {
        Some(s) => models_source_type(s),
        None => detect_source_type(request.url.as_str()),
    };
    NewEntry { url: request.url.clone(), title, body, source_type }
}

fn usable_title(t: &Option<String>) -> (r: bool)
    ensures
        r == has_title(*t),
{
    match t {
        Some(s) => !s.as_str().is_empty(),
        None => false,
    }
}

fn models_source_type(s: crate::dto::EntrySourceType) -> (r: EntrySourceType)
    ensures
        r == stored_source_type(s),
{
    EntrySourceType::from(s)
}

/// Saves a link at time `now`. Fails with `InvalidUrl` when the URL is not an
/// absolute URL and with `Storage` when the store takes no more entries; the
/// store is then unchanged. Otherwise the entry holds the prepared fields and
/// takes its place in the store as `Entry::create` says.
pub fn add_entry(
    store: &mut EntryStore,
    request: &AddEntryRequest,
    meta: &PageMetadata,
    now: i64,
) -> (r: Result<Entry, Error>)
    requires
        old(store).wf(),
    ensures
        final(store).wf(),
        !is_url(request.url@) ==> r == Err::<Entry, Error>(Error::InvalidUrl),
        is_url(request.url@) && old(store).next_id() == i64::MAX ==> r == Err::<Entry, Error>(
            Error::Storage,
        ),
        r is Err ==> *final(store) == *old(store),
        is_url(request.url@) && old(store).next_id() < i64::MAX ==> {
            &&& r is Ok
            &&& r->Ok_0.id == old(store).next_id()
            &&& r->Ok_0.url@ == request.url@
            &&& r->Ok_0.title@ == entry_title(*request, *meta)
            &&& r->Ok_0.body.deep_view() == entry_body(*request, *meta)
            &&& r->Ok_0.source_type == entry_source_type(*request)
            &&& r->Ok_0.created_at == now
            &&& final(store)@ == old(store)@.filter(created_at_or_after(now)).push(r->Ok_0)
                + old(store)@.filter(created_before(now))
        },
{
    request.validate()?;
    let fields = prepare_entry(request, meta);
    let body = match &fields.body {
        Some(b) => Some(b.as_str()),
        None => None,
    };
    assert(opt_str_view(body) == fields.body.deep_view());
    Entry::create(
        store,
        fields.url.as_str(),
        fields.title.as_str(),
        body,
        fields.source_type,
        now,
    )
}

/// A link whose page could not be fetched, saved with neither title nor
/// body: the failed fetches yield no metadata, the entry's title is the URL
/// and it has no body.
pub proof fn lemma_unreachable_page_keeps_url_as_title(request: AddEntryRequest, meta: PageMetadata)
    requires
        request.title is None,
        request.body is None,
        meta.title.deep_view() == or_else(fetched_oembed_title(None), fetched_title(None)),
        meta.body.deep_view() == fetched_body(None),
    ensures
        meta.title is None,
        meta.body is None,
        entry_title(request, meta) == request.url@,
        entry_body(request, meta) is None,
{
}

} // verus!
