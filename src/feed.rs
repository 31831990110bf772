//! The Atom feed: a model of the document built from the entries, and its
//! serialization.
use vstd::prelude::*;

use atom_syndication::Entry as AtomEntry;

use crate::models;

verus! {

#[verifier::external_type_specification]
#[verifier::external_body]
pub struct ExAtomEntry(AtomEntry);

/// Maximum number of entries in the feed.
pub const FEED_ENTRY_LIMIT: i64 = 50;

/// The feed's title.
pub const FEED_TITLE: &'static str = "Laterfeed";

/// Maximum number of entries to include in the feed.
pub fn entry_limit() -> (r: i64)
    ensures
        r == FEED_ENTRY_LIMIT,
{
    FEED_ENTRY_LIMIT
}

/// A link of the feed or of one of its entries.
pub struct FeedLink {
    pub href: String,
    pub rel: String,
    pub mime_type: Option<String>,
}

/// The content block of an entry.
pub struct FeedContent {
    pub value: String,
    pub content_type: String,
}

/// One entry of the feed. `updated` is in nanoseconds since the Unix epoch.
pub struct FeedItem {
    pub title: String,
    pub id: String,
    pub updated: i64,
    pub link: FeedLink,
    pub content: Option<FeedContent>,
}

/// The whole feed. `updated` is in nanoseconds since the Unix epoch.
pub struct FeedDocument {
    pub title: String,
    pub id: String,
    pub updated: i64,
    pub links: Vec<FeedLink>,
    pub entries: Vec<FeedItem>,
}

pub struct FeedLinkView {
    pub href: Seq<char>,
    pub rel: Seq<char>,
    pub mime_type: Option<Seq<char>>,
}

pub struct FeedContentView {
    pub value: Seq<char>,
    pub content_type: Seq<char>,
}

pub struct FeedItemView {
    pub title: Seq<char>,
    pub id: Seq<char>,
    pub updated: i64,
    pub link: FeedLinkView,
    pub content: Option<FeedContentView>,
}

pub struct FeedDocumentView {
    pub title: Seq<char>,
    pub id: Seq<char>,
    pub updated: i64,
    pub links: Seq<FeedLinkView>,
    pub entries: Seq<FeedItemView>,
}

impl View for FeedLink {
    type V = FeedLinkView;

    open spec fn view(&self) -> FeedLinkView {
        FeedLinkView { href: self.href@, rel: self.rel@, mime_type: self.mime_type.deep_view() }
    }
}

impl View for FeedContent {
    type V = FeedContentView;

    open spec fn view(&self) -> FeedContentView {
        FeedContentView { value: self.value@, content_type: self.content_type@ }
    }
}

impl View for FeedItem {
    type V = FeedItemView;

    open spec fn view(&self) -> FeedItemView {
        FeedItemView {
            title: self.title@,
            id: self.id@,
            updated: self.updated,
            link: self.link@,
            content: match self.content {
                Some(c) => Some(c@),
                None => None,
            },
        }
    }
}

impl View for FeedDocument {
    type V = FeedDocumentView;

    open spec fn view(&self) -> FeedDocumentView {
        FeedDocumentView {
            title: self.title@,
            id: self.id@,
            updated: self.updated,
            links: self.links@.map_values(|l: FeedLink| l@),
            entries: self.entries@.map_values(|e: FeedItem| e@),
        }
    }
}

/// The feed entry for a stored entry: its title, its URL as identity and as
/// the single alternate link, its creation time, and its body as HTML content.
pub open spec fn item_of(e: models::Entry) -> FeedItemView {
    FeedItemView {
        title: e.title@,
        id: e.url@,
        updated: e.created_at,
        link: FeedLinkView { href: e.url@, rel: "alternate"@, mime_type: None },
        content: match e.body {
            Some(b) => Some(FeedContentView { value: b@, content_type: "html"@ }),
            None => None,
        },
    }
}

/// The address of the feed under `base_url`.
pub open spec fn feed_url_of(base_url: Seq<char>) -> Seq<char> {
    base_url + "/feed"@
}

/// The feed for `entries` (newest first) served under `base_url`, rendered
/// at `now`: updated at the first entry's creation, or at `now` when there
/// are none; a self link to the feed and an alternate link to the site.
pub open spec fn feed_of(entries: Seq<models::Entry>, base_url: Seq<char>, now: i64) -> FeedDocumentView {
    FeedDocumentView {
        title: FEED_TITLE@,
        id: feed_url_of(base_url),
        updated: if entries.len() > 0 {
            entries[0].created_at
        } else {
            now
        },
        links: seq![
            FeedLinkView {
                href: feed_url_of(base_url),
                rel: "self"@,
                mime_type: Some("application/atom+xml"@),
            },
            FeedLinkView { href: base_url, rel: "alternate"@, mime_type: None },
        ],
        entries: entries.map_values(|e: models::Entry| item_of(e)),
    }
}

/// The Atom XML text of a feed document.
pub uninterp spec fn atom_xml_of(doc: FeedDocumentView) -> Seq<char>;

/// The Atom entry that holds the fields of a feed entry.
pub uninterp spec fn atom_entry_of(item: FeedItemView) -> AtomEntry;

/// Relies on atom_syndication's `Entry`, `Link`, `Content` and `Text::plain`,
/// and on chrono's `DateTime::from_timestamp_nanos`, which is total: the
/// entry's fields copied one for one into an Atom entry.
#[verifier::external_body]
fn atom_entry(item: &FeedItem) -> (r: AtomEntry)
    ensures
        r == atom_entry_of(item@),
{
    let l = &item.link;
    let link = atom_syndication::Link { href: l.href.clone(), rel: l.rel.clone(), mime_type: l.mime_type.clone(), ..Default::default() };
    let content = item.content.as_ref().map(|c| atom_syndication::Content { value: Some(c.value.clone()), content_type: Some(c.content_type.clone()), ..Default::default() });
    AtomEntry {
        title: atom_syndication::Text::plain(item.title.as_str()),
        id: item.id.clone(),
        updated: chrono::DateTime::from_timestamp_nanos(item.updated).fixed_offset(),
        links: vec![link],
        content,
        ..Default::default()
    }
}

/// Relies on atom_syndication's `Feed` and its `ToString`, which writes the
/// feed as XML: the document's fields copied one for one into an Atom feed,
/// then written out.
#[verifier::external_body]
fn atom_xml(doc: &FeedDocument) -> (r: String)
    ensures
        r@ == atom_xml_of(doc@),
{
    let links = doc.links.iter().map(|l| atom_syndication::Link { href: l.href.clone(), rel: l.rel.clone(), mime_type: l.mime_type.clone(), ..Default::default() });
    let feed = atom_syndication::Feed {
        title: atom_syndication::Text::plain(doc.title.as_str()),
        id: doc.id.clone(),
        updated: chrono::DateTime::from_timestamp_nanos(doc.updated).fixed_offset(),
        links: links.collect(),
        entries: doc.entries.iter().map(atom_entry).collect(),
        ..Default::default()
    };
    feed.to_string()
}

/// The feed entry for a stored entry.
pub fn feed_item(entry: &models::Entry) -> (r: FeedItem)
    ensures
        r@ == item_of(*entry),
{
    let content = match &entry.body {
        Some(b) => Some(FeedContent { value: b.clone(), content_type: String::from_str("html") }),
        None => None,
    };
    FeedItem {
        title: entry.title.clone(),
        id: entry.url.clone(),
        updated: entry.created_at,
        link: FeedLink {
            href: entry.url.clone(),
            rel: String::from_str("alternate"),
            mime_type: None,
        },
        content,
    }
}

/// The Atom entry for a stored entry.
pub fn entry_to_atom(entry: &models::Entry) -> (r: AtomEntry)
    ensures
        r == atom_entry_of(item_of(*entry)),
{
    atom_entry(&feed_item(entry))
}

/// The feed document for `entries` (newest first) under `base_url`, rendered
/// at `now`. It holds every entry given, in the order given; an empty list
/// gives a feed with no entries, updated at `now`.
pub fn feed_document(entries: &[models::Entry], base_url: &str, now: i64) -> (r: FeedDocument)
    ensures
        r@ == feed_of(entries@, base_url@, now),
        entries@.len() == 0 ==> r@.updated == now && r@.entries.len() == 0,
{
    let feed_url = String::from_str(base_url).concat("/feed");
    let updated = if entries.len() > 0 {
        entries[0].created_at
    } else {
        now
    };
    let mut links: Vec<FeedLink> = Vec::new();
    links.push(
        FeedLink {
            href: feed_url.clone(),
            rel: String::from_str("self"),
            mime_type: Some(String::from_str("application/atom+xml")),
        },
    );
    links.push(
        FeedLink { href: String::from_str(base_url), rel: String::from_str("alternate"), mime_type: None },
    );
    let mut items: Vec<FeedItem> = Vec::new();
    let mut i: usize = 0;
    while i < entries.len()
        invariant
            i <= entries@.len(),
            items@.len() == i,
            forall|k: int| 0 <= k < i ==> (#[trigger] items@[k])@ == item_of(entries@[k]),
        decreases entries@.len() - i,
    {
        let item = feed_item(&entries[i]);
        items.push(item);
        i = i + 1;
    }
    let r = FeedDocument {
        title: String::from_str(FEED_TITLE),
        id: feed_url,
        updated,
        links,
        entries: items,
    };
    assert(r@.entries =~= feed_of(entries@, base_url@, now).entries);
    assert(r@.links =~= feed_of(entries@, base_url@, now).links);
    r
}

/// The Atom XML for `entries` (newest first) under `base_url`, rendered at
/// `now`. The caller bounds the number of entries.
pub fn build_atom_feed(entries: &[models::Entry], base_url: &str, now: i64) -> (r: String)
    ensures
        r@ == atom_xml_of(feed_of(entries@, base_url@, now)),
        entries@.len() == 0 ==> feed_of(entries@, base_url@, now).updated == now && feed_of(
            entries@,
            base_url@,
            now,
        ).entries.len() == 0,
{
    let doc = feed_document(entries, base_url, now);
    atom_xml(&doc)
}

} // verus!
