use laterfeed::dto::{AddEntryRequest, EntrySourceType as RequestSourceType};
use laterfeed::errors::Error;
use laterfeed::feed::{build_atom_feed, entry_limit};
use laterfeed::ingest::{add_entry, detect_source_type, needs_metadata, prepare_entry};
use laterfeed::metadata::{resolve_metadata, PageMetadata};
use laterfeed::models::{Entry, EntrySourceType, EntryStore};

fn request(url: &str, title: Option<&str>, body: Option<&str>) -> AddEntryRequest {
    AddEntryRequest {
        url: url.to_string(),
        title: title.map(|s| s.to_string()),
        body: body.map(|s| s.to_string()),
        source_type: Some(RequestSourceType::Article),
    }
}

#[test]
fn add_entry_then_list_and_feed() {
    let mut store = EntryStore::new();
    let req = request("https://example.com/a", Some("First"), Some("Hello"));
    assert!(!needs_metadata(&req));
    let entry = add_entry(&mut store, &req, &PageMetadata::empty(), 1_700_000_000_000_000_000).unwrap();
    assert_eq!(entry.title, "First");
    assert_eq!(entry.body, Some("Hello".to_string()));
    assert!(entry.id > 0);
    assert_eq!(entry.created_at, 1_700_000_000_000_000_000);

    let all = Entry::fetch_all(&store);
    assert_eq!(all.len(), 1);
    assert_eq!(all[0].id, entry.id);
    assert_eq!(all[0].url, "https://example.com/a");
    assert_eq!(all[0].title, "First");
    assert_eq!(all[0].body, Some("Hello".to_string()));

    let latest = Entry::fetch_latest(&store, entry_limit());
    let xml = build_atom_feed(&latest, "http://localhost:3000", 0);
    assert!(xml.contains("<title>First</title>"));
    assert!(xml.contains("https://example.com/a"));
}

#[test]
fn add_entry_for_unreachable_page_uses_url_as_title() {
    let mut store = EntryStore::new();
    let req = request("https://invalid.nonexistent.example/page", None, None);
    assert!(needs_metadata(&req));
    let meta = resolve_metadata(None, None);
    let entry = add_entry(&mut store, &req, &meta, 5).unwrap();
    assert_eq!(entry.title, "https://invalid.nonexistent.example/page");
    assert_eq!(entry.body, None);
}

#[test]
fn add_entry_takes_missing_fields_from_page() {
    let mut store = EntryStore::new();
    let req = request("https://example.com/p", None, Some("Mine"));
    let meta = PageMetadata { title: Some("Page".to_string()), body: Some("Theirs".to_string()) };
    let entry = add_entry(&mut store, &req, &meta, 5).unwrap();
    assert_eq!(entry.title, "Page");
    assert_eq!(entry.body, Some("Mine".to_string()));
}

#[test]
fn add_entry_rejects_invalid_url() {
    let mut store = EntryStore::new();
    let req = request("not a url", Some("T"), None);
    assert_eq!(add_entry(&mut store, &req, &PageMetadata::empty(), 5).unwrap_err(), Error::InvalidUrl);
    assert_eq!(store.len(), 0);
    assert_eq!(req.validate(), Err(Error::InvalidUrl));
    assert_eq!(request("https://example.com", None, None).validate(), Ok(()));
}

#[test]
fn source_type_is_detected_when_left_out() {
    let mut req = request("https://youtu.be/abc", None, None);
    req.source_type = None;
    let fields = prepare_entry(&req, &PageMetadata::empty());
    assert_eq!(fields.source_type, EntrySourceType::Video);
    assert_eq!(detect_source_type("https://example.com/a"), EntrySourceType::Article);
    req.source_type = Some(RequestSourceType::Article);
    assert_eq!(prepare_entry(&req, &PageMetadata::empty()).source_type, EntrySourceType::Article);
}

#[test]
fn request_source_types_convert_both_ways() {
    assert_eq!(EntrySourceType::from(RequestSourceType::Video), EntrySourceType::Video);
    assert_eq!(RequestSourceType::from(EntrySourceType::Article), RequestSourceType::Article);
}

#[test]
fn caller_title_of_white_space_is_kept() {
    let mut store = EntryStore::new();
    let req = request("https://example.com/q", Some("   "), None);
    assert!(needs_metadata(&req));
    let entry = add_entry(&mut store, &req, &PageMetadata::empty(), 5).unwrap();
    assert_eq!(entry.title, "   ");
}

#[test]
fn empty_titles_count_as_missing() {
    let mut store = EntryStore::new();
    let req = request("https://example.com/r", Some(""), Some("Body"));
    assert!(needs_metadata(&req));
    let meta = PageMetadata { title: Some("From Page".to_string()), body: None };
    let entry = add_entry(&mut store, &req, &meta, 6).unwrap();
    assert_eq!(entry.title, "From Page");
    let meta = PageMetadata { title: Some(String::new()), body: None };
    let entry = add_entry(&mut store, &req, &meta, 7).unwrap();
    assert_eq!(entry.title, "https://example.com/r");
}
