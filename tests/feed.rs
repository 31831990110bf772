use chrono::{TimeZone, Utc};
use laterfeed::feed::{build_atom_feed, entry_limit, entry_to_atom, feed_document};
use laterfeed::models::{Entry, EntrySourceType};

fn make_entry(id: i64, url: &str, title: &str, body: Option<&str>) -> Entry {
    Entry {
        id,
        url: url.to_string(),
        title: title.to_string(),
        body: body.map(|s| s.to_string()),
        source_type: EntrySourceType::Article,
        created_at: Utc
            .with_ymd_and_hms(2026, 1, 15, 12, 0, 0)
            .unwrap()
            .timestamp_nanos_opt()
            .unwrap(),
    }
}

fn now_nanos() -> i64 {
    Utc::now().timestamp_nanos_opt().unwrap()
}

#[test]
fn build_atom_feed_empty_entries() {
    let xml = build_atom_feed(&[], "https://example.com", now_nanos());

    assert!(xml.contains("<title>Laterfeed</title>"));
    assert!(xml.contains("<id>https://example.com/feed</id>"));
    assert!(xml.contains(r#"rel="self""#));
    assert!(xml.contains(r#"rel="alternate""#));
    assert!(!xml.contains("<entry>"));
}

#[test]
fn build_atom_feed_multiple_entries_with_and_without_body() {
    let entries = vec![
        make_entry(1, "https://example.com/a", "First", Some("<p>Body A</p>")),
        make_entry(2, "https://example.com/b", "Second", None),
        make_entry(3, "https://example.com/c", "Third", Some("<p>Body C</p>")),
    ];

    let xml = build_atom_feed(&entries, "https://example.com", now_nanos());

    // All entries present
    assert!(xml.contains("<title>First</title>"));
    assert!(xml.contains("<title>Second</title>"));
    assert!(xml.contains("<title>Third</title>"));

    // Body content included where provided
    assert!(xml.contains("Body A"));
    assert!(xml.contains("Body C"));

    // Content type should be html
    assert!(xml.contains(r#"type="html""#));

    // Feed updated time should come from the first entry
    assert!(xml.contains("2026-01-15"));
}

#[test]
fn entry_to_atom_maps_all_fields() {
    let entry = make_entry(
        10,
        "https://example.com/article",
        "Test Article",
        Some("<p>Test body</p>"),
    );

    let atom = entry_to_atom(&entry);

    assert_eq!(atom.title.value, "Test Article");
    assert_eq!(atom.id, "https://example.com/article");
    assert_eq!(atom.links.len(), 1);
    assert_eq!(atom.links[0].href, "https://example.com/article");
    assert_eq!(atom.links[0].rel, "alternate");
    let content = atom.content.unwrap();
    assert_eq!(content.value.unwrap(), "<p>Test body</p>");
    assert_eq!(content.content_type.unwrap(), "html");
}

#[test]
fn empty_feed_is_updated_at_render_time() {
    let now = Utc
        .with_ymd_and_hms(2030, 6, 1, 8, 30, 0)
        .unwrap()
        .timestamp_nanos_opt()
        .unwrap();
    let doc = feed_document(&[], "https://example.com", now);
    assert_eq!(doc.updated, now);
    assert!(doc.entries.is_empty());
    let xml = build_atom_feed(&[], "https://example.com", now);
    assert!(xml.contains("<updated>2030-06-01T08:30:00+00:00</updated>"));
    assert!(!xml.contains("<entry"));
}

#[test]
fn feed_document_links_and_identity() {
    let entries = vec![make_entry(1, "https://example.com/a", "First", None)];
    let doc = feed_document(&entries, "https://example.com", 0);
    assert_eq!(doc.id, "https://example.com/feed");
    assert_eq!(doc.title, "Laterfeed");
    assert_eq!(doc.links.len(), 2);
    assert_eq!(doc.links[0].href, "https://example.com/feed");
    assert_eq!(doc.links[0].rel, "self");
    assert_eq!(doc.links[0].mime_type, Some("application/atom+xml".to_string()));
    assert_eq!(doc.links[1].href, "https://example.com");
    assert_eq!(doc.links[1].rel, "alternate");
    assert_eq!(doc.updated, entries[0].created_at);
    assert_eq!(doc.entries.len(), 1);
    assert_eq!(doc.entries[0].id, "https://example.com/a");
    assert!(doc.entries[0].content.is_none());
}

#[test]
fn entry_limit_is_fifty() {
    assert_eq!(entry_limit(), 50);
}
