use laterfeed::metadata::{
    extract_body, extract_title, is_youtube_url, oembed_request_url, oembed_title, plan_fetch,
    resolve_metadata, Document,
};

// --- is_youtube_url tests ---

#[test]
fn is_youtube_url_www() {
    assert!(is_youtube_url("https://www.youtube.com/watch?v=dQw4w9WgXcQ"));
}

#[test]
fn is_youtube_url_no_www() {
    assert!(is_youtube_url("https://youtube.com/watch?v=dQw4w9WgXcQ"));
}

#[test]
fn is_youtube_url_mobile() {
    assert!(is_youtube_url("https://m.youtube.com/watch?v=dQw4w9WgXcQ"));
}

#[test]
fn is_youtube_url_music() {
    assert!(is_youtube_url("https://music.youtube.com/watch?v=dQw4w9WgXcQ"));
}

#[test]
fn is_youtube_url_short_link() {
    assert!(is_youtube_url("https://youtu.be/dQw4w9WgXcQ"));
}

#[test]
fn is_youtube_url_shorts() {
    assert!(is_youtube_url("https://www.youtube.com/shorts/dQw4w9WgXcQ"));
}

#[test]
fn is_youtube_url_embed() {
    assert!(is_youtube_url("https://www.youtube.com/embed/dQw4w9WgXcQ"));
}

#[test]
fn is_youtube_url_live() {
    assert!(is_youtube_url("https://www.youtube.com/live/dQw4w9WgXcQ"));
}

#[test]
fn is_youtube_url_http() {
    assert!(is_youtube_url("http://www.youtube.com/watch?v=dQw4w9WgXcQ"));
}

#[test]
fn is_youtube_url_with_extra_params() {
    assert!(is_youtube_url(
        "https://www.youtube.com/watch?v=dQw4w9WgXcQ&t=120&list=PLrAXtmErZgOeiKm4sgNOknGvNjby9efdf"
    ));
}

#[test]
fn is_youtube_url_rejects_non_youtube() {
    assert!(!is_youtube_url("https://example.com/watch?v=dQw4w9WgXcQ"));
}

#[test]
fn is_youtube_url_rejects_similar_domains() {
    assert!(!is_youtube_url("https://notyoutube.com/watch?v=abc"));
    assert!(!is_youtube_url("https://youtube.com.evil.com/watch?v=abc"));
}

#[test]
fn is_youtube_url_rejects_invalid_url() {
    assert!(!is_youtube_url("not a url"));
}

#[test]
fn is_youtube_url_channel_page() {
    assert!(is_youtube_url("https://www.youtube.com/@somechannel"));
}

// --- extract_title tests ---

#[test]
fn extract_title_from_og_title() {
    let doc = Document::parse(r#"<html><head><meta property="og:title" content="OG Title"></head></html>"#);
    assert_eq!(extract_title(&doc), Some("OG Title".to_string()));
}

#[test]
fn extract_title_from_title_tag() {
    let doc = Document::parse("<html><head><title>Page Title</title></head></html>");
    assert_eq!(extract_title(&doc), Some("Page Title".to_string()));
}

#[test]
fn extract_title_og_takes_precedence_over_title_tag() {
    let doc = Document::parse(
        r#"<html><head>
        <meta property="og:title" content="OG Title">
        <title>Page Title</title>
        </head></html>"#,
    );
    assert_eq!(extract_title(&doc), Some("OG Title".to_string()));
}

#[test]
fn extract_title_falls_back_to_title_when_og_empty() {
    let doc = Document::parse(
        r#"<html><head>
        <meta property="og:title" content="">
        <title>Fallback Title</title>
        </head></html>"#,
    );
    assert_eq!(extract_title(&doc), Some("Fallback Title".to_string()));
}

#[test]
fn extract_title_falls_back_to_title_when_og_whitespace() {
    let doc = Document::parse(
        r#"<html><head>
        <meta property="og:title" content="   ">
        <title>Fallback Title</title>
        </head></html>"#,
    );
    assert_eq!(extract_title(&doc), Some("Fallback Title".to_string()));
}

#[test]
fn extract_title_none_when_no_title() {
    let doc = Document::parse("<html><head></head><body>Hello</body></html>");
    assert_eq!(extract_title(&doc), None);
}

#[test]
fn extract_title_none_when_empty_title_tag() {
    let doc = Document::parse("<html><head><title>   </title></head></html>");
    assert_eq!(extract_title(&doc), None);
}

#[test]
fn extract_title_trims_whitespace() {
    let doc = Document::parse(r#"<html><head><meta property="og:title" content="  Trimmed  "></head></html>"#);
    assert_eq!(extract_title(&doc), Some("Trimmed".to_string()));
}

// --- extract_body tests ---

#[test]
fn extract_body_from_article_element() {
    let doc = Document::parse(
        r#"<html><body><article><p>Article content</p></article></body></html>"#,
    );
    assert_eq!(
        extract_body(&doc),
        Some("<p>Article content</p>".to_string())
    );
}

#[test]
fn extract_body_article_takes_precedence_over_description() {
    let doc = Document::parse(
        r#"<html><head>
        <meta property="og:description" content="OG Desc">
        </head><body><article><p>Article content</p></article></body></html>"#,
    );
    assert_eq!(
        extract_body(&doc),
        Some("<p>Article content</p>".to_string())
    );
}

#[test]
fn extract_body_falls_back_to_og_description() {
    let doc = Document::parse(
        r#"<html><head><meta property="og:description" content="OG Desc"></head><body><p>Some text</p></body></html>"#,
    );
    assert_eq!(extract_body(&doc), Some("OG Desc".to_string()));
}

#[test]
fn extract_body_falls_back_to_meta_description() {
    let doc = Document::parse(
        r#"<html><head><meta name="description" content="Meta Desc"></head><body><p>Some text</p></body></html>"#,
    );
    assert_eq!(extract_body(&doc), Some("Meta Desc".to_string()));
}

#[test]
fn extract_body_og_description_takes_precedence_over_meta_description() {
    let doc = Document::parse(
        r#"<html><head>
        <meta property="og:description" content="OG Desc">
        <meta name="description" content="Meta Desc">
        </head></html>"#,
    );
    assert_eq!(extract_body(&doc), Some("OG Desc".to_string()));
}

#[test]
fn extract_body_falls_back_when_og_empty() {
    let doc = Document::parse(
        r#"<html><head>
        <meta property="og:description" content="">
        <meta name="description" content="Fallback Desc">
        </head></html>"#,
    );
    assert_eq!(extract_body(&doc), Some("Fallback Desc".to_string()));
}

#[test]
fn extract_body_falls_back_when_og_whitespace() {
    let doc = Document::parse(
        r#"<html><head>
        <meta property="og:description" content="   ">
        <meta name="description" content="Fallback Desc">
        </head></html>"#,
    );
    assert_eq!(extract_body(&doc), Some("Fallback Desc".to_string()));
}

#[test]
fn extract_body_none_when_missing() {
    let doc = Document::parse("<html><head></head><body>Hello</body></html>");
    assert_eq!(extract_body(&doc), None);
}

#[test]
fn extract_body_none_when_both_descriptions_empty() {
    let doc = Document::parse(
        r#"<html><head>
        <meta property="og:description" content="">
        <meta name="description" content="">
        </head></html>"#,
    );
    assert_eq!(extract_body(&doc), None);
}

#[test]
fn extract_body_trims_whitespace() {
    let doc = Document::parse(
        r#"<html><head><meta property="og:description" content="  Trimmed  "></head></html>"#,
    );
    assert_eq!(extract_body(&doc), Some("Trimmed".to_string()));
}

#[test]
fn extract_body_empty_article_falls_back_to_description() {
    let doc = Document::parse(
        r#"<html><head>
        <meta property="og:description" content="OG Desc">
        </head><body><article>   </article></body></html>"#,
    );
    assert_eq!(extract_body(&doc), Some("OG Desc".to_string()));
}

// --- resolution ---

#[test]
fn oembed_request_url_encodes_the_link() {
    assert_eq!(
        oembed_request_url("https://youtu.be/abc?t=1"),
        Some("https://www.youtube.com/oembed?url=https%3A%2F%2Fyoutu.be%2Fabc%3Ft%3D1&format=json".to_string())
    );
}

#[test]
fn oembed_title_reads_title_member() {
    assert_eq!(oembed_title(r#"{"title":"A Video","author_name":"x"}"#), Some("A Video".to_string()));
    assert_eq!(oembed_title(r#"{"author_name":"x"}"#), None);
    assert_eq!(oembed_title(r#"{"title":5}"#), None);
    assert_eq!(oembed_title("not json"), None);
}

#[test]
fn plan_fetch_adds_oembed_for_video_links_only() {
    let plan = plan_fetch("https://www.youtube.com/watch?v=abc");
    assert_eq!(plan.page_url, "https://www.youtube.com/watch?v=abc");
    assert_eq!(
        plan.oembed_url,
        Some("https://www.youtube.com/oembed?url=https%3A%2F%2Fwww.youtube.com%2Fwatch%3Fv%3Dabc&format=json".to_string())
    );
    let plan = plan_fetch("https://example.com/a");
    assert_eq!(plan.page_url, "https://example.com/a");
    assert_eq!(plan.oembed_url, None);
}

#[test]
fn resolve_prefers_oembed_title_and_keeps_page_body() {
    let page = r#"<html><head><title>Broken - YouTube</title><meta name="description" content="Desc"></head></html>"#;
    let meta = resolve_metadata(Some(page.to_string()), Some(r#"{"title":"Real Title"}"#.to_string()));
    assert_eq!(meta.title, Some("Real Title".to_string()));
    assert_eq!(meta.body, Some("Desc".to_string()));
}

#[test]
fn resolve_falls_back_to_page_title_when_oembed_fails() {
    let page = "<html><head><title>Page Title</title></head></html>";
    let meta = resolve_metadata(Some(page.to_string()), Some("oops".to_string()));
    assert_eq!(meta.title, Some("Page Title".to_string()));
    let meta = resolve_metadata(Some(page.to_string()), None);
    assert_eq!(meta.title, Some("Page Title".to_string()));
    assert_eq!(meta.body, None);
}

#[test]
fn resolve_with_both_fetches_failed_is_empty() {
    let meta = resolve_metadata(None, None);
    assert_eq!(meta.title, None);
    assert_eq!(meta.body, None);
    let meta = resolve_metadata(None, Some(r#"{"title":"Only oEmbed"}"#.to_string()));
    assert_eq!(meta.title, Some("Only oEmbed".to_string()));
    assert_eq!(meta.body, None);
}

#[test]
fn extract_title_trims_title_element_text() {
    let doc = Document::parse("<html><head><title>\n  Spaced Title \t</title></head></html>");
    assert_eq!(extract_title(&doc), Some("Spaced Title".to_string()));
}

#[test]
fn extract_body_falls_back_when_article_whitespace_and_og_blank() {
    let doc = Document::parse(
        r#"<html><head>
        <meta property="og:description" content=" 
 ">
        <meta name="description" content="Named">
        </head><body><article>  </article></body></html>"#,
    );
    assert_eq!(extract_body(&doc), Some("Named".to_string()));
}
