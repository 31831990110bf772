//! Page metadata: extraction from HTML under fixed fallback rules, detection
//! of video-platform links, and the combination of a page scrape with an
//! oEmbed title lookup.
use vstd::prelude::*;

use crate::text::{is_white_space, str_eq, trim, trimmed};

verus! {

#[verifier::external_type_specification]
#[verifier::external_body]
pub struct ExHtml(scraper::Html);

/// Seconds after which a page or oEmbed request is given up.
pub const FETCH_TIMEOUT_SECS: u64 = 5;

/// The client header sent with page requests.
pub const USER_AGENT: &'static str = "Laterfeed/1.0";

/// The oEmbed endpoint of the video platform.
pub const OEMBED_ENDPOINT: &'static str = "https://www.youtube.com/oembed";

pub const OG_TITLE_SELECTOR: &'static str = "meta[property=\"og:title\"]";

pub const TITLE_SELECTOR: &'static str = "title";

pub const ARTICLE_SELECTOR: &'static str = "article";

pub const OG_DESCRIPTION_SELECTOR: &'static str = "meta[property=\"og:description\"]";

pub const DESCRIPTION_SELECTOR: &'static str = "meta[name=\"description\"]";

pub const CONTENT_ATTR: &'static str = "content";

/// Title and body found for a page; either may be absent.
#[derive(Debug)]
pub struct PageMetadata {
    pub title: Option<String>,
    pub body: Option<String>,
}

impl PageMetadata {
    /// Metadata with neither field.
    pub fn empty() -> (r: PageMetadata)
        ensures
            r.title is None,
            r.body is None,
    {
        PageMetadata { title: None, body: None }
    }
}

/// A parsed HTML document, together with the text it was parsed from.
pub struct Document {
    html: scraper::Html,
    source: Ghost<Seq<char>>,
}

impl View for Document {
    type V = Seq<char>;

    closed spec fn view(&self) -> Seq<char> {
        self.source@
    }
}

/// Relies on `scraper::Html::parse_document`, which parses any text into a
/// document tree and never fails.
#[verifier::external_body]
fn parse_html(source: &str) -> scraper::Html {
    scraper::Html::parse_document(source)
}

impl Document {
    /// Parses an HTML page.
    pub fn parse(source: &str) -> (d: Document)
        ensures
            d@ == source@,
    {
        Document { html: parse_html(source), source: Ghost(source@) }
    }
}

/// The value of attribute `attr` on the first element of the document parsed
/// from `page` that matches the CSS selector `selector`.
pub uninterp spec fn first_attr_of(page: Seq<char>, selector: Seq<char>, attr: Seq<char>) -> Option<
    Seq<char>,
>;

/// The text content of the first element of the document parsed from `page`
/// that matches `selector`.
pub uninterp spec fn first_text_of(page: Seq<char>, selector: Seq<char>) -> Option<Seq<char>>;

/// The inner markup of the first element of the document parsed from `page`
/// that matches `selector`.
pub uninterp spec fn first_inner_html_of(page: Seq<char>, selector: Seq<char>) -> Option<Seq<char>>;

/// Relies on scraper's `Selector::parse`, `Html::select` and `ElementRef::attr`:
/// the attribute of the first match, None when the selector does not parse,
/// nothing matches or the first match lacks the attribute. The document was
/// parsed from `doc@` by `Document::parse`, so the result depends on the page
/// text, the selector and the attribute name alone.
#[verifier::external_body]
fn select_first_attr(doc: &Document, selector: &str, attr: &str) -> (r: Option<String>)
    ensures
        r.deep_view() == first_attr_of(doc@, selector@, attr@),
{
    let sel = scraper::Selector::parse(selector).ok()?;
    doc.html.select(&sel).next()?.attr(attr).map(|v| v.to_string())
}

/// Relies on scraper's `Selector::parse`, `Html::select` and `ElementRef::text`:
/// the text nodes below the first match, joined; None when the selector does
/// not parse or nothing matches.
#[verifier::external_body]
fn select_first_text(doc: &Document, selector: &str) -> (r: Option<String>)
    ensures
        r.deep_view() == first_text_of(doc@, selector@),
{
    let sel = scraper::Selector::parse(selector).ok()?;
    doc.html.select(&sel).next().map(|el| el.text().collect::<String>())
}

/// Relies on scraper's `Selector::parse`, `Html::select` and
/// `ElementRef::inner_html`: the serialized children of the first match; None
/// when the selector does not parse or nothing matches.
#[verifier::external_body]
fn select_first_inner_html(doc: &Document, selector: &str) -> (r: Option<String>)
    ensures
        r.deep_view() == first_inner_html_of(doc@, selector@),
{
    let sel = scraper::Selector::parse(selector).ok()?;
    doc.html.select(&sel).next().map(|el| el.inner_html())
}

/// A candidate value, trimmed; a missing or blank candidate is no value.
pub open spec fn accepted(c: Option<Seq<char>>) -> Option<Seq<char>> {
    match c {
        Some(s) => if trimmed(s).len() > 0 {
            Some(trimmed(s))
        } else {
            None
        },
        None => None,
    }
}

/// `a` when it is present, `b` otherwise.
pub open spec fn or_else(a: Option<Seq<char>>, b: Option<Seq<char>>) -> Option<Seq<char>> {
    if a is Some {
        a
    } else {
        b
    }
}

pub open spec fn og_title_of(page: Seq<char>) -> Option<Seq<char>> {
    first_attr_of(page, OG_TITLE_SELECTOR@, CONTENT_ATTR@)
}

pub open spec fn title_element_of(page: Seq<char>) -> Option<Seq<char>> {
    first_text_of(page, TITLE_SELECTOR@)
}

pub open spec fn article_of(page: Seq<char>) -> Option<Seq<char>> {
    first_inner_html_of(page, ARTICLE_SELECTOR@)
}

pub open spec fn og_description_of(page: Seq<char>) -> Option<Seq<char>> {
    first_attr_of(page, OG_DESCRIPTION_SELECTOR@, CONTENT_ATTR@)
}

pub open spec fn description_of(page: Seq<char>) -> Option<Seq<char>> {
    first_attr_of(page, DESCRIPTION_SELECTOR@, CONTENT_ATTR@)
}

/// The title of a page: the Open-Graph title, else the title element.
pub open spec fn title_of(page: Seq<char>) -> Option<Seq<char>> {
    or_else(accepted(og_title_of(page)), accepted(title_element_of(page)))
}

/// The body of a page: the markup of the first `article` element, else the
/// Open-Graph description, else the named description.
pub open spec fn body_of(page: Seq<char>) -> Option<Seq<char>> {
    or_else(
        accepted(article_of(page)),
        or_else(accepted(og_description_of(page)), accepted(description_of(page))),
    )
}

/// The candidate trimmed, or None when it is missing or blank.
fn accept_candidate(c: Option<String>) -> (r: Option<String>)
    ensures
        r.deep_view() == accepted(c.deep_view()),
{
    match c {
        Some(s) => {
            let t = trim(s.as_str());
            if t.is_empty() {
                None
            } else {
                Some(String::from_str(t))
            }
        },
        None => None,
    }
}

/// The title of the document under the title rule.
pub fn extract_title(document: &Document) -> (r: Option<String>)
    ensures
        r.deep_view() == title_of(document@),
{
    let og = accept_candidate(select_first_attr(document, OG_TITLE_SELECTOR, CONTENT_ATTR));
    if og.is_some() {
        return og;
    }
    accept_candidate(select_first_text(document, TITLE_SELECTOR))
}

/// The body of the document under the body rule. The service keeps rich
/// bodies: article markup comes before the page's descriptions.
pub fn extract_body(document: &Document) -> (r: Option<String>)
    ensures
        r.deep_view() == body_of(document@),
{
    let article = accept_candidate(select_first_inner_html(document, ARTICLE_SELECTOR));
    if article.is_some() {
        return article;
    }
    let og = accept_candidate(
        select_first_attr(document, OG_DESCRIPTION_SELECTOR, CONTENT_ATTR),
    );
    if og.is_some() {
        return og;
    }
    accept_candidate(select_first_attr(document, DESCRIPTION_SELECTOR, CONTENT_ATTR))
}

/// A blank candidate (empty or white space only) is no value, so the
/// fallback goes on to the next one.
pub proof fn lemma_blank_candidate_rejected(s: Seq<char>)
    requires
        forall|i: int| 0 <= i < s.len() ==> is_white_space(#[trigger] s[i]),
    ensures
        accepted(Some(s)) is None,
{
    crate::text::lemma_white_space_trims_to_empty(s);
}

/// Title fallback: a non-blank Open-Graph title is the title, trimmed,
/// whatever the title element holds; a missing or blank one gives way to the
/// title element; with neither, there is no title.
pub proof fn lemma_title_fallback(page: Seq<char>)
    ensures
        og_title_of(page) is Some && trimmed(og_title_of(page)->Some_0).len() > 0 ==> title_of(page)
            == Some(trimmed(og_title_of(page)->Some_0)),
        accepted(og_title_of(page)) is None ==> title_of(page) == accepted(title_element_of(page)),
        og_title_of(page) is None ==> title_of(page) == accepted(title_element_of(page)),
        og_title_of(page) is Some && (forall|i: int|
            0 <= i < og_title_of(page)->Some_0.len() ==> is_white_space(
                #[trigger] og_title_of(page)->Some_0[i],
            )) ==> title_of(page) == accepted(title_element_of(page)),
        accepted(og_title_of(page)) is None && accepted(title_element_of(page)) is None
            ==> title_of(page) is None,
{
    if og_title_of(page) is Some && (forall|i: int|
        0 <= i < og_title_of(page)->Some_0.len() ==> is_white_space(
            #[trigger] og_title_of(page)->Some_0[i],
        )) {
        lemma_blank_candidate_rejected(og_title_of(page)->Some_0);
    }
}

/// Body fallback order: article markup, then the Open-Graph description,
/// then the named description, then nothing; each candidate counts only when
/// it is present and not blank.
pub proof fn lemma_body_fallback_order(page: Seq<char>)
    ensures
        accepted(article_of(page)) is Some ==> body_of(page) == accepted(article_of(page)),
        accepted(article_of(page)) is None && accepted(og_description_of(page)) is Some
            ==> body_of(page) == accepted(og_description_of(page)),
        accepted(article_of(page)) is None && accepted(og_description_of(page)) is None
            ==> body_of(page) == accepted(description_of(page)),
        accepted(article_of(page)) is None && accepted(og_description_of(page)) is None
            && accepted(description_of(page)) is None ==> body_of(page) is None,
{
}

/// The host component of `url` read as an absolute URL; None when it does
/// not parse or has no host.
pub uninterp spec fn host_of(url: Seq<char>) -> Option<Seq<char>>;

/// Relies on `url::Url::parse` and `Url::host_str`: the host of the parsed
/// URL, None when parsing fails or the URL has no host.
#[verifier::external_body]
fn url_host(url: &str) -> (r: Option<String>)
    ensures
        r.deep_view() == host_of(url@),
{
    match url::Url::parse(url) {
        Ok(parsed) => parsed.host_str().map(|h| h.to_string()),
        Err(_) => None,
    }
}

/// The hosts of the video platform.
pub open spec fn is_video_host(h: Seq<char>) -> bool {
    h == "youtube.com"@ || h == "www.youtube.com"@ || h == "m.youtube.com"@ || h
        == "music.youtube.com"@ || h == "youtu.be"@
}

/// Whether `url` parses and its host is exactly one of the video hosts.
pub open spec fn is_video_url(url: Seq<char>) -> bool {
    match host_of(url) {
        Some(h) => is_video_host(h),
        None => false,
    }
}

fn video_host(h: &str) -> (r: bool)
    ensures
        r == is_video_host(h@),
{
    str_eq(h, "youtube.com") || str_eq(h, "www.youtube.com") || str_eq(h, "m.youtube.com")
        || str_eq(h, "music.youtube.com") || str_eq(h, "youtu.be")
}

/// Whether the link points at the video platform.
pub fn is_youtube_url(url_str: &str) -> (r: bool)
    ensures
        r == is_video_url(url_str@),
{
    match url_host(url_str) {
        Some(h) => video_host(h.as_str()),
        None => false,
    }
}

/// Video detection looks at the parsed host only, and asks for an exact
/// match: a link that does not parse is no video link, and a video host
/// followed by anything more is no video host.
pub proof fn lemma_video_detection_is_host_exact(url: Seq<char>, h: Seq<char>, extra: Seq<char>)
    ensures
        host_of(url) is None ==> !is_video_url(url),
        host_of(url) is Some ==> is_video_url(url) == is_video_host(host_of(url)->Some_0),
        is_video_host(h) && extra.len() > 0 ==> !is_video_host(h + extra),
{
    if is_video_host(h) && extra.len() > 0 {
        reveal_strlit("youtube.com");
        reveal_strlit("www.youtube.com");
        reveal_strlit("m.youtube.com");
        reveal_strlit("music.youtube.com");
        reveal_strlit("youtu.be");
        let x = h + extra;
        assert(x[0] == h[0]);
        assert(x[1] == h[1]);
        assert(x[5] == h[5]);
    }
}

/// The URL `base` with `pairs` appended, form-encoded, to its query; None
/// when `base` does not parse as a URL.
pub uninterp spec fn url_with_query_of(base: Seq<char>, pairs: Seq<(Seq<char>, Seq<char>)>) -> Option<
    Seq<char>,
>;

/// Relies on `url::Url::parse` and `Url::query_pairs_mut`: `base` with the
/// pairs appended, form-encoded, to its query; None when `base` does not parse.
#[verifier::external_body]
fn url_with_query(base: &str, pairs: &Vec<(String, String)>) -> (r: Option<String>)
    ensures
        r.deep_view() == url_with_query_of(base@, pairs.deep_view()),
{
    let mut url = url::Url::parse(base).ok()?;
    url.query_pairs_mut().extend_pairs(pairs.iter().map(|(k, v)| (k.as_str(), v.as_str())));
    Some(url.as_str().to_string())
}

/// The oEmbed request address for a video link.
pub open spec fn oembed_url_of(video_url: Seq<char>) -> Option<Seq<char>> {
    url_with_query_of(OEMBED_ENDPOINT@, seq![("url"@, video_url), ("format"@, "json"@)])
}

/// The oEmbed request address for `video_url`.
pub fn oembed_request_url(video_url: &str) -> (r: Option<String>)
    ensures
        r.deep_view() == oembed_url_of(video_url@),
{
    let mut pairs: Vec<(String, String)> = Vec::new();
    pairs.push((String::from_str("url"), String::from_str(video_url)));
    pairs.push((String::from_str("format"), String::from_str("json")));
    assert(pairs.deep_view() =~= seq![("url"@, video_url@), ("format"@, "json"@)]);
    url_with_query(OEMBED_ENDPOINT, &pairs)
}

/// The string under `key` in the JSON object that `text` holds.
pub uninterp spec fn json_string_member_of(text: Seq<char>, key: Seq<char>) -> Option<Seq<char>>;

/// Relies on `serde_json::from_str` into a `Value`, `Value::get` and
/// `Value::as_str`: None when `text` is not JSON, not an object, lacks `key`,
/// or holds something other than a string under it.
#[verifier::external_body]
fn json_string_member(text: &str, key: &str) -> (r: Option<String>)
    ensures
        r.deep_view() == json_string_member_of(text@, key@),
{
    let value: serde_json::Value = serde_json::from_str(text).ok()?;
    value.get(key)?.as_str().map(|s| s.to_string())
}

/// The video title in an oEmbed response.
pub fn oembed_title(response: &str) -> (r: Option<String>)
    ensures
        r.deep_view() == json_string_member_of(response@, "title"@),
{
    json_string_member(response, "title")
}

/// Title and body of a parsed page.
pub fn page_metadata(document: &Document) -> (r: PageMetadata)
    ensures
        r.title.deep_view() == title_of(document@),
        r.body.deep_view() == body_of(document@),
{
    PageMetadata { title: extract_title(document), body: extract_body(document) }
}

/// What to fetch for a link: the page itself always, and the oEmbed
/// record as well when the link is a video link.
#[derive(Debug)]
pub struct FetchPlan {
    pub page_url: String,
    pub oembed_url: Option<String>,
}

/// The fetches that resolving `url` takes.
pub fn plan_fetch(url: &str) -> (r: FetchPlan)
    ensures
        r.page_url@ == url@,
        r.oembed_url.deep_view() == if is_video_url(url@) {
            oembed_url_of(url@)
        } else {
            None
        },
{
    let oembed_url = if is_youtube_url(url) {
        oembed_request_url(url)
    } else {
        None
    };
    FetchPlan { page_url: String::from_str(url), oembed_url }
}

/// The title found in a fetched page, if the fetch succeeded.
pub open spec fn fetched_title(page: Option<Seq<char>>) -> Option<Seq<char>> {
    match page {
        Some(p) => title_of(p),
        None => None,
    }
}

/// The body found in a fetched page, if the fetch succeeded.
pub open spec fn fetched_body(page: Option<Seq<char>>) -> Option<Seq<char>> {
    match page {
        Some(p) => body_of(p),
        None => None,
    }
}

/// The title in a fetched oEmbed response, if the fetch succeeded.
pub open spec fn fetched_oembed_title(response: Option<Seq<char>>) -> Option<Seq<char>> {
    match response {
        Some(r) => json_string_member_of(r, "title"@),
        None => None,
    }
}

/// Metadata from the outcome of the fetches: `page` is the page text and
/// `oembed` the oEmbed response, each None when its fetch failed or was not
/// made. The oEmbed title wins when there is one; the body always comes from
/// the page. Failures give absent fields, never an error.
pub fn resolve_metadata(page: Option<String>, oembed: Option<String>) -> (r: PageMetadata)
    ensures
        r.title.deep_view() == or_else(
            fetched_oembed_title(oembed.deep_view()),
            fetched_title(page.deep_view()),
        ),
        r.body.deep_view() == fetched_body(page.deep_view()),
{
    let scraped = match page {
        Some(html) => page_metadata(&Document::parse(html.as_str())),
        None => PageMetadata::empty(),
    };
    let video_title = match oembed {
        Some(response) => oembed_title(response.as_str()),
        None => None,
    };
    let title = if video_title.is_some() {
        video_title
    } else {
        scraped.title
    };
    PageMetadata { title, body: scraped.body }
}

} // verus!
