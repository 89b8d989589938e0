use std::cell::RefCell;
use std::collections::HashMap;
use std::rc::Rc;

use storyfetch::adapter::asstr;
use storyfetch::adapter::bdsmlibrary;
use storyfetch::adapter::gaggedutopia;
use storyfetch::adapter::sexstories;
use storyfetch::adapter::thefetlibrary;
use storyfetch::adapter::{Adapter, DirectoryUrls, DocumentUrl, Paging};
use storyfetch::document::{Meta, MetadataMap};
use storyfetch::error::Error;
use storyfetch::pattern::Pattern;
use storyfetch::transport::Transport;

#[derive(Clone)]
struct MapTransport {
    pages: HashMap<String, String>,
    hits: Rc<RefCell<Vec<String>>>,
}

impl MapTransport {
    fn new(pages: &[(&str, &str)]) -> MapTransport {
        MapTransport {
            pages: pages
                .iter()
                .map(|(k, v)| (k.to_string(), v.to_string()))
                .collect(),
            hits: Rc::new(RefCell::new(Vec::new())),
        }
    }
}

impl Transport for MapTransport {
    fn get(&self, url: &str) -> Result<String, Error> {
        self.hits.borrow_mut().push(url.to_string());
        self.pages
            .get(url)
            .cloned()
            .ok_or_else(|| Error::Transport(format!("no page: {}", url)))
    }
}

fn drain<P: Paging>(mut d: DirectoryUrls<P>) -> Vec<DocumentUrl> {
    let mut out = Vec::new();
    while let Some(item) = d.next() {
        out.push(item.unwrap());
    }
    out
}

fn meta_with(entries: &[(Meta, &str)]) -> MetadataMap {
    let mut meta = MetadataMap::new();
    for (k, v) in entries {
        meta.insert(k.clone(), v.to_string());
    }
    meta
}

#[test]
fn name_from_url() {
    let actual = asstr::name_from_url("https://www.asstr.org/files/Collections/Old_Joe's_Collection/Rape/Dark_Dreamer/SORO-SLV.002");
    assert_eq!("SORO-SLV.002", actual);
}

#[test]
fn name_from_url_strips_query() {
    assert_eq!(asstr::name_from_url("https://host/dir/story.txt?raw=1"), "story.txt");
    assert_eq!(asstr::name_from_url("plain"), "plain");
    assert_eq!(asstr::name_from_url("odd?q/x"), "");
}

#[test]
fn asstr_listing_skips_parent_directory() {
    let page = "<html><body><table>\
         <tr><td class=\"link\"><a href=\"../\">../</a></td></tr>\
         <tr><td class=\"link\"><a href=\"story1.txt\">one</a></td></tr>\
         <tr><td class=\"link\"><a href=\"story2.txt\">two</a></td></tr>\
         </table></body></html>";
    let items = drain(asstr::parse_listing("https://host/dir/", page));
    let urls: Vec<&str> = items.iter().map(|i| i.url()).collect();
    assert_eq!(
        urls,
        vec!["https://host/dir/story1.txt", "https://host/dir/story2.txt"]
    );
    assert!(items[0].meta().get(&Meta::Author).is_none());
}

#[test]
fn asstr_story_takes_title_from_url() {
    let context = DocumentUrl::new(
        "https://host/dir/SORO-SLV.002".to_string(),
        meta_with(&[(Meta::Author, "X")]),
    );
    let doc = asstr::parse_story(context, "file body".to_string());
    assert_eq!(doc.title(), Some("SORO-SLV.002"));
    assert_eq!(doc.author(), Some("X"));
    assert_eq!(doc.content(), "file body");
}

#[test]
fn bdsmlibrary_listing_extracts_ids_and_author() {
    let page = "<html><head><title>BDSM Library - Stories by Jane</title></head><body>\
         <a href=\"story.php?storyid=123\">one</a>\
         <a href=\"story.php?storyid=456\">two</a>\
         </body></html>";
    let ids = Pattern::compile(bdsmlibrary::STORY_ID_PATTERN);
    let author = Pattern::compile(bdsmlibrary::AUTHOR_PATTERN);
    let items = drain(bdsmlibrary::parse_listing(&ids, &author, page));
    let urls: Vec<&str> = items.iter().map(|i| i.url()).collect();
    assert_eq!(
        urls,
        vec![
            "https://www.bdsmlibrary.com/stories/wholestory.php?storyid=123",
            "https://www.bdsmlibrary.com/stories/wholestory.php?storyid=456",
        ]
    );
    assert_eq!(
        items[0].meta().get(&Meta::Author).map(String::as_str),
        Some("Jane")
    );
}

#[test]
fn bdsmlibrary_story_reads_title_tag() {
    let title = Pattern::compile(bdsmlibrary::TITLE_PATTERN);
    let context = DocumentUrl::new(
        "u".to_string(),
        meta_with(&[(Meta::Author, "Jane")]),
    );
    let text = "<title>My Tale</title><p>body</p>".to_string();
    let doc = bdsmlibrary::parse_story(&title, context, text.clone());
    assert_eq!(doc.title(), Some("My Tale"));
    assert_eq!(doc.author(), Some("Jane"));
    assert_eq!(doc.content(), text.as_str());
}

#[test]
fn bdsmlibrary_story_without_title_keeps_snapshot() {
    let title = Pattern::compile(bdsmlibrary::TITLE_PATTERN);
    let context = DocumentUrl::new("u".to_string(), meta_with(&[(Meta::Author, "Jane")]));
    let doc = bdsmlibrary::parse_story(&title, context, "no tags here".to_string());
    assert_eq!(doc.title(), None);
    assert_eq!(doc.author(), Some("Jane"));
}

#[test]
fn gaggedutopia_listing_filters_story_links() {
    let page = "<html><body><table>\
         <tr><td><b><a href=\"/code/show_story.asp/recid/99\">story</a></b></td></tr>\
         <tr><td><b><a href=\"/code/about.asp\">about</a></b></td></tr>\
         </table></body></html>";
    let link = Pattern::compile(gaggedutopia::LINK_PATTERN);
    let seed = "https://www.utopiastories.com/code/show_result.asp?search=basic&author=Roger";
    let items = drain(gaggedutopia::parse_listing(&link, seed, page));
    let urls: Vec<&str> = items.iter().map(|i| i.url()).collect();
    assert_eq!(
        urls,
        vec!["https://www.utopiastories.com/code/show_story.asp/recid/99"]
    );
    assert_eq!(
        items[0].meta().get(&Meta::Author).map(String::as_str),
        Some("Roger")
    );
}

#[test]
fn gaggedutopia_author_from_url() {
    assert_eq!(
        gaggedutopia::try_get_author_from_url("https://x/y?author=Roger&z=1"),
        Some("Roger".to_string())
    );
    assert_eq!(gaggedutopia::try_get_author_from_url("https://x/y"), None);
}

#[test]
fn gaggedutopia_story_title_before_separator() {
    let title = Pattern::compile(gaggedutopia::TITLE_PATTERN);
    let context = DocumentUrl::new("u".to_string(), MetadataMap::new());
    let text = "<html><head><title>My Gag Story :: Utopia</title></head><body>b</body></html>"
        .to_string();
    let doc = gaggedutopia::parse_story(&title, context, text);
    assert_eq!(doc.title(), Some("My Gag Story"));
}

#[test]
fn sexstories_listing_reads_first_table_only() {
    let page = "<html><body>\
         <h3 class=\"notice\"><div class=\"left\">AuthorY</div></h3>\
         <table><tr><td><a href=\"/s/own\">own</a></td></tr></table>\
         <table><tr><td><a href=\"/s/favorite\">fav</a></td></tr></table>\
         </body></html>";
    let items = drain(sexstories::parse_listing(page));
    let urls: Vec<&str> = items.iter().map(|i| i.url()).collect();
    assert_eq!(urls, vec!["https://sexstories.com/s/own"]);
    assert_eq!(
        items[0].meta().get(&Meta::Author).map(String::as_str),
        Some("AuthorY")
    );
}

#[test]
fn sexstories_story_title_is_trimmed_first_line() {
    let title = Pattern::compile(sexstories::TITLE_PATTERN);
    let context = DocumentUrl::new("u".to_string(), MetadataMap::new());
    let text = "<html><body><div class=\"story_info\">\
         <h2>  My SS Title  \nsecond line</h2>\
         </div></body></html>"
    .to_string();
    let doc = sexstories::parse_story(&title, context, text);
    assert_eq!(doc.title(), Some("My SS Title"));
}

#[test]
fn fetlibrary_listing_reads_links_and_author() {
    let page = "<html><body>\
         <div class=\"jumbotron page-title\"><div class=\"container text-center\">\
         <div><h2>AuthorX</h2></div></div></div>\
         <div class=\"story-list-item\"><h3><a href=\"/story/1\">one</a></h3></div>\
         <div class=\"story-list-item\"><h3><a href=\"/story/2\">two</a></h3></div>\
         </body></html>";
    let items = drain(thefetlibrary::parse_listing(page));
    let urls: Vec<&str> = items.iter().map(|i| i.url()).collect();
    assert_eq!(
        urls,
        vec![
            "https://www.thefetlibrary.com/story/1",
            "https://www.thefetlibrary.com/story/2",
        ]
    );
    assert_eq!(
        items[0].meta().get(&Meta::Author).map(String::as_str),
        Some("AuthorX")
    );
}

fn fet_part_page(content: &str) -> String {
    format!(
        "<html><body><div class=\"container\"><div class=\"row\">\
         <div class=\"col-12 story-content\">{}</div></div></div></body></html>",
        content
    )
}

#[test]
fn fetlibrary_assembles_three_parts_in_order() {
    let base = "https://www.thefetlibrary.com/story/1";
    let first = "<html><head><title>The Fet Library :: My Story</title></head><body>\
         <div class=\"jumbotron page-subtitle\"><div class=\"container text-center\">\
          bondage, rescue </div></div>\
         <div class=\"container\"><div class=\"row\">\
         <div class=\"col-12 story-content\">PART ONE</div></div></div>\
         <a href=\"?part=2\">2</a><a href=\"?part=3\">3</a><a href=\"?part=3\">next</a>\
         </body></html>";
    let transport = MapTransport::new(&[
        (base, first),
        (
            "https://www.thefetlibrary.com/story/1?part=2",
            &fet_part_page("PART TWO"),
        ),
        (
            "https://www.thefetlibrary.com/story/1?part=3",
            &fet_part_page("PART THREE"),
        ),
    ]);
    let hits = transport.hits.clone();
    let adapter = thefetlibrary::FetLibraryAdapter::new(transport);
    let context = DocumentUrl::new(base.to_string(), meta_with(&[(Meta::Author, "AuthorX")]));
    let doc = adapter.download(context).unwrap();
    assert_eq!(doc.title(), Some("My Story"));
    assert_eq!(doc.author(), Some("AuthorX"));
    let body = doc.content();
    let expected_header = "<title>My Story - AuthorX</title>\n\
         <h1>My Story</h1>\n\
         <p>By <span id=author>AuthorX</span></p>\n\
         <p id=tags>tags: bondage, rescue</p>\n";
    assert!(body.starts_with(expected_header), "body was: {}", body);
    let one = body.find("<h2>Chapter 1</h2>\n<div class=\"col-12 story-content\">PART ONE</div>\n");
    let two = body.find("<h2>Chapter 2</h2>\n<div class=\"col-12 story-content\">PART TWO</div>\n");
    let three =
        body.find("<h2>Chapter 3</h2>\n<div class=\"col-12 story-content\">PART THREE</div>\n");
    assert!(one.is_some() && two.is_some() && three.is_some(), "body was: {}", body);
    assert!(one < two && two < three);
    assert_eq!(
        hits.borrow().as_slice(),
        &[
            base.to_string(),
            "https://www.thefetlibrary.com/story/1?part=2".to_string(),
            "https://www.thefetlibrary.com/story/1?part=3".to_string(),
        ]
    );
}

#[test]
fn fetlibrary_single_part_story() {
    let base = "https://www.thefetlibrary.com/story/2";
    let first = "<html><head><title>The Fet Library :: Short</title></head><body>\
         <div class=\"jumbotron page-subtitle\"><div class=\"container text-center\">\
         tag</div></div>\
         <div class=\"container\"><div class=\"row\">\
         <div class=\"col-12 story-content\">ONLY PART</div></div></div>\
         </body></html>";
    let transport = MapTransport::new(&[(base, first)]);
    let adapter = thefetlibrary::FetLibraryAdapter::new(transport);
    let context = DocumentUrl::new(base.to_string(), meta_with(&[(Meta::Author, "A")]));
    let doc = adapter.download(context).unwrap();
    assert!(doc.content().contains("<h2>Chapter 1</h2>"));
    assert!(doc.content().contains("ONLY PART"));
    assert!(!doc.content().contains("<h2>Chapter 2</h2>"));
}

#[test]
fn adapter_directory_through_transport() {
    let seed = "https://host/dir/";
    let page = "<table><tr><td class=\"link\"><a href=\"s.txt\">s</a></td></tr></table>";
    let transport = MapTransport::new(&[(seed, page)]);
    let adapter = asstr::AsstrAdapter::new(transport);
    let items = drain(adapter.directory(seed).unwrap());
    assert_eq!(items.len(), 1);
    assert_eq!(items[0].url(), "https://host/dir/s.txt");
}

#[test]
fn adapter_transport_failure_is_surfaced() {
    let transport = MapTransport::new(&[]);
    let adapter = asstr::AsstrAdapter::new(transport);
    match adapter.directory("https://host/missing") {
        Err(Error::Transport(_)) => {}
        other => panic!("expected a transport error, got {:?}", other.map(|_| ())),
    }
}

#[test]
fn fetlibrary_part_failure_is_surfaced() {
    let base = "https://www.thefetlibrary.com/story/3";
    let first = "<html><head><title>The Fet Library :: Broken</title></head><body>\
         <div class=\"col-12 story-content\">P1</div>\
         <a href=\"?part=2\">2</a><a href=\"?part=2\">next</a>\
         </body></html>";
    let transport = MapTransport::new(&[(base, first)]);
    let adapter = thefetlibrary::FetLibraryAdapter::new(transport);
    let context = DocumentUrl::new(base.to_string(), MetadataMap::new());
    match adapter.download(context) {
        Err(Error::Transport(_)) => {}
        other => panic!("expected a transport error, got {:?}", other.map(|_| ())),
    }
}
