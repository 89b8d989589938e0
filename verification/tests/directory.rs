use std::cell::Cell;
use std::cell::RefCell;
use std::collections::HashMap;
use std::collections::VecDeque;
use std::rc::Rc;

use storyfetch::adapter::{Adapter, DirectoryUrls, DocumentUrl, NoPaging, Paging};
use storyfetch::document::{Document, Meta, MetadataMap};
use storyfetch::error::Error;
use storyfetch::transport::Transport;

fn deque(items: &[&str]) -> VecDeque<String> {
    items.iter().map(|s| s.to_string()).collect()
}

struct ScriptedPaging {
    batches: VecDeque<Option<Result<VecDeque<String>, Error>>>,
    calls: Rc<Cell<usize>>,
}

impl Paging for ScriptedPaging {
    fn next_page(&mut self) -> Option<Result<VecDeque<String>, Error>> {
        self.calls.set(self.calls.get() + 1);
        self.batches.pop_front().unwrap_or(None)
    }
}

fn drain<P: Paging>(d: &mut DirectoryUrls<P>) -> Vec<Result<DocumentUrl, Error>> {
    let mut out = Vec::new();
    while let Some(item) = d.next() {
        out.push(item);
    }
    out
}

#[test]
fn termination_empty_listing() {
    let mut d: DirectoryUrls<NoPaging> =
        DirectoryUrls::new(VecDeque::new(), None, MetadataMap::new());
    assert!(d.next().is_none());
    assert!(d.next().is_none());
}

#[test]
fn order_across_pages() {
    let calls = Rc::new(Cell::new(0));
    let paging = ScriptedPaging {
        batches: VecDeque::from(vec![Some(Ok(deque(&["d", "e"])))]),
        calls: calls.clone(),
    };
    let mut d = DirectoryUrls::new(deque(&["a", "b", "c"]), Some(paging), MetadataMap::new());
    let urls: Vec<String> = drain(&mut d)
        .into_iter()
        .map(|r| r.unwrap().url().to_string())
        .collect();
    assert_eq!(urls, vec!["a", "b", "c", "d", "e"]);
}

#[test]
fn lazy_fetch() {
    let calls = Rc::new(Cell::new(0));
    let paging = ScriptedPaging {
        batches: VecDeque::from(vec![Some(Ok(deque(&["c"])))]),
        calls: calls.clone(),
    };
    let mut d = DirectoryUrls::new(deque(&["a", "b"]), Some(paging), MetadataMap::new());
    assert_eq!(d.next().unwrap().unwrap().url(), "a");
    assert_eq!(calls.get(), 0);
    assert_eq!(d.next().unwrap().unwrap().url(), "b");
    assert_eq!(calls.get(), 0);
    assert_eq!(d.next().unwrap().unwrap().url(), "c");
    assert_eq!(calls.get(), 1);
}

#[test]
fn items_carry_snapshot() {
    let mut meta = MetadataMap::new();
    meta.insert(Meta::Author, "X".to_string());
    let mut d: DirectoryUrls<NoPaging> = DirectoryUrls::new(deque(&["a"]), None, meta);
    let item = d.next().unwrap().unwrap();
    assert_eq!(item.meta().get(&Meta::Author).map(String::as_str), Some("X"));
}

#[test]
fn error_surfaced_then_capability_discarded() {
    let calls = Rc::new(Cell::new(0));
    let paging = ScriptedPaging {
        batches: VecDeque::from(vec![Some(Err(Error::Transport("boom".to_string())))]),
        calls: calls.clone(),
    };
    let mut d = DirectoryUrls::new(VecDeque::new(), Some(paging), MetadataMap::new());
    let first = d.next().unwrap();
    assert_eq!(first.unwrap_err(), Error::Transport("boom".to_string()));
    assert!(d.next().is_none());
    assert_eq!(calls.get(), 1);
}

#[test]
fn empty_batch_terminates() {
    let calls = Rc::new(Cell::new(0));
    let paging = ScriptedPaging {
        batches: VecDeque::from(vec![Some(Ok(VecDeque::new()))]),
        calls: calls.clone(),
    };
    let mut d = DirectoryUrls::new(VecDeque::new(), Some(paging), MetadataMap::new());
    assert!(d.next().is_none());
    assert!(d.next().is_none());
    assert_eq!(calls.get(), 1);
}

#[test]
fn exhausted_capability_yields_nothing() {
    let calls = Rc::new(Cell::new(0));
    let paging = ScriptedPaging {
        batches: VecDeque::new(),
        calls: calls.clone(),
    };
    let mut d = DirectoryUrls::new(deque(&["a"]), Some(paging), MetadataMap::new());
    assert_eq!(d.next().unwrap().unwrap().url(), "a");
    assert!(d.next().is_none());
    assert_eq!(calls.get(), 1);
}

// A minimal paginated source for the two-page scenario: a listing page is
// plain text, one directive per line (AUTHOR, ITEM, NEXT).

#[derive(Clone)]
struct MapTransport {
    pages: HashMap<String, String>,
    hits: Rc<RefCell<Vec<String>>>,
}

impl MapTransport {
    fn new(pages: &[(&str, &str)]) -> MapTransport {
        MapTransport {
            pages: pages
                .iter()
                .map(|(k, v)| (k.to_string(), v.to_string()))
                .collect(),
            hits: Rc::new(RefCell::new(Vec::new())),
        }
    }
}

impl Transport for MapTransport {
    fn get(&self, url: &str) -> Result<String, Error> {
        self.hits.borrow_mut().push(url.to_string());
        self.pages
            .get(url)
            .cloned()
            .ok_or_else(|| Error::Transport(format!("no page: {}", url)))
    }
}

fn parse_lines(text: &str) -> (VecDeque<String>, Option<String>, Option<String>) {
    let mut items = VecDeque::new();
    let mut next = None;
    let mut author = None;
    for line in text.lines() {
        if let Some(rest) = line.strip_prefix("ITEM ") {
            items.push_back(rest.to_string());
        } else if let Some(rest) = line.strip_prefix("NEXT ") {
            next = Some(rest.to_string());
        } else if let Some(rest) = line.strip_prefix("AUTHOR ") {
            author = Some(rest.to_string());
        }
    }
    (items, next, author)
}

struct TailPaging {
    transport: MapTransport,
    next_url: Option<String>,
}

impl Paging for TailPaging {
    fn next_page(&mut self) -> Option<Result<VecDeque<String>, Error>> {
        let url = self.next_url.take()?;
        match self.transport.get(&url) {
            Ok(text) => {
                let (items, next, _) = parse_lines(&text);
                self.next_url = next;
                Some(Ok(items))
            }
            Err(e) => Some(Err(e)),
        }
    }
}

struct LineAdapter {
    transport: MapTransport,
}

impl Adapter for LineAdapter {
    type Page = TailPaging;

    fn directory(&self, url: &str) -> Result<DirectoryUrls<TailPaging>, Error> {
        let text = self.transport.get(url)?;
        let (items, next, author) = parse_lines(&text);
        let mut meta = MetadataMap::new();
        if let Some(a) = author {
            meta.insert(Meta::Author, a);
        }
        let page = next.map(|u| TailPaging {
            transport: self.transport.clone(),
            next_url: Some(u),
        });
        Ok(DirectoryUrls::new(items, page, meta))
    }

    fn download(&self, context: DocumentUrl) -> Result<Document, Error> {
        let text = self.transport.get(context.url())?;
        Ok(Document {
            meta: context.meta().clone(),
            text,
        })
    }
}

#[test]
fn two_page_author_listing() {
    let transport = MapTransport::new(&[
        (
            "https://example.org/author/1",
            "AUTHOR AuthorX\nITEM /s/1\nITEM /s/2\nNEXT https://example.org/author/1?page=2\n",
        ),
        ("https://example.org/author/1?page=2", "ITEM /s/3\n"),
    ]);
    let hits = transport.hits.clone();
    let adapter = LineAdapter {
        transport,
    };
    let mut d = adapter.directory("https://example.org/author/1").unwrap();
    assert_eq!(hits.borrow().len(), 1);
    let items: Vec<DocumentUrl> = drain(&mut d).into_iter().map(|r| r.unwrap()).collect();
    let urls: Vec<&str> = items.iter().map(|i| i.url()).collect();
    assert_eq!(urls, vec!["/s/1", "/s/2", "/s/3"]);
    for item in &items {
        assert_eq!(
            item.meta().get(&Meta::Author).map(String::as_str),
            Some("AuthorX")
        );
    }
    assert_eq!(
        hits.borrow().as_slice(),
        &[
            "https://example.org/author/1".to_string(),
            "https://example.org/author/1?page=2".to_string()
        ]
    );
}

#[test]
fn second_page_fetched_only_on_demand() {
    let transport = MapTransport::new(&[
        (
            "https://example.org/author/1",
            "ITEM /s/1\nNEXT https://example.org/author/1?page=2\n",
        ),
        ("https://example.org/author/1?page=2", "ITEM /s/2\n"),
    ]);
    let hits = transport.hits.clone();
    let adapter = LineAdapter {
        transport,
    };
    let mut d = adapter.directory("https://example.org/author/1").unwrap();
    assert_eq!(d.next().unwrap().unwrap().url(), "/s/1");
    assert_eq!(hits.borrow().len(), 1);
    assert_eq!(d.next().unwrap().unwrap().url(), "/s/2");
    assert_eq!(hits.borrow().len(), 2);
    assert!(d.next().is_none());
}
