//! The adapter for a story site whose author page carries two look-alike
//! tables: only the first — the author's own works — is read. Links are
//! made absolute against the site root, and the author is the text of the
//! page's notice header.

use vstd::prelude::*;
use std::collections::VecDeque;
use crate::adapter::{Adapter, BuildAdapter, DirectoryUrls, DocumentUrl, NoPaging, to_views};
use crate::document::{Document, Meta, MetadataMap, TagKey};
use crate::error::Error;
use crate::html::{
    html_first_text,
    html_first_text_of,
    html_scoped_attrs,
    html_scoped_attrs_of,
    html_text,
    html_text_of,
};
use crate::pattern::{Pattern, regex_group_of};
use crate::text::{concat_str, trim_spaces, trim_view};
use crate::transport::Transport;

verus! {

/// The pattern an item's title is read from, applied to the story header
/// text; the match is trimmed of surrounding whitespace.
pub const TITLE_PATTERN: &'static str = "(.+)\n";

/// The site root story links are made absolute against.
pub const SITE_ROOT: &'static str = "https://sexstories.com";

/// The selector of the listing's author element.
pub const AUTHOR_SELECTOR: &'static str = "h3.notice > div.left";

/// The selector of the first story table. Two nearly identical tables sit
/// on an author page — the author's own works, then the author's
/// favorites; only the first one, coming right after the notice header, is
/// the author's.
pub const STORIES_SELECTOR: &'static str = "h3.notice + table";

/// The selector of story anchors inside the story table.
pub const STORY_LINK_SELECTOR: &'static str = "td a";

/// The selector of an item page's story header.
pub const STORY_HEADER_SELECTOR: &'static str = "div.story_info > h2";

/// Builds [`SexStoriesAdapter`] over a caller-supplied transport.
pub struct BuildSexStoriesAdapter;

impl<C: Transport> BuildAdapter<C> for BuildSexStoriesAdapter {
    type Built = SexStoriesAdapter<C>;

    fn build(&self, client: C) -> SexStoriesAdapter<C> {
        SexStoriesAdapter::new(client)
    }
}

/// One author page of story links, no pagination; the author is
/// listing-scoped metadata.
pub struct SexStoriesAdapter<C: Transport> {
    client: C,
    title: Pattern,
}

impl<C: Transport> SexStoriesAdapter<C> {
    /// The pattern text an item's title is read with.
    pub closed spec fn title_text(&self) -> Seq<char> {
        self.title@
    }

    /// A fresh adapter over the given transport, with its title pattern
    /// compiled once from the fixed pattern text and never mutated.
    pub fn new(client: C) -> (r: SexStoriesAdapter<C>)
        ensures
            r.title_text() == TITLE_PATTERN@,
    {
        SexStoriesAdapter { client, title: Pattern::compile(TITLE_PATTERN) }
    }
}

/// A site-relative link target, as scraped from a story table anchor.
pub struct RelativeUrl(pub String);

impl RelativeUrl {
    /// The link target made absolute against the site root.
    pub fn url(&self) -> (r: String)
        ensures
            r@ == SITE_ROOT@ + self.0@,
    {
        concat_str(SITE_ROOT, self.0.as_str())
    }
}

/// The story URLs of an author page: the anchors of the author's own
/// story table, made absolute against the site root, in page order.
pub open spec fn listing_urls(text: Seq<char>) -> Seq<Seq<char>> {
    html_scoped_attrs_of(text, STORIES_SELECTOR@, STORY_LINK_SELECTOR@, "href"@).map_values(
        |h: Seq<char>| SITE_ROOT@ + h,
    )
}

/// The listing-scoped metadata of an author page: the notice header's
/// text as the author, when the header exists.
pub open spec fn listing_meta(author: Option<Seq<char>>) -> Map<TagKey, Seq<char>> {
    match author {
        Some(a) => Map::<TagKey, Seq<char>>::empty().insert(TagKey::Author, a),
        None => Map::<TagKey, Seq<char>>::empty(),
    }
}

/// The listing a retrieved author page denotes: the first story table's
/// links made absolute, stamped with the notice header's text as the
/// author, no continuation.
pub fn parse_listing(text: &str) -> (r: DirectoryUrls<NoPaging>)
    ensures
        r.buffered() == listing_urls(text@),
        r.snapshot() == listing_meta(html_first_text_of(text@, AUTHOR_SELECTOR@)),
        !r.has_more(),
{
    let hrefs = html_scoped_attrs(text, STORIES_SELECTOR, STORY_LINK_SELECTOR, "href");
    let ghost hv = hrefs.deep_view();
    let mut urls: VecDeque<String> = VecDeque::new();
    let mut i: usize = 0;
    while i < hrefs.len()
        invariant
            i <= hrefs.len(),
            hv == hrefs.deep_view(),
            hv.len() == hrefs@.len(),
            forall|j: int| 0 <= j < hrefs@.len() ==> hv[j] == hrefs@[j]@,
            to_views(urls@) == hv.take(i as int).map_values(|h: Seq<char>| SITE_ROOT@ + h),
        decreases hrefs.len() - i,
    {
        let ghost prev = urls@;
        let link = RelativeUrl(hrefs[i].clone());
        urls.push_back(link.url());
        proof {
            assert(hv.take(i + 1 as int) =~= hv.take(i as int).push(hv[i as int]));
            assert(to_views(urls@) =~= to_views(prev).push(SITE_ROOT@ + hv[i as int]));
            assert(to_views(urls@) =~= hv.take(i + 1 as int).map_values(
                |h: Seq<char>| SITE_ROOT@ + h,
            ));
        }
        i += 1;
    }
    proof {
        assert(hv.take(hrefs@.len() as int) =~= hv);
    }
    let mut meta = MetadataMap::new();
    match html_first_text(text, AUTHOR_SELECTOR) {
        Some(author) => {
            meta.insert(Meta::Author, author);
        },
        None => {},
    }
    DirectoryUrls::new(urls, None, meta)
}

/// The document a retrieved item page denotes: the page text as the body,
/// and the inherited snapshot with the trimmed first line of the story
/// header stamped as the title.
pub fn parse_story(title: &Pattern, context: DocumentUrl, text: String) -> (r: Document)
    ensures
        r.meta@ == match regex_group_of(title@, html_text_of(text@, STORY_HEADER_SELECTOR@), 1) {
            Some(t) => context.snapshot().insert(TagKey::Title, trim_view(t)),
            None => context.snapshot(),
        },
        r.text@ == text@,
{
    let (_url, mut meta) = context.into_parts();
    let header = html_text(text.as_str(), STORY_HEADER_SELECTOR);
    match title.group(header.as_str(), 1) {
        Some(t) => {
            let trimmed = trim_spaces(t.as_str()).to_owned();
            meta.insert(Meta::Title, trimmed);
        },
        None => {},
    }
    Document { meta, text }
}

impl<C: Transport> Adapter for SexStoriesAdapter<C> {
    type Page = NoPaging;

    /// Whatever page the transport returned, the listing is that page's
    /// first story table made absolute, stamped with that page's notice
    /// header as the author, with no continuation.
    fn directory(&self, url: &str) -> (r: Result<DirectoryUrls<NoPaging>, Error>)
        ensures
            r matches Ok(dir) ==> {
                &&& !dir.has_more()
                &&& exists|text: Seq<char>|
                    dir.buffered() == listing_urls(text) && dir.snapshot() == listing_meta(
                        html_first_text_of(text, AUTHOR_SELECTOR@),
                    )
            },
    {
        let text = match self.client.get(url) {
            Ok(t) => t,
            Err(e) => {
                return Err(e);
            },
        };
        let dir = parse_listing(text.as_str());
        proof {
            assert(dir.buffered() == listing_urls(text@) && dir.snapshot() == listing_meta(
                html_first_text_of(text@, AUTHOR_SELECTOR@),
            ));
            assert(exists|t: Seq<char>|
                dir.buffered() == listing_urls(t) && dir.snapshot() == listing_meta(
                    html_first_text_of(t, AUTHOR_SELECTOR@),
                ));
        }
        Ok(dir)
    }

    /// Whatever page the transport returned, its text is the document's
    /// body, and the metadata is the inherited snapshot with the trimmed
    /// first line of that page's story header stamped as the title when
    /// the title pattern matches: every other inherited field keeps its
    /// value.
    fn download(&self, context: DocumentUrl) -> (r: Result<Document, Error>)
        ensures
            r matches Ok(doc) ==> {
                &&& doc.meta@ == match regex_group_of(
                    self.title_text(),
                    html_text_of(doc.text@, STORY_HEADER_SELECTOR@),
                    1,
                ) {
                    Some(t) => context.snapshot().insert(TagKey::Title, trim_view(t)),
                    None => context.snapshot(),
                }
                &&& forall|k: TagKey|
                    k != TagKey::Title && context.snapshot().contains_key(k)
                        ==> #[trigger] doc.meta@.contains_key(k) && doc.meta@[k]
                        == context.snapshot()[k]
            },
    {
        let ghost snap = context.snapshot();
        let text = match self.client.get(context.url()) {
            Ok(t) => t,
            Err(e) => {
                return Err(e);
            },
        };
        let doc = parse_story(&self.title, context, text);
        proof {
            assert(snap.dom() <= doc.meta@.dom());
        }
        Ok(doc)
    }
}

} // verus!
