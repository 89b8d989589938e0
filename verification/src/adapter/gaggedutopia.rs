//! The adapter for a story archive addressed through relative story links:
//! the listing page's story anchors are filtered by a link shape, made
//! absolute against the site root, and the author is read from the seed
//! URL's query string.

use vstd::prelude::*;
use std::collections::VecDeque;
use crate::adapter::{Adapter, BuildAdapter, DirectoryUrls, DocumentUrl, NoPaging, to_views};
use crate::document::{Document, Meta, MetadataMap, TagKey};
use crate::error::Error;
use crate::html::{html_attrs, html_attrs_of, html_text, html_text_of};
use crate::pattern::{Pattern, regex_group_of};
use crate::text::concat_str;
use crate::transport::Transport;

verus! {

/// The pattern an item page's title is read from, applied to the page's
/// title text.
pub const TITLE_PATTERN: &'static str = "(.+) ::";

/// The shape a listing anchor must have to count as a story link.
pub const LINK_PATTERN: &'static str = "/code/show_story.asp/recid/\\d+";

/// The pattern the author is read from in the seed URL's query string.
pub const AUTHOR_QUERY_PATTERN: &'static str = "author=([^&]+)";

/// The site root story links are made absolute against.
pub const SITE_ROOT: &'static str = "https://www.utopiastories.com";

/// The selector of listing anchors.
pub const LINK_SELECTOR: &'static str = "tr > td > b > a";

/// The selector of an item page's title element.
pub const TITLE_SELECTOR: &'static str = "head > title";

/// Builds [`GaggedUtopiaAdapter`] over a caller-supplied transport.
pub struct BuildGaggedUtopiaAdapter;

impl<C: Transport> BuildAdapter<C> for BuildGaggedUtopiaAdapter {
    type Built = GaggedUtopiaAdapter<C>;

    fn build(&self, client: C) -> GaggedUtopiaAdapter<C> {
        GaggedUtopiaAdapter::new(client)
    }
}

/// One search-result listing of story links, no pagination; the author,
/// when the seed URL names one, is listing-scoped metadata.
pub struct GaggedUtopiaAdapter<C: Transport> {
    client: C,
    title: Pattern,
}

impl<C: Transport> GaggedUtopiaAdapter<C> {
    /// The pattern text an item's title is read with.
    pub closed spec fn title_text(&self) -> Seq<char> {
        self.title@
    }

    /// A fresh adapter over the given transport, with its title pattern
    /// compiled once from the fixed pattern text and never mutated.
    pub fn new(client: C) -> (r: GaggedUtopiaAdapter<C>)
        ensures
            r.title_text() == TITLE_PATTERN@,
    {
        GaggedUtopiaAdapter { client, title: Pattern::compile(TITLE_PATTERN) }
    }
}

/// The author named by a seed URL's query string, if any.
pub fn try_get_author_from_url(url: &str) -> (r: Option<String>)
    ensures
        match r {
            Some(a) => regex_group_of(AUTHOR_QUERY_PATTERN@, url@, 1) == Some(a@),
            None => regex_group_of(AUTHOR_QUERY_PATTERN@, url@, 1) is None,
        },
{
    let pattern = Pattern::compile(AUTHOR_QUERY_PATTERN);
    pattern.group(url, 1)
}

/// The title text of an item page.
pub fn try_get_title(text: &str) -> (r: String)
    ensures
        r@ == html_text_of(text@, TITLE_SELECTOR@),
{
    html_text(text, TITLE_SELECTOR)
}

/// A site-relative link target, as scraped from a listing anchor.
pub struct RelativeUrl(pub String);

impl RelativeUrl {
    /// The link target made absolute against the site root.
    pub fn url(&self) -> (r: String)
        ensures
            r@ == SITE_ROOT@ + self.0@,
    {
        concat_str(SITE_ROOT, self.0.as_str())
    }
}

/// The story URLs of a listing page: every listing anchor whose target has
/// the story-link shape, made absolute against the site root, in page
/// order.
pub open spec fn listing_urls(link_pattern: Seq<char>, text: Seq<char>) -> Seq<Seq<char>> {
    html_attrs_of(text, LINK_SELECTOR@, "href"@).filter(
        |h: Seq<char>| regex_group_of(link_pattern, h, 0) is Some,
    ).map_values(|h: Seq<char>| SITE_ROOT@ + h)
}

/// The listing-scoped metadata of a listing: the author when the seed URL
/// names one, nothing otherwise.
pub open spec fn listing_meta(author: Option<Seq<char>>) -> Map<TagKey, Seq<char>> {
    match author {
        Some(a) => Map::<TagKey, Seq<char>>::empty().insert(TagKey::Author, a),
        None => Map::<TagKey, Seq<char>>::empty(),
    }
}

proof fn lemma_listing_push(link_pattern: Seq<char>, hrefs: Seq<Seq<char>>, x: Seq<char>)
    ensures
        hrefs.push(x).filter(|h: Seq<char>| regex_group_of(link_pattern, h, 0) is Some).map_values(
            |h: Seq<char>| SITE_ROOT@ + h,
        ) == if regex_group_of(link_pattern, x, 0) is Some {
            hrefs.filter(|h: Seq<char>| regex_group_of(link_pattern, h, 0) is Some).map_values(
                |h: Seq<char>| SITE_ROOT@ + h,
            ).push(SITE_ROOT@ + x)
        } else {
            hrefs.filter(|h: Seq<char>| regex_group_of(link_pattern, h, 0) is Some).map_values(
                |h: Seq<char>| SITE_ROOT@ + h,
            )
        },
{
    reveal(Seq::filter);
    assert(hrefs.push(x).drop_last() =~= hrefs);
    if regex_group_of(link_pattern, x, 0) is Some {
        assert(hrefs.push(x).filter(
            |h: Seq<char>| regex_group_of(link_pattern, h, 0) is Some,
        ).map_values(|h: Seq<char>| SITE_ROOT@ + h) =~= hrefs.filter(
            |h: Seq<char>| regex_group_of(link_pattern, h, 0) is Some,
        ).map_values(|h: Seq<char>| SITE_ROOT@ + h).push(SITE_ROOT@ + x));
    } else {
        assert(hrefs.push(x).filter(
            |h: Seq<char>| regex_group_of(link_pattern, h, 0) is Some,
        ).map_values(|h: Seq<char>| SITE_ROOT@ + h) =~= hrefs.filter(
            |h: Seq<char>| regex_group_of(link_pattern, h, 0) is Some,
        ).map_values(|h: Seq<char>| SITE_ROOT@ + h));
    }
}

/// The listing a retrieved search-result page denotes: its story links
/// made absolute, stamped with the author taken from the seed URL, no
/// continuation.
pub fn parse_listing(link_pattern: &Pattern, url: &str, text: &str) -> (r: DirectoryUrls<NoPaging>)
    ensures
        r.buffered() == listing_urls(link_pattern@, text@),
        r.snapshot() == listing_meta(regex_group_of(AUTHOR_QUERY_PATTERN@, url@, 1)),
        !r.has_more(),
{
    let hrefs = html_attrs(text, LINK_SELECTOR, "href");
    let ghost hv = hrefs.deep_view();
    let mut urls: VecDeque<String> = VecDeque::new();
    let mut i: usize = 0;
    while i < hrefs.len()
        invariant
            i <= hrefs.len(),
            hv == hrefs.deep_view(),
            hv.len() == hrefs@.len(),
            forall|j: int| 0 <= j < hrefs@.len() ==> hv[j] == hrefs@[j]@,
            to_views(urls@) == hv.take(i as int).filter(
                |h: Seq<char>| regex_group_of(link_pattern@, h, 0) is Some,
            ).map_values(|h: Seq<char>| SITE_ROOT@ + h),
        decreases hrefs.len() - i,
    {
        let href = &hrefs[i];
        let ghost prev = urls@;
        if link_pattern.is_match(href.as_str()) {
            let link = RelativeUrl(href.clone());
            urls.push_back(link.url());
        }
        proof {
            assert(hv.take(i + 1 as int) =~= hv.take(i as int).push(hv[i as int]));
            lemma_listing_push(link_pattern@, hv.take(i as int), hv[i as int]);
            if regex_group_of(link_pattern@, hv[i as int], 0) is Some {
                assert(to_views(urls@) =~= to_views(prev).push(SITE_ROOT@ + hv[i as int]));
            }
        }
        i += 1;
    }
    proof {
        assert(hv.take(hrefs@.len() as int) =~= hv);
    }
    let mut meta = MetadataMap::new();
    match try_get_author_from_url(url) {
        Some(author) => {
            meta.insert(Meta::Author, author);
        },
        None => {},
    }
    DirectoryUrls::new(urls, None, meta)
}

/// The document a retrieved item page denotes: the page text as the body,
/// and the inherited snapshot with the title pattern's match on the page's
/// title text stamped as the title.
pub fn parse_story(title: &Pattern, context: DocumentUrl, text: String) -> (r: Document)
    ensures
        r.meta@ == match regex_group_of(title@, html_text_of(text@, TITLE_SELECTOR@), 1) {
            Some(t) => context.snapshot().insert(TagKey::Title, t),
            None => context.snapshot(),
        },
        r.text@ == text@,
{
    let (_url, mut meta) = context.into_parts();
    let title_text = try_get_title(text.as_str());
    match title.group(title_text.as_str(), 1) {
        Some(t) => {
            meta.insert(Meta::Title, t);
        },
        None => {},
    }
    Document { meta, text }
}

impl<C: Transport> Adapter for GaggedUtopiaAdapter<C> {
    type Page = NoPaging;

    /// Whatever page the transport returned, the listing is that page's
    /// story-shaped links made absolute, stamped with the author the seed
    /// URL itself names, with no continuation.
    fn directory(&self, url: &str) -> (r: Result<DirectoryUrls<NoPaging>, Error>)
        ensures
            r matches Ok(dir) ==> {
                &&& !dir.has_more()
                &&& dir.snapshot() == listing_meta(
                    regex_group_of(AUTHOR_QUERY_PATTERN@, url@, 1),
                )
                &&& exists|text: Seq<char>| dir.buffered() == listing_urls(LINK_PATTERN@, text)
            },
    {
        let text = match self.client.get(url) {
            Ok(t) => t,
            Err(e) => {
                return Err(e);
            },
        };
        let link_pattern = Pattern::compile(LINK_PATTERN);
        let dir = parse_listing(&link_pattern, url, text.as_str());
        proof {
            assert(dir.buffered() == listing_urls(LINK_PATTERN@, text@));
            assert(exists|t: Seq<char>| dir.buffered() == listing_urls(LINK_PATTERN@, t));
        }
        Ok(dir)
    }

    /// Whatever page the transport returned, its text is the document's
    /// body, and the metadata is the inherited snapshot with the title
    /// pattern's match on that page's title text stamped when it matches:
    /// every other inherited field keeps its value.
    fn download(&self, context: DocumentUrl) -> (r: Result<Document, Error>)
        ensures
            r matches Ok(doc) ==> {
                &&& doc.meta@ == match regex_group_of(
                    self.title_text(),
                    html_text_of(doc.text@, TITLE_SELECTOR@),
                    1,
                ) {
                    Some(t) => context.snapshot().insert(TagKey::Title, t),
                    None => context.snapshot(),
                }
                &&& forall|k: TagKey|
                    k != TagKey::Title && context.snapshot().contains_key(k)
                        ==> #[trigger] doc.meta@.contains_key(k) && doc.meta@[k]
                        == context.snapshot()[k]
            },
    {
        let ghost snap = context.snapshot();
        let text = match self.client.get(context.url()) {
            Ok(t) => t,
            Err(e) => {
                return Err(e);
            },
        };
        let doc = parse_story(&self.title, context, text);
        proof {
            assert(snap.dom() <= doc.meta@.dom());
        }
        Ok(doc)
    }
}

} // verus!
