//! The adapter for a story-library source addressed by numeric story
//! identifiers: the listing page is scanned for story ids, each id is
//! turned into a whole-story URL, and the author is read from the listing
//! page's title tag.

use vstd::prelude::*;
use std::collections::VecDeque;
use crate::adapter::{Adapter, BuildAdapter, DirectoryUrls, DocumentUrl, NoPaging, to_views};
use crate::document::{Document, Meta, MetadataMap, TagKey};
use crate::error::Error;
use crate::pattern::{Pattern, regex_group_of, regex_groups_of};
use crate::text::concat_str;
use crate::transport::Transport;

verus! {

/// The pattern the listing page's author is read from; the captured group
/// is the author's name.
pub const AUTHOR_PATTERN: &'static str = "<title>BDSM Library - Stories by ([^<]+)</title>";

/// The pattern story identifiers are collected with.
pub const STORY_ID_PATTERN: &'static str = "story\\.php\\?storyid=(\\d+)";

/// The pattern an item page's title is read from.
pub const TITLE_PATTERN: &'static str = "<title>([^<]+)</title>";

/// Where a story id is appended to form a whole-story URL.
pub const STORY_URL_PREFIX: &'static str = "https://www.bdsmlibrary.com/stories/wholestory.php?storyid=";

/// Builds [`BdsmLibraryAdapter`] over a caller-supplied transport.
pub struct BuildBdsmLibraryAdapter;

impl<C: Transport> BuildAdapter<C> for BuildBdsmLibraryAdapter {
    type Built = BdsmLibraryAdapter<C>;

    fn build(&self, client: C) -> BdsmLibraryAdapter<C> {
        BdsmLibraryAdapter::new(client)
    }
}

/// One author-listing page of story links, no pagination; the author is
/// listing-scoped metadata.
pub struct BdsmLibraryAdapter<C: Transport> {
    client: C,
    author_pattern: Pattern,
    story_id_pattern: Pattern,
    title_pattern: Pattern,
}

impl<C: Transport> BdsmLibraryAdapter<C> {
    /// The pattern text the author is read with.
    pub closed spec fn author_text(&self) -> Seq<char> {
        self.author_pattern@
    }

    /// The pattern text story identifiers are collected with.
    pub closed spec fn story_id_text(&self) -> Seq<char> {
        self.story_id_pattern@
    }

    /// The pattern text an item's title is read with.
    pub closed spec fn title_text(&self) -> Seq<char> {
        self.title_pattern@
    }

    /// A fresh adapter over the given transport, with its patterns
    /// compiled once from the fixed pattern texts and never mutated.
    pub fn new(client: C) -> (r: BdsmLibraryAdapter<C>)
        ensures
            r.author_text() == AUTHOR_PATTERN@,
            r.story_id_text() == STORY_ID_PATTERN@,
            r.title_text() == TITLE_PATTERN@,
    {
        BdsmLibraryAdapter {
            client,
            author_pattern: Pattern::compile(AUTHOR_PATTERN),
            story_id_pattern: Pattern::compile(STORY_ID_PATTERN),
            title_pattern: Pattern::compile(TITLE_PATTERN),
        }
    }
}

/// A story's numeric identifier, as scraped from a listing page.
pub struct StoryId(pub String);

impl StoryId {
    /// The whole-story URL this identifier addresses.
    pub fn url(&self) -> (r: String)
        ensures
            r@ == STORY_URL_PREFIX@ + self.0@,
    {
        concat_str(STORY_URL_PREFIX, self.0.as_str())
    }
}

/// The whole-story URLs of a listing page: one per story id the id
/// pattern extracts, in match order, appended to the fixed prefix.
pub open spec fn listing_urls(ids: Seq<Seq<char>>) -> Seq<Seq<char>> {
    ids.map_values(|id: Seq<char>| STORY_URL_PREFIX@ + id)
}

/// The listing-scoped metadata of a listing page: the author when the
/// author pattern matches, nothing otherwise.
pub open spec fn listing_meta(author: Option<Seq<char>>) -> Map<TagKey, Seq<char>> {
    match author {
        Some(a) => Map::<TagKey, Seq<char>>::empty().insert(TagKey::Author, a),
        None => Map::<TagKey, Seq<char>>::empty(),
    }
}

/// The listing a retrieved author page denotes: the whole-story URL of
/// every story id on it, stamped with the author name captured from the
/// page title, no continuation.
pub fn parse_listing(story_ids: &Pattern, author: &Pattern, text: &str) -> (r: DirectoryUrls<
    NoPaging,
>)
    ensures
        r.buffered() == listing_urls(regex_groups_of(story_ids@, text@, 1)),
        r.snapshot() == listing_meta(regex_group_of(author@, text@, 1)),
        !r.has_more(),
{
    let ids = story_ids.group_all(text, 1);
    let ghost iv = ids.deep_view();
    let mut urls: VecDeque<String> = VecDeque::new();
    let mut i: usize = 0;
    while i < ids.len()
        invariant
            i <= ids.len(),
            iv == ids.deep_view(),
            iv.len() == ids@.len(),
            forall|j: int| 0 <= j < ids@.len() ==> iv[j] == ids@[j]@,
            to_views(urls@) == iv.take(i as int).map_values(|id: Seq<char>| STORY_URL_PREFIX@ + id),
        decreases ids.len() - i,
    {
        let ghost prev = urls@;
        let id = StoryId(ids[i].clone());
        urls.push_back(id.url());
        proof {
            assert(iv.take(i + 1 as int) =~= iv.take(i as int).push(iv[i as int]));
            assert(to_views(urls@) =~= to_views(prev).push(STORY_URL_PREFIX@ + iv[i as int]));
            assert(to_views(urls@) =~= iv.take(i + 1 as int).map_values(
                |id: Seq<char>| STORY_URL_PREFIX@ + id,
            ));
        }
        i += 1;
    }
    proof {
        assert(iv.take(ids@.len() as int) =~= iv);
    }
    let mut meta = MetadataMap::new();
    match author.group(text, 1) {
        Some(a) => {
            meta.insert(Meta::Author, a);
        },
        None => {},
    }
    DirectoryUrls::new(urls, None, meta)
}

/// The document a retrieved item page denotes: the page text as the body,
/// and the inherited snapshot with the page title stamped as the title
/// when the title pattern matches.
pub fn parse_story(title: &Pattern, context: DocumentUrl, text: String) -> (r: Document)
    ensures
        r.meta@ == match regex_group_of(title@, text@, 1) {
            Some(t) => context.snapshot().insert(TagKey::Title, t),
            None => context.snapshot(),
        },
        r.text@ == text@,
{
    let (_url, mut meta) = context.into_parts();
    match title.group(text.as_str(), 1) {
        Some(t) => {
            meta.insert(Meta::Title, t);
        },
        None => {},
    }
    Document { meta, text }
}

impl<C: Transport> Adapter for BdsmLibraryAdapter<C> {
    type Page = NoPaging;

    /// Whatever page the transport returned, the listing is the
    /// whole-story URL of every story id on that page, stamped with the
    /// author name its title carries, with no continuation.
    fn directory(&self, url: &str) -> (r: Result<DirectoryUrls<NoPaging>, Error>)
        ensures
            r matches Ok(dir) ==> {
                &&& !dir.has_more()
                &&& exists|text: Seq<char>|
                    dir.buffered() == listing_urls(regex_groups_of(self.story_id_text(), text, 1))
                        && dir.snapshot() == listing_meta(
                        regex_group_of(self.author_text(), text, 1),
                    )
            },
    {
        let content = match self.client.get(url) {
            Ok(t) => t,
            Err(e) => {
                return Err(e);
            },
        };
        let dir = parse_listing(&self.story_id_pattern, &self.author_pattern, content.as_str());
        proof {
            assert(dir.buffered() == listing_urls(regex_groups_of(self.story_id_text(), content@, 1))
                && dir.snapshot() == listing_meta(regex_group_of(self.author_text(), content@, 1)));
            assert(exists|text: Seq<char>|
                dir.buffered() == listing_urls(regex_groups_of(self.story_id_text(), text, 1))
                    && dir.snapshot() == listing_meta(
                    regex_group_of(self.author_text(), text, 1),
                ));
        }
        Ok(dir)
    }

    /// Whatever page the transport returned, its text is the document's
    /// body, and the metadata is the inherited snapshot with that page's
    /// title stamped when the title pattern matches it: every other
    /// inherited field keeps its value.
    fn download(&self, context: DocumentUrl) -> (r: Result<Document, Error>)
        ensures
            r matches Ok(doc) ==> {
                &&& doc.meta@ == match regex_group_of(self.title_text(), doc.text@, 1) {
                    Some(t) => context.snapshot().insert(TagKey::Title, t),
                    None => context.snapshot(),
                }
                &&& forall|k: TagKey|
                    k != TagKey::Title && context.snapshot().contains_key(k)
                        ==> #[trigger] doc.meta@.contains_key(k) && doc.meta@[k]
                        == context.snapshot()[k]
            },
    {
        let ghost snap = context.snapshot();
        let text = match self.client.get(context.url()) {
            Ok(t) => t,
            Err(e) => {
                return Err(e);
            },
        };
        let doc = parse_story(&self.title_pattern, context, text);
        proof {
            assert(snap.dom() <= doc.meta@.dom());
        }
        Ok(doc)
    }
}

} // verus!
