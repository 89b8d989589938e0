//! The adapter for a story library whose stories may be split across
//! several pages. The fetch step discovers the remaining part links on the
//! first page, retrieves every part, and synthesizes one HTML body out of
//! the extracted story content of all parts, in part order.

use vstd::prelude::*;
use std::collections::VecDeque;
use crate::adapter::{Adapter, BuildAdapter, DirectoryUrls, DocumentUrl, NoPaging, to_views};
use crate::document::{Document, Meta, MetadataMap, TagKey};
use crate::error::Error;
use crate::html::{html_attrs, html_attrs_of, html_inner, html_inner_of, html_text, html_text_of};
use crate::pattern::{Pattern, regex_group_of, regex_groups_of};
use crate::text::{concat_str, dec_digits, trim_spaces, trim_view, usize_dec};
use crate::transport::Transport;

verus! {

/// The pattern an item's title is read from, applied to the page's title
/// text.
pub const TITLE_PATTERN: &'static str = "The Fet Library :: (.+)";

/// The shape of a link to a further part of the same story.
pub const PART_PATTERN: &'static str = "\\?part=\\d+";

/// The site root story links are made absolute against.
pub const SITE_ROOT: &'static str = "https://www.thefetlibrary.com";

/// The selector of listing anchors.
pub const LINK_SELECTOR: &'static str = "div.story-list-item > h3 > a";

/// The selector of the listing's author heading.
pub const AUTHOR_SELECTOR: &'static str = "div.jumbotron.page-title div.container.text-center div h2";

/// The selector of an item page's title element.
pub const TITLE_SELECTOR: &'static str = "title";

/// The selector of an item page's tag line.
pub const TAGS_SELECTOR: &'static str = "div.jumbotron.page-subtitle > div.container.text-center";

/// The selector of the story content of one part page.
pub const CONTENT_SELECTOR: &'static str = "div.container > div.row > div.col-12.story-content";

/// Builds [`FetLibraryAdapter`] over a caller-supplied transport.
pub struct BuildFetLibraryAdapter;

impl<C: Transport> BuildAdapter<C> for BuildFetLibraryAdapter {
    type Built = FetLibraryAdapter<C>;

    fn build(&self, client: C) -> FetLibraryAdapter<C> {
        FetLibraryAdapter::new(client)
    }
}

/// One listing page of story links, no pagination; stories may span
/// several part pages, assembled into one document at fetch time.
pub struct FetLibraryAdapter<C: Transport> {
    client: C,
    title: Pattern,
    part: Pattern,
}

impl<C: Transport> FetLibraryAdapter<C> {
    /// The pattern text an item's title is read with.
    pub closed spec fn title_text(&self) -> Seq<char> {
        self.title@
    }

    /// The pattern text part links are collected with.
    pub closed spec fn part_text(&self) -> Seq<char> {
        self.part@
    }

    /// A fresh adapter over the given transport, with its patterns
    /// compiled once from the fixed pattern texts and never mutated.
    pub fn new(client: C) -> (r: FetLibraryAdapter<C>)
        ensures
            r.title_text() == TITLE_PATTERN@,
            r.part_text() == PART_PATTERN@,
    {
        FetLibraryAdapter {
            client,
            title: Pattern::compile(TITLE_PATTERN),
            part: Pattern::compile(PART_PATTERN),
        }
    }
}

/// A site-relative link target, as scraped from a listing anchor.
pub struct RelativeUrl(pub String);

impl RelativeUrl {
    /// The link target made absolute against the site root.
    pub fn url(&self) -> (r: String)
        ensures
            r@ == SITE_ROOT@ + self.0@,
    {
        concat_str(SITE_ROOT, self.0.as_str())
    }
}

/// The story URLs of a listing page: its story anchors made absolute
/// against the site root, in page order.
pub open spec fn listing_urls(text: Seq<char>) -> Seq<Seq<char>> {
    html_attrs_of(text, LINK_SELECTOR@, "href"@).map_values(|h: Seq<char>| SITE_ROOT@ + h)
}

/// The listing-scoped metadata of a listing page: the author heading's
/// text, when it is non-empty.
pub open spec fn listing_meta(author: Seq<char>) -> Map<TagKey, Seq<char>> {
    if author.len() > 0 {
        Map::<TagKey, Seq<char>>::empty().insert(TagKey::Author, author)
    } else {
        Map::<TagKey, Seq<char>>::empty()
    }
}

/// The listing a retrieved page denotes: its story links made absolute,
/// stamped with the page's author heading when one is present, no
/// continuation.
pub fn parse_listing(text: &str) -> (r: DirectoryUrls<NoPaging>)
    ensures
        r.buffered() == listing_urls(text@),
        r.snapshot() == listing_meta(html_text_of(text@, AUTHOR_SELECTOR@)),
        !r.has_more(),
{
    let hrefs = html_attrs(text, LINK_SELECTOR, "href");
    let ghost hv = hrefs.deep_view();
    let mut urls: VecDeque<String> = VecDeque::new();
    let mut i: usize = 0;
    while i < hrefs.len()
        invariant
            i <= hrefs.len(),
            hv == hrefs.deep_view(),
            hv.len() == hrefs@.len(),
            forall|j: int| 0 <= j < hrefs@.len() ==> hv[j] == hrefs@[j]@,
            to_views(urls@) == hv.take(i as int).map_values(|h: Seq<char>| SITE_ROOT@ + h),
        decreases hrefs.len() - i,
    {
        let ghost prev = urls@;
        let link = RelativeUrl(hrefs[i].clone());
        urls.push_back(link.url());
        proof {
            assert(hv.take(i + 1 as int) =~= hv.take(i as int).push(hv[i as int]));
            assert(to_views(urls@) =~= to_views(prev).push(SITE_ROOT@ + hv[i as int]));
            assert(to_views(urls@) =~= hv.take(i + 1 as int).map_values(
                |h: Seq<char>| SITE_ROOT@ + h,
            ));
        }
        i += 1;
    }
    proof {
        assert(hv.take(hrefs@.len() as int) =~= hv);
    }
    let mut meta = MetadataMap::new();
    let author = html_text(text, AUTHOR_SELECTOR);
    if author.as_str().unicode_len() > 0 {
        meta.insert(Meta::Author, author);
    }
    DirectoryUrls::new(urls, None, meta)
}

/// The extracted story content of one part page: the serialized HTML of
/// the page's story element, trimmed.
pub fn select_content(text: &str) -> (r: String)
    ensures
        r@ == trim_view(html_inner_of(text@, CONTENT_SELECTOR@)),
{
    let inner = html_inner(text, CONTENT_SELECTOR);
    trim_spaces(inner.as_str()).to_owned()
}

/// The links to the remaining parts of a story, read from its first page:
/// every part-shaped link except the last occurrence, which is the
/// repeated "next" link.
pub open spec fn part_list(pattern: Seq<char>, text: Seq<char>) -> Seq<Seq<char>> {
    let all = regex_groups_of(pattern, text, 0);
    if all.len() > 0 {
        all.drop_last()
    } else {
        all
    }
}

/// The links to the remaining parts of a story.
pub fn part_links(part: &Pattern, text: &str) -> (r: Vec<String>)
    ensures
        r.deep_view() == part_list(part@, text@),
{
    let mut links = part.group_all(text, 0);
    let _last = links.pop();
    proof {
        assert(links.deep_view() =~= part_list(part@, text@));
    }
    links
}

/// One synthesized chapter: a numbered heading followed by the part's
/// extracted content.
pub open spec fn chapter_block(n: nat, part: Seq<char>) -> Seq<char> {
    "<h2>Chapter "@ + dec_digits(n) + "</h2>\n"@ + part + "\n"@
}

/// The chapters of a synthesized body: one numbered block per part, in
/// part order, numbered from one.
pub open spec fn chapters(parts: Seq<Seq<char>>) -> Seq<char>
    decreases parts.len(),
{
    if parts.len() == 0 {
        Seq::empty()
    } else {
        chapters(parts.drop_last()) + chapter_block(parts.len() as nat, parts.last())
    }
}

/// The value a metadata field contributes to a synthesized header: its
/// text, or nothing when the field is absent.
pub open spec fn field_or_empty(m: Map<TagKey, Seq<char>>, k: TagKey) -> Seq<char> {
    if m.contains_key(k) {
        m[k]
    } else {
        Seq::empty()
    }
}

/// The shape of a completed fetch: some first page determines the
/// metadata (the inherited snapshot, with the page title stamped when the
/// title pattern matches), the number of parts (one chapter per remaining
/// part link, after the first page's own content), the first chapter's
/// content, and the synthesized body.
pub open spec fn fetched_story(
    title_pattern: Seq<char>,
    part_pattern: Seq<char>,
    snapshot: Map<TagKey, Seq<char>>,
    meta: Map<TagKey, Seq<char>>,
    body: Seq<char>,
) -> bool {
    exists|first: Seq<char>, parts: Seq<Seq<char>>|
        #![auto]
        {
            &&& meta == (match regex_group_of(title_pattern, html_text_of(first, TITLE_SELECTOR@), 1) {
                Some(t) => snapshot.insert(TagKey::Title, t),
                None => snapshot,
            })
            &&& parts.len() == part_list(part_pattern, first).len() + 1
            &&& parts[0] == trim_view(html_inner_of(first, CONTENT_SELECTOR@))
            &&& body == document_header(
                field_or_empty(meta, TagKey::Title),
                field_or_empty(meta, TagKey::Author),
                trim_view(html_text_of(first, TAGS_SELECTOR@)),
            ) + chapters(parts)
        }
}

/// The head of a synthesized body: title, byline and tag line.
pub open spec fn document_header(title: Seq<char>, author: Seq<char>, tags: Seq<char>) -> Seq<
    char,
> {
    "<title>"@ + title + " - "@ + author + "</title>\n<h1>"@ + title
        + "</h1>\n<p>By <span id=author>"@ + author + "</span></p>\n<p id=tags>tags: "@ + tags
        + "</p>\n"@
}

/// The synthesized HTML body of a multi-part story: the header for the
/// given title, author and tag line, then every part's content as one
/// numbered chapter, in part order.
pub fn assemble_body(title: &str, author: &str, tags: &str, parts: &Vec<String>) -> (r: String)
    ensures
        r@ == document_header(title@, author@, tags@) + chapters(parts.deep_view()),
{
    let ghost pv = parts.deep_view();
    let mut buf = "<title>".to_owned();
    buf.append(title);
    buf.append(" - ");
    buf.append(author);
    buf.append("</title>\n<h1>");
    buf.append(title);
    buf.append("</h1>\n<p>By <span id=author>");
    buf.append(author);
    buf.append("</span></p>\n<p id=tags>tags: ");
    buf.append(tags);
    buf.append("</p>\n");
    proof {
        assert(buf@ =~= document_header(title@, author@, tags@));
        assert(pv.take(0) =~= Seq::<Seq<char>>::empty());
    }
    let mut i: usize = 0;
    while i < parts.len()
        invariant
            i <= parts.len(),
            pv == parts.deep_view(),
            pv.len() == parts@.len(),
            forall|j: int| 0 <= j < parts@.len() ==> pv[j] == parts@[j]@,
            buf@ == document_header(title@, author@, tags@) + chapters(pv.take(i as int)),
        decreases parts.len() - i,
    {
        let ghost before = buf@;
        buf.append("<h2>Chapter ");
        let num = usize_dec(i + 1);
        buf.append(num.as_str());
        buf.append("</h2>\n");
        buf.append(parts[i].as_str());
        buf.append("\n");
        proof {
            assert(pv.take(i + 1 as int).drop_last() =~= pv.take(i as int));
            assert(pv.take(i + 1 as int).last() == pv[i as int]);
            assert(buf@ =~= before + chapter_block((i + 1) as nat, pv[i as int]));
            assert(buf@ =~= document_header(title@, author@, tags@) + chapters(
                pv.take(i + 1 as int),
            ));
        }
        i += 1;
    }
    proof {
        assert(pv.take(parts@.len() as int) =~= pv);
    }
    buf
}

impl<C: Transport> Adapter for FetLibraryAdapter<C> {
    type Page = NoPaging;

    /// Whatever page the transport returned, the listing is that page's
    /// story links made absolute, stamped with that page's author heading
    /// when one is present, with no continuation.
    fn directory(&self, url: &str) -> (r: Result<DirectoryUrls<NoPaging>, Error>)
        ensures
            r matches Ok(dir) ==> {
                &&& !dir.has_more()
                &&& exists|text: Seq<char>|
                    dir.buffered() == listing_urls(text) && dir.snapshot() == listing_meta(
                        html_text_of(text, AUTHOR_SELECTOR@),
                    )
            },
    {
        let text = match self.client.get(url) {
            Ok(t) => t,
            Err(e) => {
                return Err(e);
            },
        };
        let dir = parse_listing(text.as_str());
        proof {
            assert(dir.buffered() == listing_urls(text@) && dir.snapshot() == listing_meta(
                html_text_of(text@, AUTHOR_SELECTOR@),
            ));
            assert(exists|t: Seq<char>|
                dir.buffered() == listing_urls(t) && dir.snapshot() == listing_meta(
                    html_text_of(t, AUTHOR_SELECTOR@),
                ));
        }
        Ok(dir)
    }

    /// Whatever pages the transport returned, the document's metadata is
    /// the inherited snapshot with the first page's title stamped when
    /// the title pattern matches it (every other inherited field keeps
    /// its value), and the body is one synthesized page: the header for
    /// the resulting title, author and the first page's trimmed tag line,
    /// then one numbered chapter per part — the first page's extracted
    /// content first, one more chapter for each remaining part link the
    /// first page carries.
    fn download(&self, context: DocumentUrl) -> (r: Result<Document, Error>)
        ensures
            r matches Ok(doc) ==> {
                &&& forall|k: TagKey|
                    k != TagKey::Title && context.snapshot().contains_key(k)
                        ==> #[trigger] doc.meta@.contains_key(k) && doc.meta@[k]
                        == context.snapshot()[k]
                &&& fetched_story(
                    self.title_text(),
                    self.part_text(),
                    context.snapshot(),
                    doc.meta@,
                    doc.text@,
                )
            },
    {
        let ghost snap = context.snapshot();
        let text = match self.client.get(context.url()) {
            Ok(t) => t,
            Err(e) => {
                return Err(e);
            },
        };
        let ghost first_page = text@;
        let (url, mut meta) = context.into_parts();
        let page_title = html_text(text.as_str(), TITLE_SELECTOR);
        match self.title.group(page_title.as_str(), 1) {
            Some(t) => {
                meta.insert(Meta::Title, t);
            },
            None => {},
        }
        let tags_raw = html_text(text.as_str(), TAGS_SELECTOR);
        let tags = trim_spaces(tags_raw.as_str());
        let mut parts: Vec<String> = Vec::new();
        parts.push(select_content(text.as_str()));
        let links = part_links(&self.part, text.as_str());
        let mut i: usize = 0;
        while i < links.len()
            invariant
                i <= links@.len(),
                meta@ == (match regex_group_of(
                    self.title_text(),
                    html_text_of(first_page, TITLE_SELECTOR@),
                    1,
                ) {
                    Some(t) => snap.insert(TagKey::Title, t),
                    None => snap,
                }),
                tags@ == trim_view(html_text_of(first_page, TAGS_SELECTOR@)),
                links.deep_view() == part_list(self.part_text(), first_page),
                parts@.len() == i + 1,
                parts.deep_view()[0] == trim_view(html_inner_of(first_page, CONTENT_SELECTOR@)),
            decreases links.len() - i,
        {
            let part_url = concat_str(url.as_str(), links[i].as_str());
            let part_text = match self.client.get(part_url.as_str()) {
                Ok(t) => t,
                Err(e) => {
                    return Err(e);
                },
            };
            let ghost before = parts.deep_view();
            parts.push(select_content(part_text.as_str()));
            proof {
                assert(parts.deep_view()[0] == before[0]);
            }
            i += 1;
        }
        let title_str = match meta.get(&Meta::Title) {
            Some(t) => t.as_str(),
            None => "",
        };
        proof {
            reveal_strlit("");
            assert(""@ =~= Seq::<char>::empty());
            assert(title_str@ == field_or_empty(meta@, TagKey::Title));
        }
        let author_str = match meta.get(&Meta::Author) {
            Some(a) => a.as_str(),
            None => "",
        };
        proof {
            assert(author_str@ == field_or_empty(meta@, TagKey::Author));
        }
        let body = assemble_body(title_str, author_str, tags, &parts);
        let doc = Document { meta, text: body };
        proof {
            assert(snap.dom() <= doc.meta@.dom());
            assert forall|k: TagKey|
                k != TagKey::Title && context.snapshot().contains_key(k)
                    implies #[trigger] doc.meta@.contains_key(k) && doc.meta@[k]
                    == context.snapshot()[k] by {}
            let w = parts.deep_view();
            assert(w.len() == part_list(self.part_text(), first_page).len() + 1);
            assert(doc.text@ == document_header(
                field_or_empty(doc.meta@, TagKey::Title),
                field_or_empty(doc.meta@, TagKey::Author),
                trim_view(html_text_of(first_page, TAGS_SELECTOR@)),
            ) + chapters(w));
            assert(doc.meta@ == (match regex_group_of(
                self.title_text(),
                html_text_of(first_page, TITLE_SELECTOR@),
                1,
            ) {
                Some(t) => context.snapshot().insert(TagKey::Title, t),
                None => context.snapshot(),
            }));
            assert(fetched_story(
                self.title_text(),
                self.part_text(),
                context.snapshot(),
                doc.meta@,
                doc.text@,
            ));
        }
        Ok(doc)
    }
}

} // verus!
