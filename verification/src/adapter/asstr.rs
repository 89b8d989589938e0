//! The adapter for a plain file-listing source: one page of anchor links,
//! no pagination, no listing-scoped metadata; an item's title is the file
//! name taken from its URL.

use vstd::prelude::*;
use std::collections::VecDeque;
use crate::adapter::{Adapter, BuildAdapter, DirectoryUrls, DocumentUrl, NoPaging, to_views};
use crate::document::{Document, Meta, MetadataMap, TagKey};
use crate::error::Error;
use crate::html::{html_attrs, html_attrs_of};
use crate::text::{concat_str, rfind_char, str_eq};
use crate::transport::Transport;

verus! {

/// Builds [`AsstrAdapter`] over a caller-supplied transport.
pub struct BuildAsstrAdapter;

impl<C: Transport> BuildAdapter<C> for BuildAsstrAdapter {
    type Built = AsstrAdapter<C>;

    fn build(&self, client: C) -> AsstrAdapter<C> {
        AsstrAdapter::new(client)
    }
}

/// One file-listing directory page; every link but the parent-directory
/// entry is an item.
pub struct AsstrAdapter<C: Transport> {
    client: C,
}

impl<C: Transport> AsstrAdapter<C> {
    /// A fresh adapter over the given transport.
    pub fn new(client: C) -> AsstrAdapter<C> {
        AsstrAdapter { client }
    }
}

/// The link targets of a listing page made absolute: every `href` of the
/// listing's link cells, except the parent-directory entry, appended to
/// the listing URL.
pub open spec fn listing_urls(url: Seq<char>, text: Seq<char>) -> Seq<Seq<char>> {
    html_attrs_of(text, "td.link > a"@, "href"@).filter(|h: Seq<char>| h != "../"@).map_values(
        |h: Seq<char>| url + h,
    )
}

proof fn lemma_absolutized_push(base: Seq<char>, hrefs: Seq<Seq<char>>, x: Seq<char>)
    ensures
        hrefs.push(x).filter(|h: Seq<char>| h != "../"@).map_values(|h: Seq<char>| base + h)
            == if x != "../"@ {
            hrefs.filter(|h: Seq<char>| h != "../"@).map_values(|h: Seq<char>| base + h).push(
                base + x,
            )
        } else {
            hrefs.filter(|h: Seq<char>| h != "../"@).map_values(|h: Seq<char>| base + h)
        },
{
    reveal(Seq::filter);
    assert(hrefs.push(x).drop_last() =~= hrefs);
    if x != "../"@ {
        assert(hrefs.push(x).filter(|h: Seq<char>| h != "../"@).map_values(
            |h: Seq<char>| base + h,
        ) =~= hrefs.filter(|h: Seq<char>| h != "../"@).map_values(|h: Seq<char>| base + h).push(
            base + x,
        ));
    } else {
        assert(hrefs.push(x).filter(|h: Seq<char>| h != "../"@).map_values(
            |h: Seq<char>| base + h,
        ) =~= hrefs.filter(|h: Seq<char>| h != "../"@).map_values(|h: Seq<char>| base + h));
    }
}

/// The listing a retrieved directory page denotes: its links made
/// absolute, no continuation, no listing-scoped metadata.
pub fn parse_listing(url: &str, text: &str) -> (r: DirectoryUrls<NoPaging>)
    ensures
        r.buffered() == listing_urls(url@, text@),
        r.snapshot() == Map::<TagKey, Seq<char>>::empty(),
        !r.has_more(),
{
    let hrefs = html_attrs(text, "td.link > a", "href");
    let ghost hv = hrefs.deep_view();
    let mut urls: VecDeque<String> = VecDeque::new();
    let mut i: usize = 0;
    while i < hrefs.len()
        invariant
            i <= hrefs.len(),
            hv == hrefs.deep_view(),
            hv.len() == hrefs@.len(),
            forall|j: int| 0 <= j < hrefs@.len() ==> hv[j] == hrefs@[j]@,
            to_views(urls@) == hv.take(i as int).filter(|h: Seq<char>| h != "../"@).map_values(
                |h: Seq<char>| url@ + h,
            ),
        decreases hrefs.len() - i,
    {
        let href = &hrefs[i];
        let ghost prev = urls@;
        if !str_eq(href.as_str(), "../") {
            urls.push_back(concat_str(url, href.as_str()));
        }
        proof {
            assert(hv.take(i + 1 as int).drop_last() =~= hv.take(i as int));
            assert(hv.take(i + 1 as int) =~= hv.take(i as int).push(hv[i as int]));
            lemma_absolutized_push(url@, hv.take(i as int), hv[i as int]);
            if hv[i as int] != "../"@ {
                assert(to_views(urls@) =~= to_views(prev).push(url@ + hv[i as int]));
            }
        }
        i += 1;
    }
    proof {
        assert(hv.take(hrefs@.len() as int) =~= hv);
    }
    DirectoryUrls::new(urls, None, MetadataMap::new())
}

/// The file name carried by an item URL: the portion after the last slash
/// and before the last question mark — empty when the last question mark
/// precedes the last slash.
pub open spec fn name_in_url(url: Seq<char>) -> Seq<char> {
    let left = match url.index_of_last('/') {
        Some(i) => i + 1,
        None => 0,
    };
    let right = match url.index_of_last('?') {
        Some(i) => i,
        None => url.len() as int,
    };
    if left <= right {
        url.subrange(left, right)
    } else {
        Seq::empty()
    }
}

/// The file name carried by an item URL.
pub fn name_from_url(url: &str) -> (r: &str)
    ensures
        r@ == name_in_url(url@),
{
    proof {
        url@.index_of_last_ensures('/');
        url@.index_of_last_ensures('?');
    }
    let n = url.unicode_len();
    let left = match rfind_char(url, '/') {
        Some(i) => i + 1,
        None => 0,
    };
    let right = match rfind_char(url, '?') {
        Some(i) => i,
        None => n,
    };
    if left <= right {
        url.substring_char(left, right)
    } else {
        proof {
            reveal_strlit("");
            assert(""@ =~= Seq::<char>::empty());
        }
        ""
    }
}

/// The document a retrieved item page denotes: the page text as the body,
/// and the inherited snapshot with the URL's file name stamped as the
/// title.
pub fn parse_story(context: DocumentUrl, text: String) -> (r: Document)
    ensures
        r.meta@ == context.snapshot().insert(TagKey::Title, name_in_url(context.address())),
        r.text@ == text@,
{
    let (url, mut meta) = context.into_parts();
    let name = name_from_url(url.as_str());
    meta.insert(Meta::Title, name.to_owned());
    Document { meta, text }
}

impl<C: Transport> Adapter for AsstrAdapter<C> {
    type Page = NoPaging;

    /// Whatever page the transport returned, the listing is that page's
    /// links made absolute against the seed URL, with no continuation and
    /// an empty snapshot.
    fn directory(&self, url: &str) -> (r: Result<DirectoryUrls<NoPaging>, Error>)
        ensures
            r matches Ok(dir) ==> {
                &&& !dir.has_more()
                &&& dir.snapshot() == Map::<TagKey, Seq<char>>::empty()
                &&& exists|text: Seq<char>| dir.buffered() == listing_urls(url@, text)
            },
    {
        let text = match self.client.get(url) {
            Ok(t) => t,
            Err(e) => {
                return Err(e);
            },
        };
        let dir = parse_listing(url, text.as_str());
        proof {
            assert(dir.buffered() == listing_urls(url@, text@));
            assert(exists|t: Seq<char>| dir.buffered() == listing_urls(url@, t));
        }
        Ok(dir)
    }

    /// Whatever page the transport returned, the document's metadata is
    /// exactly the inherited snapshot with the URL's file name stamped as
    /// the title: every other inherited field keeps its value.
    fn download(&self, context: DocumentUrl) -> (r: Result<Document, Error>)
        ensures
            r matches Ok(doc) ==> {
                &&& doc.meta@ == context.snapshot().insert(
                    TagKey::Title,
                    name_in_url(context.address()),
                )
                &&& forall|k: TagKey|
                    k != TagKey::Title && context.snapshot().contains_key(k)
                        ==> #[trigger] doc.meta@.contains_key(k) && doc.meta@[k]
                        == context.snapshot()[k]
            },
    {
        let ghost snap = context.snapshot();
        let text = match self.client.get(context.url()) {
            Ok(t) => t,
            Err(e) => {
                return Err(e);
            },
        };
        let doc = parse_story(context, text);
        proof {
            assert(snap.dom() <= doc.meta@.dom());
        }
        Ok(doc)
    }
}

} // verus!
