//! The source-adapter abstraction and the lazy directory iterator.
//!
//! An adapter encapsulates everything specific to one site behind two
//! operations: `directory` enumerates item addresses under a listing URL,
//! and `download` resolves one address to a [`Document`]. The directory
//! iterator returned by `directory` is a lazy, possibly paginated sequence
//! of addressable items: items buffered from the current page are handed
//! out in page order, and only when the buffer is drained is the optional
//! continuation capability invoked to fetch the next page.

pub mod asstr;
pub mod bdsmlibrary;
pub mod gaggedutopia;
pub mod sexstories;
pub mod thefetlibrary;

use vstd::prelude::*;
use std::collections::VecDeque;
use crate::document::{Document, MetadataMap, TagKey};
use crate::error::Error;

verus! {

/// An item address bundled with the metadata snapshot inherited from its
/// listing page. The snapshot reflects listing-time knowledge only; the
/// fetch step may enrich it.
#[derive(Debug)]
pub struct DocumentUrl {
    meta: MetadataMap,
    url: String,
}

impl DocumentUrl {
    /// The item's absolute, adapter-specific address.
    pub closed spec fn address(&self) -> Seq<char> {
        self.url@
    }

    /// The listing-time metadata snapshot the item carries.
    pub closed spec fn snapshot(&self) -> Map<TagKey, Seq<char>> {
        self.meta@
    }

    /// Bundles an address with its listing-time snapshot.
    pub fn new(url: String, meta: MetadataMap) -> (r: Self)
        ensures
            r.address() == url@,
            r.snapshot() == meta@,
    {
        DocumentUrl { meta, url }
    }

    /// The item's address.
    pub fn url(&self) -> (r: &str)
        ensures
            r@ == self.address(),
    {
        self.url.as_str()
    }

    /// The inherited metadata snapshot.
    pub fn meta(&self) -> (r: &MetadataMap)
        ensures
            r@ == self.snapshot(),
    {
        &self.meta
    }

    /// Splits the item into its address and its snapshot, both owned.
    pub fn into_parts(self) -> (r: (String, MetadataMap))
        ensures
            r.0@ == self.address(),
            r.1@ == self.snapshot(),
    {
        let DocumentUrl { meta, url } = self;
        (url, meta)
    }
}

impl Clone for DocumentUrl {
    fn clone(&self) -> (res: Self)
        ensures
            res.address() == self.address(),
            res.snapshot() == self.snapshot(),
    {
        DocumentUrl { meta: self.meta.clone(), url: self.url.clone() }
    }
}

/// The continuation capability of a paginated listing: one operation,
/// "retrieve the next batch of item addresses or signal exhaustion".
/// Implementations hold adapter-private cursor state behind this single
/// operation; it is not safe to invoke concurrently with itself.
pub trait Paging {
    fn next_page(&mut self) -> Option<Result<VecDeque<String>, Error>>;
}

/// The continuation of a single-page listing: there is never a next page.
/// (Held only as a type argument — a single-page listing carries no
/// capability at all.)
pub struct NoPaging;

impl Paging for NoPaging {
    fn next_page(&mut self) -> Option<Result<VecDeque<String>, Error>> {
        None
    }
}

/// The character-sequence views of a batch of addresses.
pub open spec fn to_views(s: Seq<String>) -> Seq<Seq<char>> {
    s.map_values(|x: String| x@)
}

proof fn lemma_to_views_subrange(s: Seq<String>, a: int, b: int)
    requires
        0 <= a <= b <= s.len(),
    ensures
        to_views(s.subrange(a, b)) == to_views(s).subrange(a, b),
{
    assert(to_views(s.subrange(a, b)) =~= to_views(s).subrange(a, b));
}

/// A lazy, possibly paginated sequence of addressable items: the result of
/// an adapter's listing operation. Produces buffered items first, in page
/// order, each stamped with the listing's metadata snapshot; once the
/// buffer is drained, the continuation capability (if any) is invoked to
/// fetch the next page.
pub struct DirectoryUrls<P: Paging> {
    urls: VecDeque<String>,
    page: Option<P>,
    meta: MetadataMap,
}

impl<P: Paging> DirectoryUrls<P> {
    /// The addresses currently buffered, front first.
    pub closed spec fn buffered(&self) -> Seq<Seq<char>> {
        to_views(self.urls@)
    }

    /// The continuation capability, when more pages may exist.
    pub closed spec fn continuation(&self) -> Option<P> {
        self.page
    }

    /// Whether a continuation capability is held.
    pub open spec fn has_more(&self) -> bool {
        self.continuation() is Some
    }

    /// The listing-time metadata snapshot stamped onto every produced item.
    pub closed spec fn snapshot(&self) -> Map<TagKey, Seq<char>> {
        self.meta@
    }

    /// Whether the sequence can produce nothing further.
    pub open spec fn exhausted(&self) -> bool {
        self.buffered().len() == 0 && !self.has_more()
    }

    /// A listing pre-loaded with zero or more buffered addresses, an
    /// optional continuation capability, and the listing-scoped metadata.
    pub fn new(urls: VecDeque<String>, page: Option<P>, meta: MetadataMap) -> (r: Self)
        ensures
            r.buffered() == to_views(urls@),
            r.continuation() == page,
            r.snapshot() == meta@,
    {
        DirectoryUrls { urls, page, meta }
    }

    /// The next item of the sequence, or `None` once it is exhausted.
    ///
    /// While the buffer is non-empty, the front address is popped and
    /// returned stamped with the snapshot, and the continuation capability
    /// is left untouched: no next-page work of any kind happens until the
    /// buffer is drained. On an empty buffer with no capability the
    /// sequence stays exhausted. Otherwise the capability is invoked once:
    /// a batch refills the buffer and its first item is returned; an error
    /// is surfaced as the produced value and the capability is discarded,
    /// terminating the sequence; an empty batch is rejected as
    /// non-terminating misuse and likewise terminates the sequence.
    pub fn next(&mut self) -> (r: Option<Result<DocumentUrl, Error>>)
        ensures
            final(self).snapshot() == old(self).snapshot(),
            r matches Some(Ok(item)) ==> item.snapshot() == old(self).snapshot(),
            old(self).buffered().len() > 0 ==> {
                &&& match r {
                    Some(res) => res matches Ok(item) && item.address() == old(self).buffered()[0],
                    None => false,
                }
                &&& final(self).buffered() == old(self).buffered().drop_first()
                &&& final(self).continuation() == old(self).continuation()
            },
            old(self).exhausted() ==> r is None && final(self).exhausted(),
            old(self).buffered().len() == 0 && old(self).has_more() ==> match r {
                None => final(self).buffered().len() == 0,
                Some(res) => match res {
                    Ok(item) => {
                        &&& final(self).has_more()
                        &&& exists|batch: Seq<Seq<char>>|
                            #![auto]
                            batch.len() > 0 && item.address() == batch[0]
                                && final(self).buffered() == batch.drop_first()
                    },
                    Err(_) => !final(self).has_more() && final(self).buffered().len() == 0,
                },
            },
    {
        if self.urls.len() == 0 {
            let fetched = match &mut self.page {
                None => {
                    return None;
                },
                Some(p) => p.next_page(),
            };
            match fetched {
                None => {
                    return None;
                },
                Some(Err(e)) => {
                    self.page = None;
                    return Some(Err(e));
                },
                Some(Ok(batch)) => {
                    if batch.len() == 0 {
                        self.page = None;
                        return None;
                    }
                    self.urls = batch;
                },
            }
        }
        let ghost pre = self.urls@;
        let url = self.urls.pop_front().unwrap();
        let item = DocumentUrl::new(url, self.meta.clone());
        proof {
            lemma_to_views_subrange(pre, 1, pre.len() as int);
            assert(to_views(pre).drop_first() == to_views(self.urls@));
            let w = to_views(pre);
            assert(w.len() > 0 && item.address() == w[0] && self.buffered() == w.drop_first());
            assert(exists|batch: Seq<Seq<char>>|
                #![auto]
                batch.len() > 0 && item.address() == batch[0] && self.buffered()
                    == batch.drop_first());
        }
        Some(Ok(item))
    }
}

/// The order in which a FIFO buffer is drained: the front item, then the
/// drain of the rest.
pub open spec fn fifo_drain(s: Seq<Seq<char>>) -> Seq<Seq<char>>
    decreases s.len(),
{
    if s.len() == 0 {
        Seq::empty()
    } else {
        seq![s[0]] + fifo_drain(s.drop_first())
    }
}

/// Draining a FIFO buffer yields exactly its items, in their buffered
/// order: popping the front never reorders what remains.
pub proof fn lemma_fifo_drain_preserves_order(s: Seq<Seq<char>>)
    ensures
        fifo_drain(s) == s,
    decreases s.len(),
{
    if s.len() == 0 {
        assert(fifo_drain(s) =~= s);
    } else {
        lemma_fifo_drain_preserves_order(s.drop_first());
        assert(fifo_drain(s) =~= s);
    }
}

/// Order preservation across pages: draining the items buffered from one
/// page and then the items a continuation later delivers yields every item
/// of both pages, in page order — first page first, each page front to
/// back, no reordering and no loss.
pub proof fn lemma_order_preservation(first: Seq<Seq<char>>, second: Seq<Seq<char>>)
    ensures
        fifo_drain(first) + fifo_drain(second) == first + second,
{
    lemma_fifo_drain_preserves_order(first);
    lemma_fifo_drain_preserves_order(second);
}

/// A site-specific source: everything one site needs is encapsulated
/// behind a listing operation and a fetch operation. Implementations are
/// stateless across calls except for their held transport and compiled
/// patterns.
pub trait Adapter {
    /// The continuation type of this source's listings.
    type Page: Paging;

    /// Enumerates the item addresses under `url`, attaching any
    /// listing-scoped metadata (commonly the author) as the snapshot
    /// propagated to every item. Absence of such metadata is not an error.
    fn directory(&self, url: &str) -> Result<DirectoryUrls<Self::Page>, Error>;

    /// Retrieves one item, merges item-scoped metadata over the inherited
    /// snapshot, and returns the normalized document. Every inherited
    /// field survives the merge; item-level values win on key collision.
    fn download(&self, context: DocumentUrl) -> (r: Result<Document, Error>)
        ensures
            r matches Ok(doc) ==> context.snapshot().dom() <= doc.meta@.dom(),
    ;
}

/// A recipe for a fresh adapter instance over a caller-supplied transport.
pub trait BuildAdapter<C: crate::transport::Transport> {
    /// The adapter this recipe produces.
    type Built: Adapter;

    /// A fresh instance; adapters carry no cross-request state worth
    /// sharing.
    fn build(&self, client: C) -> Self::Built;
}

} // verus!
