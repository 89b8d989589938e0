//! The normalized output record and its metadata vocabulary.
//!
//! A [`Document`] is the terminal artifact of a retrieval: a body of text
//! plus a [`MetadataMap`] of semantic fields. The map is a value type with
//! copy-on-branch semantics: each holder owns an independent copy, so a
//! later per-item insertion never perturbs sibling items' copies.

use vstd::prelude::*;

verus! {

/// Closed set of semantic tags, extensible through `Other` for
/// site-specific fields.
#[derive(Debug, PartialEq, Eq, Hash)]
pub enum Meta {
    Author,
    Extension,
    Other(String),
    PublicationDate,
    Title,
}

/// The mathematical identity of a metadata key: what a [`Meta`] value means
/// in specifications, with the `Other` name abstracted to its characters.
pub ghost enum TagKey {
    Author,
    Extension,
    Other(Seq<char>),
    PublicationDate,
    Title,
}

impl View for Meta {
    type V = TagKey;

    open spec fn view(&self) -> TagKey {
        match self {
            Meta::Author => TagKey::Author,
            Meta::Extension => TagKey::Extension,
            Meta::Other(name) => TagKey::Other(name@),
            Meta::PublicationDate => TagKey::PublicationDate,
            Meta::Title => TagKey::Title,
        }
    }
}

impl Clone for Meta {
    fn clone(&self) -> (res: Self)
        ensures
            res == *self,
    {
        match self {
            Meta::Author => Meta::Author,
            Meta::Extension => Meta::Extension,
            Meta::Other(name) => Meta::Other(name.clone()),
            Meta::PublicationDate => Meta::PublicationDate,
            Meta::Title => Meta::Title,
        }
    }
}

impl Meta {
    /// Whether two tags name the same metadata field.
    pub fn same_key(&self, other: &Meta) -> (r: bool)
        ensures
            r == (self@ == other@),
    {
        match (self, other) {
            (Meta::Author, Meta::Author) => true,
            (Meta::Extension, Meta::Extension) => true,
            (Meta::Other(a), Meta::Other(b)) => *a == *b,
            (Meta::PublicationDate, Meta::PublicationDate) => true,
            (Meta::Title, Meta::Title) => true,
            _ => false,
        }
    }
}

/// What a sequence of entries denotes: a finite map in which the earliest
/// entry for a key wins.
spec fn entries_view(s: Seq<(Meta, String)>) -> Map<TagKey, Seq<char>>
    decreases s.len(),
{
    if s.len() == 0 {
        Map::empty()
    } else {
        entries_view(s.drop_first()).insert(s[0].0@, s[0].1@)
    }
}

proof fn lemma_view_first_match(s: Seq<(Meta, String)>, k: TagKey, j: int)
    requires
        0 <= j < s.len(),
        s[j].0@ == k,
        forall|l: int| 0 <= l < j ==> s[l].0@ != k,
    ensures
        entries_view(s).contains_key(k),
        entries_view(s)[k] == s[j].1@,
    decreases s.len(),
{
    if j > 0 {
        lemma_view_first_match(s.drop_first(), k, j - 1);
    }
}

proof fn lemma_view_no_match(s: Seq<(Meta, String)>, k: TagKey)
    requires
        forall|l: int| 0 <= l < s.len() ==> s[l].0@ != k,
    ensures
        !entries_view(s).contains_key(k),
    decreases s.len(),
{
    if s.len() > 0 {
        lemma_view_no_match(s.drop_first(), k);
    }
}

proof fn lemma_view_update(s: Seq<(Meta, String)>, i: int, e: (Meta, String))
    requires
        0 <= i < s.len(),
        s[i].0@ == e.0@,
        forall|l: int| 0 <= l < i ==> s[l].0@ != e.0@,
    ensures
        entries_view(s.update(i, e)) == entries_view(s).insert(e.0@, e.1@),
    decreases s.len(),
{
    let t = s.update(i, e);
    if i == 0 {
        assert(t.drop_first() =~= s.drop_first());
        assert(entries_view(t) =~= entries_view(s).insert(e.0@, e.1@));
    } else {
        lemma_view_update(s.drop_first(), i - 1, e);
        assert(t.drop_first() =~= s.drop_first().update(i - 1, e));
        assert(entries_view(t) =~= entries_view(s).insert(e.0@, e.1@));
    }
}

proof fn lemma_view_push(s: Seq<(Meta, String)>, e: (Meta, String))
    requires
        forall|l: int| 0 <= l < s.len() ==> s[l].0@ != e.0@,
    ensures
        entries_view(s.push(e)) == entries_view(s).insert(e.0@, e.1@),
    decreases s.len(),
{
    if s.len() == 0 {
        assert(s.push(e).drop_first() =~= Seq::<(Meta, String)>::empty());
        assert(s.push(e)[0] == e);
        assert(entries_view(s.push(e)) == entries_view(s.push(e).drop_first()).insert(
            e.0@,
            e.1@,
        ));
        assert(entries_view(s.push(e)) =~= entries_view(s).insert(e.0@, e.1@));
    } else {
        lemma_view_push(s.drop_first(), e);
        assert(s.push(e).drop_first() =~= s.drop_first().push(e));
        assert(s.push(e)[0] == s[0]);
        assert(entries_view(s.push(e)) == entries_view(s.drop_first().push(e)).insert(
            s[0].0@,
            s[0].1@,
        ));
        assert(entries_view(s.push(e)) =~= entries_view(s).insert(e.0@, e.1@));
    }
}

/// A mapping from metadata tags to string values; keys are unique, and no
/// ordering is guaranteed or observable.
#[derive(Debug)]
pub struct MetadataMap {
    entries: Vec<(Meta, String)>,
}

impl View for MetadataMap {
    type V = Map<TagKey, Seq<char>>;

    closed spec fn view(&self) -> Map<TagKey, Seq<char>> {
        entries_view(self.entries@)
    }
}

impl Clone for MetadataMap {
    fn clone(&self) -> (res: Self)
        ensures
            res@ == self@,
    {
        let mut out: Vec<(Meta, String)> = Vec::new();
        let mut i: usize = 0;
        while i < self.entries.len()
            invariant
                i <= self.entries.len(),
                out@ == self.entries@.subrange(0, i as int),
            decreases self.entries.len() - i,
        {
            let entry = &self.entries[i];
            out.push((entry.0.clone(), entry.1.clone()));
            assert(out@ =~= self.entries@.subrange(0, i + 1 as int));
            i += 1;
        }
        assert(out@ =~= self.entries@);
        MetadataMap { entries: out }
    }
}

impl MetadataMap {
    /// The empty mapping.
    pub fn new() -> (r: Self)
        ensures
            r@ == Map::<TagKey, Seq<char>>::empty(),
    {
        MetadataMap { entries: Vec::new() }
    }

    /// The position of the entry for `key`, if one exists.
    fn index_of(&self, key: &Meta) -> (r: Option<usize>)
        ensures
            match r {
                Some(i) => {
                    &&& i < self.entries@.len()
                    &&& self.entries@[i as int].0@ == key@
                    &&& forall|l: int| 0 <= l < i ==> self.entries@[l].0@ != key@
                },
                None => forall|l: int|
                    0 <= l < self.entries@.len() ==> self.entries@[l].0@ != key@,
            },
    {
        let mut i: usize = 0;
        while i < self.entries.len()
            invariant
                i <= self.entries.len(),
                forall|l: int| 0 <= l < i ==> self.entries@[l].0@ != key@,
            decreases self.entries.len() - i,
        {
            if self.entries[i].0.same_key(key) {
                return Some(i);
            }
            i += 1;
        }
        None
    }

    /// Binds `key` to `value`, replacing any earlier binding.
    pub fn insert(&mut self, key: Meta, value: String)
        ensures
            final(self)@ == old(self)@.insert(key@, value@),
    {
        let ghost k = key@;
        let ghost v = value@;
        match self.index_of(&key) {
            Some(i) => {
                proof {
                    lemma_view_update(self.entries@, i as int, (key, value));
                }
                self.entries[i] = (key, value);
            },
            None => {
                proof {
                    lemma_view_push(self.entries@, (key, value));
                }
                self.entries.push((key, value));
            },
        }
    }

    /// The value bound to `key`, if any.
    pub fn get(&self, key: &Meta) -> (r: Option<&String>)
        ensures
            match r {
                Some(v) => self@.contains_key(key@) && v@ == self@[key@],
                None => !self@.contains_key(key@),
            },
    {
        match self.index_of(key) {
            Some(i) => {
                proof {
                    lemma_view_first_match(self.entries@, key@, i as int);
                }
                Some(&self.entries[i].1)
            },
            None => {
                proof {
                    lemma_view_no_match(self.entries@, key@);
                }
                None
            },
        }
    }

    /// Whether `key` is bound.
    pub fn contains_key(&self, key: &Meta) -> (r: bool)
        ensures
            r == self@.contains_key(key@),
    {
        match self.get(key) {
            Some(_) => true,
            None => false,
        }
    }
}

/// The terminal artifact of a retrieval: extracted metadata plus the text
/// body. Constructed once by an adapter's fetch operation and immutable
/// thereafter.
pub struct Document {
    pub meta: MetadataMap,
    pub text: String,
}

impl Document {
    /// The author field, when the source revealed one.
    pub fn author(&self) -> (r: Option<&str>)
        ensures
            match r {
                Some(v) => self.meta@.contains_key(TagKey::Author) && v@ == self.meta@[TagKey::Author],
                None => !self.meta@.contains_key(TagKey::Author),
            },
    {
        match self.meta.get(&Meta::Author) {
            Some(v) => Some(v.as_str()),
            None => None,
        }
    }

    /// The raw text body.
    pub fn content(&self) -> (r: &str)
        ensures
            r@ == self.text@,
    {
        self.text.as_str()
    }

    /// The file extension this document should be stored under; defaults to
    /// `"html"` when no `Extension` field was extracted.
    pub fn extension(&self) -> (r: &str)
        ensures
            self.meta@.contains_key(TagKey::Extension) ==> r@ == self.meta@[TagKey::Extension],
            !self.meta@.contains_key(TagKey::Extension) ==> r@ == "html"@,
    {
        match self.meta.get(&Meta::Extension) {
            Some(v) => v.as_str(),
            None => "html",
        }
    }

    /// The publication date field, when the source revealed one.
    pub fn publication_date(&self) -> (r: Option<&str>)
        ensures
            match r {
                Some(v) => self.meta@.contains_key(TagKey::PublicationDate) && v@ == self.meta@[TagKey::PublicationDate],
                None => !self.meta@.contains_key(TagKey::PublicationDate),
            },
    {
        match self.meta.get(&Meta::PublicationDate) {
            Some(v) => Some(v.as_str()),
            None => None,
        }
    }

    /// The title field, when the source revealed one.
    pub fn title(&self) -> (r: Option<&str>)
        ensures
            match r {
                Some(v) => self.meta@.contains_key(TagKey::Title) && v@ == self.meta@[TagKey::Title],
                None => !self.meta@.contains_key(TagKey::Title),
            },
    {
        match self.meta.get(&Meta::Title) {
            Some(v) => Some(v.as_str()),
            None => None,
        }
    }
}

/// Metadata inheritance: stamping an item-level field onto a listing-time
/// snapshot keeps every inherited field, and an item-level value wins over
/// an inherited one on key collision.
pub proof fn lemma_metadata_inheritance(
    snapshot: Map<TagKey, Seq<char>>,
    title: Seq<char>,
    author: Seq<char>,
)
    requires
        snapshot.contains_key(TagKey::Author),
    ensures
        snapshot.insert(TagKey::Title, title).contains_key(TagKey::Author),
        snapshot.insert(TagKey::Title, title)[TagKey::Author] == snapshot[TagKey::Author],
        snapshot.insert(TagKey::Title, title).contains_key(TagKey::Title),
        snapshot.insert(TagKey::Title, title)[TagKey::Title] == title,
        snapshot.insert(TagKey::Author, author)[TagKey::Author] == author,
{
}

} // verus!
