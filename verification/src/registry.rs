//! The adapter registry: the mapping from a seed URL's domain to the
//! source that can handle it. Lookup is by exact domain string and yields
//! the kind of adapter to build; a domain nobody registered is an error.

use vstd::prelude::*;
use crate::error::Error;
use crate::text::str_eq;

verus! {

/// The sources this library has adapters for.
#[derive(Debug, Clone, Copy, PartialEq, Eq, Structural)]
pub enum SourceKind {
    Asstr,
    BdsmLibrary,
    GaggedUtopia,
    SexStories,
    FetLibrary,
}

/// Whether `url` parses as a URL at all.
pub uninterp spec fn url_parse_ok(url: Seq<char>) -> bool;

/// The domain name a well-formed URL carries, absent for URLs addressed
/// otherwise (by IP address, say).
pub uninterp spec fn url_domain_of(url: Seq<char>) -> Option<Seq<char>>;

/// Relies on `url::Url::parse` and `url::Url::domain`: both are pure
/// functions of the URL text; the error value holds the parse failure's
/// description.
#[verifier::external_body]
fn url_domain(url: &str) -> (r: Result<Option<String>, String>)
    ensures
        match r {
            Ok(d) => url_parse_ok(url@) && (match d {
                Some(s) => url_domain_of(url@) == Some(s@),
                None => url_domain_of(url@) is None,
            }),
            Err(_) => !url_parse_ok(url@),
        },
{
    match url::Url::parse(url) {
        Ok(u) => Ok(u.domain().map(|d| d.to_owned())),
        Err(e) => Err(e.to_string()),
    }
}

/// The domain a seed URL names: `BadUrl` when the URL does not parse,
/// `MissingDomain` when it parses but carries no domain name.
pub fn domain(url: &str) -> (r: Result<String, Error>)
    ensures
        match r {
            Ok(d) => url_parse_ok(url@) && url_domain_of(url@) == Some(d@),
            Err(e) => match e {
                Error::BadUrl(_) => !url_parse_ok(url@),
                Error::MissingDomain(m) => url_parse_ok(url@) && url_domain_of(url@) is None
                    && m@ == url@,
                _ => false,
            },
        },
{
    match url_domain(url) {
        Ok(d) => match d {
            Some(name) => Ok(name),
            None => Err(Error::MissingDomain(url.to_owned())),
        },
        Err(msg) => Err(Error::BadUrl(msg)),
    }
}

/// The source registered for a domain, if any: the mathematical content of
/// the registry.
pub open spec fn source_for_domain(d: Seq<char>) -> Option<SourceKind> {
    if d == "www.asstr.org"@ {
        Some(SourceKind::Asstr)
    } else if d == "www.bdsmlibrary.com"@ {
        Some(SourceKind::BdsmLibrary)
    } else if d == "www.sexstories.com"@ {
        Some(SourceKind::SexStories)
    } else if d == "www.thefetlibrary.com"@ {
        Some(SourceKind::FetLibrary)
    } else if d == "www.utopiastories.com"@ {
        Some(SourceKind::GaggedUtopia)
    } else {
        None
    }
}

proof fn lemma_domain_table()
    ensures
        source_for_domain("www.asstr.org"@) == Some(SourceKind::Asstr),
        source_for_domain("www.bdsmlibrary.com"@) == Some(SourceKind::BdsmLibrary),
        source_for_domain("www.sexstories.com"@) == Some(SourceKind::SexStories),
        source_for_domain("www.thefetlibrary.com"@) == Some(SourceKind::FetLibrary),
        source_for_domain("www.utopiastories.com"@) == Some(SourceKind::GaggedUtopia),
{
    reveal_strlit("www.asstr.org");
    reveal_strlit("www.bdsmlibrary.com");
    reveal_strlit("www.sexstories.com");
    reveal_strlit("www.thefetlibrary.com");
    reveal_strlit("www.utopiastories.com");
    assert("www.asstr.org"@.len() == 13);
    assert("www.bdsmlibrary.com"@.len() == 19);
    assert("www.sexstories.com"@.len() == 18);
    assert("www.thefetlibrary.com"@.len() == 21);
    assert("www.utopiastories.com"@.len() == 21);
    assert("www.utopiastories.com"@[4] != "www.thefetlibrary.com"@[4]);
}

/// The registry as a table, domain by domain, for drivers that enumerate
/// the known sources.
pub fn register_adapters() -> (r: Vec<(String, SourceKind)>)
    ensures
        r@.len() == 5,
        forall|i: int|
            0 <= i < 5 ==> source_for_domain(#[trigger] r@[i].0@) == Some(r@[i].1),
        r@[0].0@ == "www.asstr.org"@,
        r@[1].0@ == "www.bdsmlibrary.com"@,
        r@[2].0@ == "www.sexstories.com"@,
        r@[3].0@ == "www.thefetlibrary.com"@,
        r@[4].0@ == "www.utopiastories.com"@,
{
    let mut table: Vec<(String, SourceKind)> = Vec::new();
    table.push(("www.asstr.org".to_owned(), SourceKind::Asstr));
    table.push(("www.bdsmlibrary.com".to_owned(), SourceKind::BdsmLibrary));
    table.push(("www.sexstories.com".to_owned(), SourceKind::SexStories));
    table.push(("www.thefetlibrary.com".to_owned(), SourceKind::FetLibrary));
    table.push(("www.utopiastories.com".to_owned(), SourceKind::GaggedUtopia));
    proof {
        lemma_domain_table();
        assert forall|i: int|
            0 <= i < 5 implies source_for_domain(#[trigger] table@[i].0@) == Some(
            table@[i].1,
        ) by {
            lemma_domain_table();
        }
    }
    table
}

/// Lookup by exact domain string: the source to build for `domain_name`,
/// or `UnknownDomain` exactly when no source is registered for it.
pub fn lookup(domain_name: &str) -> (r: Result<SourceKind, Error>)
    ensures
        match r {
            Ok(kind) => source_for_domain(domain_name@) == Some(kind),
            Err(e) => source_for_domain(domain_name@) is None && (e matches Error::UnknownDomain(m)
                && m@ == domain_name@),
        },
{
    proof {
        lemma_domain_table();
    }
    if str_eq(domain_name, "www.asstr.org") {
        Ok(SourceKind::Asstr)
    } else if str_eq(domain_name, "www.bdsmlibrary.com") {
        Ok(SourceKind::BdsmLibrary)
    } else if str_eq(domain_name, "www.sexstories.com") {
        Ok(SourceKind::SexStories)
    } else if str_eq(domain_name, "www.thefetlibrary.com") {
        Ok(SourceKind::FetLibrary)
    } else if str_eq(domain_name, "www.utopiastories.com") {
        Ok(SourceKind::GaggedUtopia)
    } else {
        Err(Error::UnknownDomain(domain_name.to_owned()))
    }
}

} // verus!
