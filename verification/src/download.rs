//! The address logic of the standalone whole-story downloader for the
//! story-library source: canonical author and story addresses, recognized
//! in candidate URLs or built from bare identifiers, and the title
//! sanitization its storage step applies.

use vstd::prelude::*;
use crate::error::Error;
use crate::pattern::{Pattern, regex_group_of};
use crate::text::{concat_str, dec_int, i32_dec, parse_i32, parse_i32_spec};

verus! {

/// The shape a candidate address must have: an author id or a story id in
/// the site's story area.
pub const ADDRESS_PATTERN: &'static str = "www.bdsmlibrary.com/stories/.+?\\?(?:authorid=(\\d+)|storyid=(\\d+))";

/// Where an author id is appended to form an author-page URL.
pub const AUTHOR_URL_PREFIX: &'static str = "https://www.bdsmlibrary.com/stories/author.php?authorid=";

/// Where a story id is appended to form a whole-story URL.
pub const STORY_URL_PREFIX: &'static str = "https://www.bdsmlibrary.com/stories/wholestory.php?storyid=";

/// A canonical address of the story library: an author's listing or one
/// whole story.
#[derive(Debug, Clone, Copy, PartialEq, Eq, Structural)]
pub enum Url {
    Author(i32),
    Story(i32),
}

impl Url {
    /// A whole-story address from a bare identifier; `BadId` exactly when
    /// the identifier is not a well-formed number.
    pub fn from_id(id: &str) -> (r: Result<Url, Error>)
        ensures
            match r {
                Ok(u) => (u matches Url::Story(v) && parse_i32_spec(id@) == Some(v as int)),
                Err(e) => parse_i32_spec(id@) is None && (e matches Error::BadId(m) && m@ == id@),
            },
    {
        match parse_i32(id) {
            Some(v) => Ok(Url::Story(v)),
            None => Err(Error::BadId(id.to_owned())),
        }
    }

    /// The address rendered as a URL.
    pub fn url_string(&self) -> (r: String)
        ensures
            match self {
                Url::Author(v) => r@ == AUTHOR_URL_PREFIX@ + dec_int(*v as int),
                Url::Story(v) => r@ == STORY_URL_PREFIX@ + dec_int(*v as int),
            },
    {
        match self {
            Url::Author(id) => {
                let digits = i32_dec(*id);
                concat_str(AUTHOR_URL_PREFIX, digits.as_str())
            },
            Url::Story(id) => {
                let digits = i32_dec(*id);
                concat_str(STORY_URL_PREFIX, digits.as_str())
            },
        }
    }
}

/// Recognizes canonical addresses in candidate URLs.
pub struct UrlFactory {
    pattern: Pattern,
}

impl UrlFactory {
    /// The pattern text candidates are matched against.
    pub closed spec fn pattern_text(&self) -> Seq<char> {
        self.pattern@
    }

    /// A factory with the address pattern compiled once.
    pub fn new() -> (r: UrlFactory)
        ensures
            r.pattern_text() == ADDRESS_PATTERN@,
    {
        UrlFactory { pattern: Pattern::compile(ADDRESS_PATTERN) }
    }

    /// The canonical address a candidate URL names: an author address when
    /// the author id participates in the match, else a story address when
    /// the story id does; `BadAddress` exactly when the candidate has no
    /// match or its id is out of range.
    pub fn create_url(&self, candidate: &str) -> (r: Result<Url, Error>)
        ensures
            match r {
                Ok(u) => match u {
                    Url::Author(v) => (regex_group_of(self.pattern_text(), candidate@, 1)
                        matches Some(id) && parse_i32_spec(id) == Some(v as int)),
                    Url::Story(v) => regex_group_of(self.pattern_text(), candidate@, 1) is None
                        && (regex_group_of(self.pattern_text(), candidate@, 2) matches Some(id)
                        && parse_i32_spec(id) == Some(v as int)),
                },
                Err(e) => (e matches Error::BadAddress(m) && m@ == candidate@) && match
                    regex_group_of(self.pattern_text(), candidate@, 1) {
                    Some(id) => parse_i32_spec(id) is None,
                    None => match regex_group_of(self.pattern_text(), candidate@, 2) {
                        Some(id) => parse_i32_spec(id) is None,
                        None => true,
                    },
                },
            },
    {
        match self.pattern.group(candidate, 1) {
            Some(id) => match parse_i32(id.as_str()) {
                Some(v) => Ok(Url::Author(v)),
                None => Err(Error::BadAddress(candidate.to_owned())),
            },
            None => match self.pattern.group(candidate, 2) {
                Some(id) => match parse_i32(id.as_str()) {
                    Some(v) => Ok(Url::Story(v)),
                    None => Err(Error::BadAddress(candidate.to_owned())),
                },
                None => Err(Error::BadAddress(candidate.to_owned())),
            },
        }
    }
}

/// What one title character contributes to a stored file name here:
/// characters a file path cannot carry are dropped, and a colon becomes a
/// spaced dash.
pub open spec fn title_repl(c: char) -> Seq<char> {
    if c == '\\' || c == '"' || c == '?' {
        Seq::empty()
    } else if c == ':' {
        seq![' ', '-']
    } else {
        seq![c]
    }
}

/// A title reduced to characters that can appear in file paths, with
/// colons kept readable as dashes.
pub open spec fn sanitized_title(s: Seq<char>) -> Seq<char>
    decreases s.len(),
{
    if s.len() == 0 {
        Seq::empty()
    } else {
        sanitized_title(s.drop_last()) + title_repl(s.last())
    }
}

/// Removes elements of a title that cannot appear in file paths.
pub fn sanitize_title(title: &str) -> (r: String)
    ensures
        r@ == sanitized_title(title@),
{
    let n = title.unicode_len();
    let mut buf = String::new();
    let mut i: usize = 0;
    while i < n
        invariant
            n == title@.len(),
            i <= n,
            buf@ == sanitized_title(title@.take(i as int)),
        decreases n - i,
    {
        let c = title.get_char(i);
        if c == '\\' || c == '"' || c == '?' {
        } else if c == ':' {
            buf.append(" -");
            proof {
                reveal_strlit(" -");
                assert(" -"@ =~= seq![' ', '-']);
            }
        } else {
            let piece = title.substring_char(i, i + 1);
            buf.append(piece);
            proof {
                assert(piece@ =~= seq![title@[i as int]]);
            }
        }
        proof {
            assert(title@.take(i + 1 as int).drop_last() =~= title@.take(i as int));
            assert(title@.take(i + 1 as int).last() == title@[i as int]);
            assert(buf@ =~= sanitized_title(title@.take(i + 1 as int)));
        }
        i += 1;
    }
    proof {
        assert(title@.take(n as int) =~= title@);
    }
    buf
}

} // verus!
