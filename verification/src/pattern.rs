//! Trusted matching through the `regex` engine.
//!
//! A [`Pattern`] pairs a compiled regular expression with the pattern text
//! it was compiled from; the pattern text is the value contracts speak of.
//! What a match returns is a pure function of the pattern and the input,
//! so each operation's result is given a name, and the verified extraction
//! logic is stated and proved over those names.

use vstd::prelude::*;

verus! {

#[verifier::external_type_specification]
#[verifier::external_body]
pub struct ExRegex(regex::Regex);

/// The text of capture group `group` of the first match of `pattern` in
/// `text`, absent when there is no match or the group did not participate;
/// group 0 is the whole match. Absent for every input when `pattern` is
/// not a valid regular expression.
pub uninterp spec fn regex_group_of(pattern: Seq<char>, text: Seq<char>, group: int) -> Option<
    Seq<char>,
>;

/// The texts of capture group `group` across every non-overlapping match
/// of `pattern` in `text`, in match order, skipping matches in which the
/// group did not participate. Empty for every input when `pattern` is not
/// a valid regular expression.
pub uninterp spec fn regex_groups_of(pattern: Seq<char>, text: Seq<char>, group: int) -> Seq<
    Seq<char>,
>;

/// A compiled pattern matcher, built once at adapter construction and
/// never mutated.
pub struct Pattern {
    re: Option<regex::Regex>,
    src: String,
}

impl View for Pattern {
    type V = Seq<char>;

    /// A pattern's mathematical identity is the pattern text it was
    /// compiled from.
    closed spec fn view(&self) -> Seq<char> {
        self.src@
    }
}

impl Pattern {
    /// Relies on `regex::Regex::new`: compiling is deterministic in the
    /// pattern text. An invalid pattern yields a matcher that matches
    /// nothing rather than a panic.
    #[verifier::external_body]
    pub fn compile(pattern: &str) -> (r: Pattern)
        ensures
            r@ == pattern@,
    {
        Pattern { re: regex::Regex::new(pattern).ok(), src: pattern.to_owned() }
    }

    /// Relies on `regex::Regex::captures` and `regex::Captures::get`: the
    /// requested capture group of the first match, if any.
    #[verifier::external_body]
    pub fn group(&self, text: &str, idx: usize) -> (r: Option<String>)
        ensures
            match r {
                Some(s) => regex_group_of(self@, text@, idx as int) == Some(s@),
                None => regex_group_of(self@, text@, idx as int) is None,
            },
    {
        match &self.re {
            Some(re) => re.captures(text).and_then(|c| c.get(idx)).map(
                |m| m.as_str().to_owned(),
            ),
            None => None,
        }
    }

    /// Relies on `regex::Regex::captures_iter` and `regex::Captures::get`:
    /// the requested capture group of every non-overlapping match, in
    /// match order.
    #[verifier::external_body]
    pub fn group_all(&self, text: &str, idx: usize) -> (r: Vec<String>)
        ensures
            r.deep_view() == regex_groups_of(self@, text@, idx as int),
    {
        match &self.re {
            Some(re) => re.captures_iter(text).filter_map(|c| c.get(idx)).map(
                |m| m.as_str().to_owned(),
            ).collect(),
            None => Vec::new(),
        }
    }

    /// Relies on `regex::Regex::is_match`, which its documentation ties to
    /// `captures`: a match exists if and only if `captures` would return
    /// one, and group 0 of a match is always present.
    #[verifier::external_body]
    pub fn is_match(&self, text: &str) -> (r: bool)
        ensures
            r == (regex_group_of(self@, text@, 0) is Some),
    {
        match &self.re {
            Some(re) => re.is_match(text),
            None => false,
        }
    }
}

} // verus!
