//! Trusted queries into the `nipper` HTML engine.
//!
//! HTML parsing and CSS matching are the work of the outside crate; each
//! query's result is a pure function of the page text and the selector, so
//! it is given a name here, and the verified scraping logic is stated and
//! proved over those names. Every wrapper uses `try_select`, which returns
//! nothing instead of panicking, so no wrapper can panic.

use vstd::prelude::*;

verus! {

/// The attribute values, one per matched element in the order `nipper`
/// yields them, that the elements matching `selector` in the document
/// parsed from `text` carry under `attr` (elements without the attribute
/// contribute nothing).
pub uninterp spec fn html_attrs_of(text: Seq<char>, selector: Seq<char>, attr: Seq<char>) -> Seq<
    Seq<char>,
>;

/// The combined text content of every element matching `selector` in the
/// document parsed from `text`.
pub uninterp spec fn html_text_of(text: Seq<char>, selector: Seq<char>) -> Seq<char>;

/// The text content of the first element matching `selector` in the
/// document parsed from `text`, absent when nothing matches.
pub uninterp spec fn html_first_text_of(text: Seq<char>, selector: Seq<char>) -> Option<Seq<char>>;

/// The serialized HTML of the first element matching `selector` in the
/// document parsed from `text`, empty when nothing matches.
pub uninterp spec fn html_inner_of(text: Seq<char>, selector: Seq<char>) -> Seq<char>;

/// The attribute values under `attr` of the elements matching `inner`
/// inside the first element matching `outer`, in the order `nipper` yields
/// them.
pub uninterp spec fn html_scoped_attrs_of(
    text: Seq<char>,
    outer: Seq<char>,
    inner: Seq<char>,
    attr: Seq<char>,
) -> Seq<Seq<char>>;

/// Relies on nipper's `Document::from`, `Document::try_select`,
/// `Selection::iter` and `Node::attr`: the attribute values of the matched
/// elements, in the order the engine yields them, skipping elements
/// without the attribute.
#[verifier::external_body]
pub(crate) fn html_attrs(text: &str, selector: &str, attr: &str) -> (r: Vec<String>)
    ensures
        r.deep_view() == html_attrs_of(text@, selector@, attr@),
{
    let doc = nipper::Document::from(text);
    match doc.try_select(selector) {
        Some(sel) => sel.iter().filter_map(|n| n.attr(attr)).map(|t| t.to_string()).collect(),
        None => Vec::new(),
    }
}

/// Relies on nipper's `Document::from`, `Document::try_select` and
/// `Selection::text`: the combined text content of every matched element,
/// empty when nothing matches.
#[verifier::external_body]
pub(crate) fn html_text(text: &str, selector: &str) -> (r: String)
    ensures
        r@ == html_text_of(text@, selector@),
{
    let doc = nipper::Document::from(text);
    match doc.try_select(selector) {
        Some(sel) => sel.text().to_string(),
        None => String::new(),
    }
}

/// Relies on nipper's `Document::from`, `Document::try_select` and
/// `Node::text`: the text content of the first matched element, absent
/// when nothing matches.
#[verifier::external_body]
pub(crate) fn html_first_text(text: &str, selector: &str) -> (r: Option<String>)
    ensures
        match r {
            Some(s) => html_first_text_of(text@, selector@) == Some(s@),
            None => html_first_text_of(text@, selector@) is None,
        },
{
    let doc = nipper::Document::from(text);
    match doc.try_select(selector) {
        Some(sel) => sel.nodes().first().map(|n| n.text().to_string()),
        None => None,
    }
}

/// Relies on nipper's `Document::from`, `Document::try_select` and
/// `Selection::html`: the serialized HTML of the first matched element,
/// empty when nothing matches.
#[verifier::external_body]
pub(crate) fn html_inner(text: &str, selector: &str) -> (r: String)
    ensures
        r@ == html_inner_of(text@, selector@),
{
    let doc = nipper::Document::from(text);
    match doc.try_select(selector) {
        Some(sel) => sel.html().to_string(),
        None => String::new(),
    }
}

/// Relies on nipper's `Document::from`, `Document::try_select`,
/// `Selection::from(Node)`, `Selection::try_select`, `Selection::iter` and
/// `Node::attr`: the attribute values of the elements matching `inner`
/// inside the first element matching `outer`.
#[verifier::external_body]
pub(crate) fn html_scoped_attrs(text: &str, outer: &str, inner: &str, attr: &str) -> (r: Vec<
    String,
>)
    ensures
        r.deep_view() == html_scoped_attrs_of(text@, outer@, inner@, attr@),
{
    let doc = nipper::Document::from(text);
    let sel = match doc.try_select(outer) {
        Some(sel) => sel,
        None => return Vec::new(),
    };
    let first = match sel.nodes().first() {
        Some(node) => nipper::Selection::from(node.clone()),
        None => return Vec::new(),
    };
    match first.try_select(inner) {
        Some(sel) => sel.iter().filter_map(|n| n.attr(attr)).map(|t| t.to_string()).collect(),
        None => Vec::new(),
    }
}

} // verus!
