//! The error vocabulary of the library.
//!
//! Every failure is returned as a value, never thrown: a driver can choose to
//! skip one item and continue iterating. The library itself never retries,
//! never logs, and never swallows an error.

use vstd::prelude::*;

verus! {

/// What can go wrong while listing a directory or retrieving a document.
#[derive(Debug, Clone, PartialEq, Eq)]
pub enum Error {
    /// A candidate address did not have the shape the source requires.
    BadAddress(String),
    /// A story identifier was not a well-formed number.
    BadId(String),
    /// A seed address could not be parsed as a URL; holds a description of
    /// the parse failure.
    BadUrl(String),
    /// A seed URL carries no domain name, so no adapter can be selected.
    MissingDomain(String),
    /// A retrieved page lacks the structural marker the title is read from.
    MissingTitle,
    /// A network request failed or returned a non-success status; holds a
    /// description supplied by the transport.
    Transport(String),
    /// The seed URL's domain has no registered adapter.
    UnknownDomain(String),
}

impl Error {
    /// A human-readable account of the error, one line, no trailing newline.
    pub fn describe(&self) -> (r: String)
        ensures
            match self {
                Error::BadAddress(v) => r@ == "bad address: "@ + v@,
                Error::BadId(v) => r@ == "bad story id: "@ + v@,
                Error::BadUrl(v) => r@ == "bad url: "@ + v@,
                Error::MissingDomain(v) => r@ == "missing domain: "@ + v@,
                Error::MissingTitle => r@ == "missing title"@,
                Error::Transport(v) => r@ == "transport: "@ + v@,
                Error::UnknownDomain(v) => r@ == "unknown domain: "@ + v@,
            },
    {
        match self {
            Error::BadAddress(v) => {
                let mut r = "bad address: ".to_owned();
                r.append(v.as_str());
                r
            },
            Error::BadId(v) => {
                let mut r = "bad story id: ".to_owned();
                r.append(v.as_str());
                r
            },
            Error::BadUrl(v) => {
                let mut r = "bad url: ".to_owned();
                r.append(v.as_str());
                r
            },
            Error::MissingDomain(v) => {
                let mut r = "missing domain: ".to_owned();
                r.append(v.as_str());
                r
            },
            Error::MissingTitle => "missing title".to_owned(),
            Error::Transport(v) => {
                let mut r = "transport: ".to_owned();
                r.append(v.as_str());
                r
            },
            Error::UnknownDomain(v) => {
                let mut r = "unknown domain: ".to_owned();
                r.append(v.as_str());
                r
            },
        }
    }
}

} // verus!
