//! The outbound HTTP abstraction the adapters consume.
//!
//! The library performs no network I/O of its own: every adapter is generic
//! over a [`Transport`], a single GET-style request operation supplied by
//! the surrounding program. Nothing is assumed about what a transport
//! returns — every adapter contract holds for every possible response.

use vstd::prelude::*;
use crate::error::Error;

verus! {

/// The fixed client-identity string every request is sent under.
pub const USER_AGENT: &'static str = "Mozilla/5.0 (X11; Ubuntu; Linux x86_64; rv:93.0) Gecko/20100101 Firefox/93.0";

/// A single outbound GET-style request: retrieve the page at `url` as text,
/// or report a transport failure. Blocking and synchronous; the call happens
/// inline on the consumer's thread.
pub trait Transport {
    fn get(&self, url: &str) -> Result<String, Error>;
}

} // verus!
