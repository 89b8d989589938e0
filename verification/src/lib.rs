//! A library for retrieving long-form text documents published across several
//! unrelated websites and normalizing them into a uniform document record.
//!
//! The core of the library is the lazy, possibly paginated directory iterator
//! (`adapter::DirectoryUrls`) together with the source-adapter abstraction
//! (`adapter::Adapter`): a single driver loop can traverse arbitrarily many
//! site-specific listing formats without knowing anything about HTML
//! structure, pagination protocol, or metadata extraction rules.

pub mod adapter;
pub mod document;
pub mod download;
pub mod error;
pub mod html;
pub mod pattern;
pub mod registry;
pub mod text;
pub mod transport;
