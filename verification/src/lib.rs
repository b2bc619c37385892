//! Cross-posts a locally authored Markdown blog post (YAML front-matter plus
//! body) to several blogging platforms.  The library holds the verified core:
//! document parsing, per-platform matching of existing remote articles,
//! payload mapping, and the create-versus-update decision.  Network transport
//! lives outside the library.

use vstd::prelude::*;

pub mod devto;
pub mod github_pages;
pub mod hashnode;
mod jsonval;
pub mod medium;
pub mod post;
pub mod scan;
pub mod settings;
pub mod strutil;
pub mod tumblr;
mod yaml;

verus! {

/// Error taxonomy shared by the whole library.
#[derive(Clone, Debug)]
pub enum Error {
    /// A path does not match the expected date-prefixed pattern.
    BadPath { expected: String, found: String },
    /// Embedded text (YAML, JSON, HTML metadata) could not be interpreted.
    BadString { expected: String, found: String },
    /// An expected key or resource is absent.
    NotFound { expected: String },
    /// A document section (front-matter or body) is missing.
    BadFormat { thing: String },
}

} // verus!
