//! Converts an HTML document into Markdown text.
//!
//! The HTML is parsed by html5ever into an rcdom tree, which the library reads
//! through a few trusted items in `dom`. Everything after that, the handler
//! registry, the traversal and every element handler, is verified against the
//! rendering model in `model`; `laws` states what follows from it.

pub mod text;
pub mod dom;
pub mod style;
pub mod model;
pub mod converter;
pub mod blocks;
pub mod formatting;
pub mod headers;
pub mod lists;
pub mod laws;

pub use converter::{convert_to_markdown, MarkdownConverter};
