//! Analysis core of a language server for a TeX-like typesetting language and
//! its companion bibliography format.
//!
//! Given an immutable parsed snapshot of every document in a project and a
//! cursor position inside one of them, the library classifies the symbol under
//! the cursor, resolves its definition, enumerates its occurrences across the
//! project's document graph, and computes a consistent set of rename edits.
//! Traversals poll a cooperative cancellation token and, when aborted, leave a
//! prefix-consistent partial result behind.

pub mod bibtex;
pub mod cancel;
pub mod config;
pub mod cursor;
pub mod document;
pub mod forward_search;
pub mod hover;
pub mod latex;
pub mod placeholder;
pub mod reference;
pub mod rename;
pub mod text;
