//! Renders the public interface of a Rust project as two Markdown documents:
//! a compact index and a complete reference.
//!
//! A front end parses the project's files into the types of [`syntax`].
//! [`types`], [`signature`], [`attributes`] and [`declarations`] say what
//! text each part of a declaration becomes, [`visitors`] walk a file and
//! collect that text, and [`generator`] assembles the documents with the
//! metadata that [`project_info`] reads from the project's manifest.
//! Every function's contract gives its result as a function of its input;
//! the time of generation alone comes from the clock.

pub mod attributes;
pub mod declarations;
pub mod generator;
pub mod manifest;
pub mod project_info;
pub mod signature;
pub mod syntax;
pub mod text;
pub mod types;
pub mod visitors;
