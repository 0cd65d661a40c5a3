//! A uniform, walkable node tree for JavaScript and TypeScript syntax.
//!
//! The parser's typed tree is received as [`syntax`] values; [`convert`] maps it
//! into the closed [`node::Node`] model, with byte spans and 1-based line
//! numbers taken from a [`lines::LineIndex`]; [`walk::WalkIterator`] then visits the
//! result level by level, and [`text`] slices source text by byte span.
//! [`comments`] scans a source for its comments, and [`parsed`] puts a parse's
//! tree, diagnostics and comments together.
use vstd::prelude::*;

pub mod span;
pub mod text;
pub mod lines;
pub mod comments;
pub mod node;
pub mod syntax;
pub mod convert;
pub mod walk;
pub mod parsed;
