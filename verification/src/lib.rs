//! A short-circuiting tree-search engine over the syntax tree of a hardware
//! description language, together with the two queries built on it: looking
//! up the declaration referenced or declared at a cursor position, and
//! collecting every occurrence of one declaration.

pub mod ast;
pub mod search;
pub mod walk;
pub mod cursor;
pub mod refs;
