//! Lexical front end for a small source-syntax grammar: recognizing bare
//! identifiers and an optional `pub` visibility qualifier, and re-emitting a
//! recognized identifier as a single token for a downstream quoting stage.

pub mod common;
pub mod parsing;
pub mod printing;
