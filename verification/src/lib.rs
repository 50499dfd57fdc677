//! Language-tooling core for a Forth-family source language: a character-level
//! scanner that turns source text into classified, positioned tokens, and a
//! cross-file definition/reference index answering "where is X defined" and
//! "where is X used" queries, incrementally per file and case-insensitively.
//!
//! The scanner ([`parser`]) is total: any input yields a finite token
//! sequence, verified against the scanning model in [`scan`]. The index
//! ([`definition_index`]) maintains, per tracked file, the word definitions
//! and references the file's most recent text contributes; the laws it obeys
//! are stated and proved in [`laws`].

pub mod chars;
pub mod config;
pub mod definition_helpers;
pub mod definition_index;
pub mod find_variant_sublists;
pub mod find_variant_sublists_from_to;
pub mod formatter;
pub mod hints;
pub mod laws;
pub mod parser;
pub mod position;
pub mod scan;
pub mod strings;
pub mod suggestions;
pub mod text;
pub mod token;
pub mod token_utils;
pub mod word_lookup;
pub mod words;
