//! Syntax-tree extraction: classify source files by extension, parse them with
//! tree-sitter grammars and render each tree as a compact JSON document.

pub mod cli_types;
pub mod config;
pub mod encoding;
pub mod encodings;
pub mod error;
pub mod json;
pub mod languages;
pub mod output;
pub mod parser_pool;
pub mod parsing;
pub mod walk;
