//! The declaration sub-language's syntax-tree model.  The textual parser
//! that produces these nodes is a front end outside this library.

pub mod data_lang_parser;
