//! The embedded expression language: its evaluator core and the plain data
//! model of the declaration sub-language.

pub mod data_lang;
pub mod eval;
