//! Core of a small embedded expression language: an arena-based expression
//! tree, a registry of possibly overloaded function definitions, and a
//! recursive evaluator that dispatches applications first to a fixed table of
//! built-in operations and then to the registry.

pub mod database;
pub mod lang;
pub mod util;
