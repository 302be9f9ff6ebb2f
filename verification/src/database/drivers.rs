//! Database drivers.  Only the connection-string and column-type logic is
//! here; issuing queries over a live connection is the embedding
//! application's business.

pub mod postgres;
