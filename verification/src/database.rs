//! Plain data model of the relational-database layer: the table and column
//! shapes a driver reports, and the error it surfaces.

pub mod drivers;
pub mod schema;

use vstd::prelude::*;

verus! {

/// An error reported by the database, carrying the driver's message.
#[derive(Debug)]
pub struct DatabaseError {
    pub source_message: String,
}

/// A table as reported by a driver: its name and its columns.
#[derive(Debug)]
pub struct Table {
    pub name: String,
    pub columns: Vec<Column>,
}

/// One column of a reported table.
#[derive(Debug)]
pub struct Column {
    pub name: String,
    pub column_type: ColumnType,
}

/// The data types a reported column can carry.
#[derive(Clone, Copy, Debug, PartialEq, Eq, Structural)]
pub enum ColumnType {
    Str,
    Integer,
}

} // verus!
