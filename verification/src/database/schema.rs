//! Declarative schema model: what a database, a schema, a table and a
//! column should look like, together with the actions that would bring the
//! live database in line.

use std::collections::HashMap;
use vstd::prelude::*;

verus! {

/// An action to perform on a database object during a migration.
#[derive(Debug)]
enum DbAction {
    Create,
    Drop,
    NoAction,
}

/// A database under management: its name, its connection string and its
/// schemas by name.
#[derive(Debug)]
pub struct Database {
    name: String,
    connection: String,
    schema: HashMap<String, Schema>,
}

/// One schema: its tables by name, and the tables present in the live
/// database but absent from the declaration.
#[derive(Debug)]
pub struct Schema {
    name: String,
    tables: HashMap<String, Table>,
    unrefed_tables: HashMap<String, Table>,
}

/// One declared table with the actions planned around it.
#[derive(Debug)]
pub struct Table {
    name: String,
    pre_action: DbAction,
    post_action: DbAction,
    tables: HashMap<String, Column>,
}

/// One declared column with the actions planned around it.
#[derive(Debug)]
pub struct Column {
    name: String,
    pre_action: DbAction,
    post_action: DbAction,
    data_type: String,
}

} // verus!
