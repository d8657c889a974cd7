//! Descriptions of tables and of what is to become of them and their columns.

use vstd::prelude::*;

verus! {

/// What is to become of a table.
#[derive(Clone, Debug)]
pub enum TableDDLOp {
    Keep,
    Drop,
    DropAll,
    Undrop,
    Rename(String),
}

/// What is to become of a column.
#[derive(Clone, Debug)]
pub enum DDLOp {
    Keep,
    Drop,
    Rename(String),
}

/// One column of a table.
#[derive(Clone, Debug)]
pub struct FieldDDL {
    pub name: String,
    pub opt: bool,
    pub ty: String,
    pub op: DDLOp,
}

/// A table with its columns.
#[derive(Debug)]
pub struct TableDDL {
    pub name: String,
    pub cols: Vec<FieldDDL>,
    pub op: TableDDLOp,
}

} // verus!
