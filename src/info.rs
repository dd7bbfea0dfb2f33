//! Table metadata that entities supply when their storage is initialized.

use vstd::prelude::*;

verus! {

/// A table: its name, columns and indexes.
#[derive(Debug)]
pub struct TableInfo {
    pub name: String,
    pub columns: Vec<ColumnInfo>,
    pub indexes: Vec<IndexInfo>,
}

/// A column of a table.
#[derive(Debug)]
pub struct ColumnInfo {
    pub name: String,
    pub ty: ColumnType,
    pub is_primary_key: bool,
    pub is_not_null: bool,
    pub is_auto_increment: bool,
    /// The default as an SQL literal: a number as `n`, a string as `'n'`.
    pub default: Option<String>,
    pub is_unique: bool,
    /// The table whose columns this column stands for, when it is flattened.
    pub flatten_ref: Option<Box<TableInfo>>,
}

/// The type of a column.
#[derive(Debug, Clone, Copy, PartialEq, Eq, Structural)]
pub enum ColumnType {
    Bool,
    I8,
    U8,
    I16,
    U16,
    I32,
    U32,
    I64,
    U64,
    F32,
    F64,
    /// A string of at most this many characters.
    Str(usize),
    /// Binary data of at most this many bytes.
    Bytes(usize),
}

/// An index: its name and its key columns, in order.
#[derive(Debug)]
pub struct IndexInfo {
    pub name: String,
    pub keys: Vec<IndexKeyInfo>,
}

/// One key column of an index.
#[derive(Debug)]
pub struct IndexKeyInfo {
    pub column_name: String,
}

} // verus!
