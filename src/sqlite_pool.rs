//! DDL for SQLite behind a connection pool, where a column's default is
//! written as given, without a `DEFAULT` keyword.

use vstd::prelude::*;
use crate::ddl::{column_def, column_definition, create_table, create_table_statement, texts};
use crate::info::{ColumnInfo, TableInfo};
use crate::sqlite::{column_type_to_sqlite_type, sqlite_type};

verus! {

/// The default text of a column, nothing without one.
pub open spec fn raw_default(d: Option<String>) -> Seq<char> {
    match d {
        Some(s) => s@,
        None => Seq::empty(),
    }
}

/// The definition of a column on a pooled SQLite connection.
pub open spec fn pooled_column(c: ColumnInfo) -> Seq<char> {
    column_def(
        c.name@,
        sqlite_type(c.ty),
        c.is_primary_key,
        "AUTOINCREMENT"@,
        c.is_auto_increment,
        c.is_not_null,
        raw_default(c.default),
        c.is_unique,
    )
}

/// The statement that creates a table on a pooled SQLite connection.
pub fn gen_create_table(info: &TableInfo) -> (r: String)
    ensures
        r@ == create_table(info.name@, info.columns@.map_values(|c: ColumnInfo| pooled_column(c))),
{
    let mut cols: Vec<String> = Vec::new();
    let mut i: usize = 0;
    while i < info.columns.len()
        invariant
            i <= info.columns@.len(),
            cols@.len() == i,
            forall|j: int| 0 <= j < i ==> (#[trigger] cols@[j])@ == pooled_column(info.columns@[j]),
        decreases info.columns@.len() - i,
    {
        let c = &info.columns[i];
        let ty = column_type_to_sqlite_type(&c.ty);
        let empty = String::new();
        let default = match &c.default {
            Some(d) => d,
            None => &empty,
        };
        let def = column_definition(
            c.name.as_str(),
            ty.as_str(),
            c.is_primary_key,
            "AUTOINCREMENT",
            c.is_auto_increment,
            c.is_not_null,
            default.as_str(),
            c.is_unique,
        );
        cols.push(def);
        i = i + 1;
    }
    assert(texts(cols@) =~= info.columns@.map_values(|c: ColumnInfo| pooled_column(c)));
    create_table_statement(info.name.as_str(), &cols)
}

} // verus!
