//! DDL for the embedded SQLite engine.

use vstd::prelude::*;
use crate::ddl::{column_def, column_definition, create_table, create_table_statement, texts};
use crate::info::{ColumnInfo, ColumnType, TableInfo};
use crate::strings::{append_str, owned};

verus! {

/// The SQLite storage class of a column type.
pub open spec fn sqlite_type(t: ColumnType) -> Seq<char> {
    match t {
        ColumnType::F32 | ColumnType::F64 => "REAL"@,
        ColumnType::Str(_) => "TEXT"@,
        ColumnType::Bytes(_) => "BLOB"@,
        _ => "INTEGER"@,
    }
}

/// `DEFAULT d` for a default `d`, nothing without one.
pub open spec fn default_clause(d: Option<String>) -> Seq<char> {
    match d {
        Some(s) => "DEFAULT "@ + s@,
        None => Seq::empty(),
    }
}

/// The SQLite definition of a column.
pub open spec fn sqlite_column(c: ColumnInfo) -> Seq<char> {
    column_def(
        c.name@,
        sqlite_type(c.ty),
        c.is_primary_key,
        "AUTOINCREMENT"@,
        c.is_auto_increment,
        c.is_not_null,
        default_clause(c.default),
        c.is_unique,
    )
}

/// The SQLite storage class of a column type.
pub fn column_type_to_sqlite_type(col: &ColumnType) -> (r: String)
    ensures
        r@ == sqlite_type(*col),
{
    match col {
        ColumnType::F32 | ColumnType::F64 => owned("REAL"),
        ColumnType::Str(_) => owned("TEXT"),
        ColumnType::Bytes(_) => owned("BLOB"),
        _ => owned("INTEGER"),
    }
}

/// `DEFAULT d` for a default `d`, nothing without one.
pub fn gen_default_clause(d: &Option<String>) -> (r: String)
    ensures
        r@ == default_clause(*d),
{
    let mut s = String::new();
    match d {
        Some(v) => {
            append_str(&mut s, "DEFAULT ");
            append_str(&mut s, v.as_str());
        },
        None => {},
    }
    s
}

/// The statement that creates a table on SQLite, one definition per column.
pub fn gen_create_table(info: &TableInfo) -> (r: String)
    ensures
        r@ == create_table(info.name@, info.columns@.map_values(|c: ColumnInfo| sqlite_column(c))),
{
    let mut cols: Vec<String> = Vec::new();
    let mut i: usize = 0;
    while i < info.columns.len()
        invariant
            i <= info.columns@.len(),
            cols@.len() == i,
            forall|j: int| 0 <= j < i ==> (#[trigger] cols@[j])@ == sqlite_column(info.columns@[j]),
        decreases info.columns@.len() - i,
    {
        let c = &info.columns[i];
        let ty = column_type_to_sqlite_type(&c.ty);
        let default = gen_default_clause(&c.default);
        let def = column_definition(
            c.name.as_str(),
            ty.as_str(),
            c.is_primary_key,
            "AUTOINCREMENT",
            c.is_auto_increment,
            c.is_not_null,
            default.as_str(),
            c.is_unique,
        );
        cols.push(def);
        i = i + 1;
    }
    assert(texts(cols@) =~= info.columns@.map_values(|c: ColumnInfo| sqlite_column(c)));
    create_table_statement(info.name.as_str(), &cols)
}

} // verus!
