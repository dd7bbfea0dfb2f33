//! DDL for MySQL, where a flattened column stands for the columns of the
//! table it refers to.

use vstd::prelude::*;
use crate::ddl::{column_def, column_definition, create_table, create_table_statement, decimal, push_decimal, texts};
use crate::info::{ColumnInfo, ColumnType, TableInfo};
use crate::sqlite::{default_clause, gen_default_clause};
use crate::strings::{append_str, owned};

verus! {

/// The MySQL type of a column type; strings and binary data up to 65535
/// long have bounded types, longer ones the long types.
pub open spec fn mysql_type(t: ColumnType) -> Seq<char> {
    match t {
        ColumnType::Bool | ColumnType::I8 | ColumnType::U8 => "TINYINT"@,
        ColumnType::I16 | ColumnType::U16 => "SMALLINT"@,
        ColumnType::I32 | ColumnType::U32 => "INTEGER"@,
        ColumnType::I64 | ColumnType::U64 => "BIGINT"@,
        ColumnType::F32 => "FLOAT"@,
        ColumnType::F64 => "DOUBLE"@,
        ColumnType::Str(len) => if len <= 65535 {
            "VARCHAR("@ + decimal(len as nat) + ")"@
        } else {
            "LONGTEXT"@
        },
        ColumnType::Bytes(len) => if len <= 65535 {
            "BLOB"@
        } else {
            "LONGBLOB"@
        },
    }
}

/// The MySQL definition of a column that is not flattened.
pub open spec fn mysql_column(c: ColumnInfo) -> Seq<char> {
    column_def(
        c.name@,
        mysql_type(c.ty),
        c.is_primary_key,
        "AUTO_INCREMENT"@,
        c.is_auto_increment,
        c.is_not_null,
        default_clause(c.default),
        c.is_unique,
    )
}

/// The column definitions of a list of columns, a flattened column giving
/// those of its table in its place.
pub open spec fn mysql_columns(cols: Seq<ColumnInfo>) -> Seq<Seq<char>>
    decreases cols,
{
    if cols.len() == 0 {
        Seq::empty()
    } else {
        let rest = mysql_columns(cols.subrange(0, cols.len() - 1));
        let c = cols[cols.len() - 1];
        match c.flatten_ref {
            Some(t) => {
                proof {
                    assert(decreases_to!(cols => cols[cols.len() - 1]));
                }
                rest + mysql_columns(t.columns@)
            },
            None => rest.push(mysql_column(c)),
        }
    }
}

/// The MySQL type of a column type.
pub fn column_type_to_mysql_type(col: &ColumnType) -> (r: String)
    ensures
        r@ == mysql_type(*col),
{
    match col {
        ColumnType::Bool | ColumnType::I8 | ColumnType::U8 => owned("TINYINT"),
        ColumnType::I16 | ColumnType::U16 => owned("SMALLINT"),
        ColumnType::I32 | ColumnType::U32 => owned("INTEGER"),
        ColumnType::I64 | ColumnType::U64 => owned("BIGINT"),
        ColumnType::F32 => owned("FLOAT"),
        ColumnType::F64 => owned("DOUBLE"),
        ColumnType::Str(len) => if *len <= 65535 {
            let mut s = owned("VARCHAR(");
            push_decimal(&mut s, *len);
            append_str(&mut s, ")");
            s
        } else {
            owned("LONGTEXT")
        },
        ColumnType::Bytes(len) => if *len <= 65535 {
            owned("BLOB")
        } else {
            owned("LONGBLOB")
        },
    }
}

/// The column definitions of `infos`, those of a flattened column's table
/// standing in its place.
pub fn gen_cols(infos: &Vec<ColumnInfo>) -> (r: Vec<String>)
    ensures
        texts(r@) == mysql_columns(infos@),
    decreases infos@,
{
    let mut cols: Vec<String> = Vec::new();
    let mut i: usize = 0;
    while i < infos.len()
        invariant
            i <= infos@.len(),
            texts(cols@) == mysql_columns(infos@.subrange(0, i as int)),
        decreases infos@.len() - i,
    {
        let ghost prev = cols@;
        let ghost next = infos@.subrange(0, i + 1);
        assert(next.subrange(0, i as int) =~= infos@.subrange(0, i as int));
        assert(next[i as int] == infos@[i as int]);
        let info = &infos[i];
        match &info.flatten_ref {
            Some(t) => {
                proof {
                    assert(decreases_to!(infos@ => infos@[i as int]));
                }
                let sub = gen_cols(&t.columns);
                let mut k: usize = 0;
                while k < sub.len()
                    invariant
                        k <= sub@.len(),
                        texts(cols@) == texts(prev) + texts(sub@.subrange(0, k as int)),
                    decreases sub@.len() - k,
                {
                    let ghost before = cols@;
                    cols.push(sub[k].clone());
                    assert(texts(cols@) =~= texts(before).push(sub@[k as int]@));
                    assert(texts(sub@.subrange(0, k + 1)) =~= texts(sub@.subrange(0, k as int)).push(sub@[k as int]@));
                    assert(texts(cols@) =~= texts(prev) + texts(sub@.subrange(0, k + 1)));
                    k = k + 1;
                }
                assert(sub@.subrange(0, k as int) =~= sub@);
            },
            None => {
                let ty = column_type_to_mysql_type(&info.ty);
                let default = gen_default_clause(&info.default);
                let def = column_definition(
                    info.name.as_str(),
                    ty.as_str(),
                    info.is_primary_key,
                    "AUTO_INCREMENT",
                    info.is_auto_increment,
                    info.is_not_null,
                    default.as_str(),
                    info.is_unique,
                );
                cols.push(def);
                assert(texts(cols@) =~= texts(prev).push(mysql_column(*info)));
            },
        }
        i = i + 1;
    }
    assert(infos@.subrange(0, i as int) =~= infos@);
    cols
}

/// The statement that creates a table on MySQL.
pub fn gen_create_table(info: &TableInfo) -> (r: String)
    ensures
        r@ == create_table(info.name@, mysql_columns(info.columns@)),
{
    let cols = gen_cols(&info.columns);
    create_table_statement(info.name.as_str(), &cols)
}

} // verus!
