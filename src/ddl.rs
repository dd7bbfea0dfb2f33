//! Text of the DDL statements that create a table and its indexes on a
//! relational engine.

use vstd::prelude::*;
use crate::info::IndexInfo;
use crate::strings::{append_str, push_char};

verus! {

/// `word` when `on` holds, else nothing.
pub open spec fn flag(on: bool, word: Seq<char>) -> Seq<char> {
    if on {
        word
    } else {
        Seq::empty()
    }
}

/// `parts` with `sep` between each two of them.
pub open spec fn joined(parts: Seq<Seq<char>>, sep: Seq<char>) -> Seq<char>
    decreases parts.len(),
{
    if parts.len() == 0 {
        Seq::empty()
    } else if parts.len() == 1 {
        parts[0]
    } else {
        joined(parts.drop_last(), sep) + sep + parts.last()
    }
}

/// The text of each string.
pub open spec fn texts(v: Seq<String>) -> Seq<Seq<char>> {
    v.map_values(|s: String| s@)
}

/// A decimal digit.
pub open spec fn digit_char(d: nat) -> char {
    (48 + d) as char
}

/// The decimal text of `n`.
pub open spec fn decimal(n: nat) -> Seq<char>
    decreases n,
{
    if n < 10 {
        seq![digit_char(n)]
    } else {
        decimal(n / 10).push(digit_char(n % 10))
    }
}

/// The definition of one column: its name, type and constraints, separated
/// by single spaces, an absent constraint leaving its place empty.
pub open spec fn column_def(
    name: Seq<char>,
    ty: Seq<char>,
    primary_key: bool,
    auto_increment_word: Seq<char>,
    auto_increment: bool,
    not_null: bool,
    default: Seq<char>,
    unique: bool,
) -> Seq<char> {
    name + " "@ + ty + " "@ + flag(primary_key, "PRIMARY KEY"@) + " "@ + flag(
        auto_increment,
        auto_increment_word,
    ) + " "@ + flag(not_null, "NOT NULL"@) + " "@ + default + " "@ + flag(unique, "UNIQUE"@)
}

/// The statement that creates a table from its column definitions.
pub open spec fn create_table(name: Seq<char>, cols: Seq<Seq<char>>) -> Seq<char> {
    "CREATE TABLE IF NOT EXISTS "@ + name + " ("@ + joined(cols, ", "@) + ")"@
}

/// The statement that creates an index of a table.
pub open spec fn create_index(table: Seq<char>, index: IndexInfo) -> Seq<char> {
    "CREATE INDEX IF NOT EXISTS "@ + index.name@ + " ON "@ + table + " ("@ + joined(
        index.keys@.map_values(|k: crate::info::IndexKeyInfo| k.column_name@),
        ", "@,
    ) + ")"@
}

/// Joins `parts` with `sep`.
pub fn join(parts: &Vec<String>, sep: &str) -> (r: String)
    ensures
        r@ == joined(texts(parts@), sep@),
{
    let mut out = String::new();
    let mut i: usize = 0;
    while i < parts.len()
        invariant
            i <= parts@.len(),
            out@ == joined(texts(parts@.subrange(0, i as int)), sep@),
        decreases parts@.len() - i,
    {
        let ghost prev = texts(parts@.subrange(0, i as int));
        let ghost next = texts(parts@.subrange(0, i + 1));
        assert(next.drop_last() =~= prev);
        if i > 0 {
            append_str(&mut out, sep);
        }
        append_str(&mut out, parts[i].as_str());
        assert(out@ =~= joined(next, sep@));
        i = i + 1;
    }
    assert(parts@.subrange(0, i as int) =~= parts@);
    out
}

/// Appends the decimal text of `n`.
pub fn push_decimal(s: &mut String, n: usize)
    ensures
        final(s)@ == old(s)@ + decimal(n as nat),
    decreases n,
{
    if n >= 10 {
        push_decimal(s, n / 10);
    }
    push_char(s, ((48 + n % 10) as u8) as char);
    assert(final(s)@ =~= old(s)@ + decimal(n as nat));
}

/// The definition of one column.
pub fn column_definition(
    name: &str,
    ty: &str,
    primary_key: bool,
    auto_increment_word: &str,
    auto_increment: bool,
    not_null: bool,
    default: &str,
    unique: bool,
) -> (r: String)
    ensures
        r@ == column_def(name@, ty@, primary_key, auto_increment_word@, auto_increment, not_null, default@, unique),
{
    let mut s = String::new();
    append_str(&mut s, name);
    append_str(&mut s, " ");
    append_str(&mut s, ty);
    append_str(&mut s, " ");
    if primary_key {
        append_str(&mut s, "PRIMARY KEY");
    }
    append_str(&mut s, " ");
    if auto_increment {
        append_str(&mut s, auto_increment_word);
    }
    append_str(&mut s, " ");
    if not_null {
        append_str(&mut s, "NOT NULL");
    }
    append_str(&mut s, " ");
    append_str(&mut s, default);
    append_str(&mut s, " ");
    if unique {
        append_str(&mut s, "UNIQUE");
    }
    assert(s@ =~= column_def(name@, ty@, primary_key, auto_increment_word@, auto_increment, not_null, default@, unique));
    s
}

/// The statement that creates table `name` with the given column definitions.
pub fn create_table_statement(name: &str, cols: &Vec<String>) -> (r: String)
    ensures
        r@ == create_table(name@, texts(cols@)),
{
    let mut s = String::new();
    append_str(&mut s, "CREATE TABLE IF NOT EXISTS ");
    append_str(&mut s, name);
    append_str(&mut s, " (");
    let body = join(cols, ", ");
    append_str(&mut s, body.as_str());
    append_str(&mut s, ")");
    assert(s@ =~= create_table(name@, texts(cols@)));
    s
}

/// The statement that creates an index of `table_name`; it is the same on
/// every relational engine.
pub fn gen_create_index(table_name: &str, index_info: &IndexInfo) -> (r: String)
    ensures
        r@ == create_index(table_name@, *index_info),
{
    let mut cols: Vec<String> = Vec::new();
    let mut i: usize = 0;
    while i < index_info.keys.len()
        invariant
            i <= index_info.keys@.len(),
            cols@.len() == i,
            texts(cols@) == index_info.keys@.subrange(0, i as int).map_values(
                |k: crate::info::IndexKeyInfo| k.column_name@,
            ),
        decreases index_info.keys@.len() - i,
    {
        let ghost prev = cols@;
        cols.push(index_info.keys[i].column_name.clone());
        let ghost want = index_info.keys@.subrange(0, i + 1).map_values(
            |k: crate::info::IndexKeyInfo| k.column_name@,
        );
        assert forall|j: int| 0 <= j < i + 1 implies texts(cols@)[j] == want[j] by {
            if j < i {
                assert(cols@[j] == prev[j]);
                assert(texts(prev)[j] == index_info.keys@.subrange(0, i as int).map_values(
                    |k: crate::info::IndexKeyInfo| k.column_name@,
                )[j]);
            }
        }
        assert(texts(cols@) =~= want);
        i = i + 1;
    }
    assert(index_info.keys@.subrange(0, i as int) =~= index_info.keys@);
    let mut s = String::new();
    append_str(&mut s, "CREATE INDEX IF NOT EXISTS ");
    append_str(&mut s, index_info.name.as_str());
    append_str(&mut s, " ON ");
    append_str(&mut s, table_name);
    append_str(&mut s, " (");
    let body = join(&cols, ", ");
    append_str(&mut s, body.as_str());
    append_str(&mut s, ")");
    assert(s@ =~= create_index(table_name@, *index_info));
    s
}

} // verus!
