//! Writing records of the key-value backend: INSERT builds one record per
//! parameter list, DELETE removes the records its WHERE clause selects,
//! UPDATE overwrites fields of them.

use vstd::prelude::*;
use crate::assoc::assoc_map;
use crate::error::{Error, ErrorKind, Outcome, Result};
use crate::eval::{literal_json, require_index_from_json_value, sql_parser_and_param_value_to_json};
use crate::json::{JsonObject, JsonValue, copy_json};
use crate::keys::{gen_fcss_key, key_of};
use crate::registry::TableRegistry;
use crate::select::{factor_table, require_table_name_from_table_factor};
use crate::sql::{Assignment, InsertSource, SqlExpr, Statement};
use crate::strings::owned;
use crate::value::Value;

verus! {

/// What a write statement does, once its syntax is checked and its table
/// found.
#[derive(Debug)]
pub enum ExecutePlan {
    Insert { table: String, index_col: String, columns: Vec<String>, source: InsertSource },
    Delete { table: String, index_col: String, selection: Option<SqlExpr> },
    Update {
        table: String,
        index_col: String,
        assignments: Vec<Assignment>,
        selection: Option<SqlExpr>,
    },
}

/// The table that a write statement changes, when every clause of it is
/// supported: a plain `INSERT INTO`, a DELETE without USING or RETURNING, an
/// UPDATE without FROM or RETURNING, each on a plain table name.
pub open spec fn write_table(stmt: Statement) -> Option<Seq<char>> {
    match stmt {
        Statement::Insert {
            has_or,
            into,
            table_name,
            overwrite,
            has_partitioned,
            has_after_columns,
            table,
            has_on,
            has_returning,
            ..
        } => if has_or || !into || overwrite || has_partitioned || has_after_columns || table
            || has_on || has_returning {
            None
        } else {
            Some(table_name@)
        },
        Statement::Delete { table_name, has_using, has_returning, .. } => if has_using
            || has_returning {
            None
        } else {
            factor_table(table_name)
        },
        Statement::Update { table, has_from, has_returning, .. } => if has_from || has_returning {
            None
        } else {
            factor_table(table)
        },
        _ => None,
    }
}

impl ExecutePlan {
    pub open spec fn table_name(&self) -> Seq<char> {
        match self {
            ExecutePlan::Insert { table, .. } => table@,
            ExecutePlan::Delete { table, .. } => table@,
            ExecutePlan::Update { table, .. } => table@,
        }
    }

    pub open spec fn index_name(&self) -> Seq<char> {
        match self {
            ExecutePlan::Insert { index_col, .. } => index_col@,
            ExecutePlan::Delete { index_col, .. } => index_col@,
            ExecutePlan::Update { index_col, .. } => index_col@,
        }
    }

    /// The plan keeps the parts of the statement it was made from.
    pub open spec fn carries(&self, stmt: Statement) -> bool {
        match (self, stmt) {
            (
                ExecutePlan::Insert { columns: c1, source: s1, .. },
                Statement::Insert { columns: c2, source: s2, .. },
            ) => c1 == c2 && s1 == s2,
            (
                ExecutePlan::Delete { selection: w1, .. },
                Statement::Delete { selection: w2, .. },
            ) => w1 == w2,
            (
                ExecutePlan::Update { assignments: a1, selection: w1, .. },
                Statement::Update { assignments: a2, selection: w2, .. },
            ) => a1 == a2 && w1 == w2,
            _ => false,
        }
    }
}

/// Checks a write statement and finds the index column of its table. An
/// unsupported statement or clause is an Argument error, checked before the
/// registry is read; a table that was never registered is a Database error.
pub fn plan_execute(registry: &TableRegistry, stmt: Statement) -> (r: Result<ExecutePlan>)
    ensures
        write_table(stmt) is None ==> r is Err && r->Err_0.kind() == ErrorKind::Argument,
        write_table(stmt) is Some && registry.index_of(write_table(stmt)->0) is None ==> r is Err
            && r->Err_0.kind() == ErrorKind::Database,
        write_table(stmt) is Some && registry.index_of(write_table(stmt)->0) is Some ==> r is Ok,
        r is Ok ==> r->Ok_0.table_name() == write_table(stmt)->0 && r->Ok_0.index_name()
            == registry.index_of(write_table(stmt)->0)->0 && r->Ok_0.carries(stmt),
{
    match stmt {
        Statement::Insert {
            has_or,
            into,
            table_name,
            columns,
            overwrite,
            source,
            has_partitioned,
            has_after_columns,
            table,
            has_on,
            has_returning,
        } => {
            if has_or {
                return Err(Error::Argument(owned("INSERT OR is not supported")));
            }
            if !into {
                return Err(Error::Argument(owned("INSERT without INTO is not supported")));
            }
            if overwrite {
                return Err(Error::Argument(owned("INSERT OVERWRITE is not supported")));
            }
            if has_partitioned {
                return Err(Error::Argument(owned("PARTITION is not supported")));
            }
            if has_after_columns {
                return Err(Error::Argument(owned("columns after PARTITION are not supported")));
            }
            if table {
                return Err(Error::Argument(owned("INSERT TABLE is not supported")));
            }
            if has_on {
                return Err(Error::Argument(owned("ON CONFLICT is not supported")));
            }
            if has_returning {
                return Err(Error::Argument(owned("RETURNING is not supported")));
            }
            let index_col = registry.get_index_col(table_name.as_str())?;
            Ok(ExecutePlan::Insert { table: table_name, index_col, columns, source })
        },
        Statement::Delete { table_name, has_using, selection, has_returning } => {
            if has_using {
                return Err(Error::Argument(owned("USING is not supported")));
            }
            if has_returning {
                return Err(Error::Argument(owned("RETURNING is not supported")));
            }
            let table = require_table_name_from_table_factor(&table_name)?;
            let index_col = registry.get_index_col(table.as_str())?;
            Ok(ExecutePlan::Delete { table, index_col, selection })
        },
        Statement::Update { table, assignments, has_from, selection, has_returning } => {
            if has_from {
                return Err(Error::Argument(owned("UPDATE FROM is not supported")));
            }
            if has_returning {
                return Err(Error::Argument(owned("RETURNING is not supported")));
            }
            let table = require_table_name_from_table_factor(&table)?;
            let index_col = registry.get_index_col(table.as_str())?;
            Ok(ExecutePlan::Update { table, index_col, assignments, selection })
        },
        _ => Err(Error::Argument(owned("only INSERT, DELETE and UPDATE can be executed"))),
    }
}

/// The state after the column `col` of an INSERT, which takes the
/// expression at position `i` of the values row: the field map, the position
/// of the next parameter, and the text of the index column's value if it was
/// set. A literal stands for itself and `?` takes the next parameter.
pub open spec fn insert_step(
    col: Seq<char>,
    row: Seq<SqlExpr>,
    i: int,
    index: Seq<char>,
    params: Seq<Value>,
    st: (Map<Seq<char>, JsonValue>, nat, Option<Seq<char>>),
) -> Outcome<(Map<Seq<char>, JsonValue>, nat, Option<Seq<char>>)> {
    if i >= row.len() {
        Err(ErrorKind::Argument)
    } else {
        match row[i] {
            SqlExpr::Value(v) => {
                let (j, next) = literal_json(v, params, st.1);
                match j {
                    Err(k) => Err(k),
                    Ok(jv) => if col == index && !(jv is Str) {
                        Err(ErrorKind::Argument)
                    } else {
                        Ok(
                            (
                                st.0.insert(col, jv),
                                next,
                                if col == index {
                                    Some(jv->Str_0@)
                                } else {
                                    st.2
                                },
                            ),
                        )
                    },
                }
            },
            _ => Err(ErrorKind::Argument),
        }
    }
}

/// The state after the first `n` columns of an INSERT, each taking the
/// expression at its position in the values row.
pub open spec fn insert_fields(
    columns: Seq<String>,
    row: Seq<SqlExpr>,
    index: Seq<char>,
    params: Seq<Value>,
    n: nat,
) -> Outcome<(Map<Seq<char>, JsonValue>, nat, Option<Seq<char>>)>
    decreases n,
{
    if n == 0 {
        Ok((Map::empty(), 0, None))
    } else {
        match insert_fields(columns, row, index, params, (n - 1) as nat) {
            Err(k) => Err(k),
            Ok(st) => insert_step(columns[n - 1]@, row, n - 1, index, params, st),
        }
    }
}

/// The record that an INSERT stores for one parameter list, with its key.
/// The statement must have exactly one values row, and must set the index
/// column to a string; anything else is an Argument error.
pub open spec fn inserted(
    table: Seq<char>,
    index: Seq<char>,
    columns: Seq<String>,
    source: InsertSource,
    params: Seq<Value>,
) -> Outcome<(Seq<char>, Map<Seq<char>, JsonValue>)> {
    match source {
        InsertSource::Values(rows) => if rows@.len() != 1 {
            Err(ErrorKind::Argument)
        } else {
            match insert_fields(columns, rows@[0]@, index, params, columns.len()) {
                Err(k) => Err(k),
                Ok((m, _, idx)) => match idx {
                    None => Err(ErrorKind::Argument),
                    Some(i) => Ok((key_of(table, i), m)),
                },
            }
        },
        InsertSource::Other => Err(ErrorKind::Argument),
    }
}

/// The key and the record that an INSERT stores for one parameter list.
pub fn insert_record(
    table_name: &str,
    index_col: &str,
    columns: &Vec<String>,
    source: &InsertSource,
    params: &Vec<Value>,
) -> (r: Result<(String, JsonObject)>)
    ensures
        inserted(table_name@, index_col@, columns@, *source, params@) is Ok <==> r is Ok,
        r is Ok ==> r->Ok_0.0@ == inserted(table_name@, index_col@, columns@, *source, params@)->Ok_0.0
            && r->Ok_0.1.view_map() == inserted(table_name@, index_col@, columns@, *source, params@)->Ok_0.1,
        r is Err ==> r->Err_0.kind() == inserted(table_name@, index_col@, columns@, *source, params@)->Err_0,
{
    let rows = match source {
        InsertSource::Values(rows) => rows,
        InsertSource::Other => {
            return Err(Error::Argument(owned("INSERT expects VALUES")));
        },
    };
    if rows.len() != 1 {
        return Err(Error::Argument(owned("INSERT supports exactly one values row")));
    }
    let row = &rows[0];
    let mut record = JsonObject::new();
    let mut pos: usize = 0;
    let mut index_value: Option<String> = None;
    let mut i: usize = 0;
    while i < columns.len()
        invariant
            *source == InsertSource::Values(*rows),
            rows@.len() == 1,
            row == rows@[0],
            i <= columns@.len(),
            pos <= params@.len(),
            insert_fields(columns@, row@, index_col@, params@, i as nat) is Ok,
            ({
                let (m, p, idx) = insert_fields(columns@, row@, index_col@, params@, i as nat)->Ok_0;
                &&& record.view_map() == m
                &&& pos == p
                &&& (idx is Some <==> index_value is Some)
                &&& idx is Some ==> idx->0 == index_value->0@
            }),
        decreases columns@.len() - i,
    {
        let column = &columns[i];
        let ghost st = insert_fields(columns@, row@, index_col@, params@, i as nat)->Ok_0;
        assert(insert_fields(columns@, row@, index_col@, params@, i as nat + 1)
            == insert_step(columns@[i as int]@, row@, i as int, index_col@, params@, st));
        if i >= row.len() {
            proof { lemma_insert_fields_err(columns@, row@, index_col@, params@, i as nat + 1); }
            return Err(Error::Argument(owned("a column has no value in VALUES")));
        }
        match &row[i] {
            SqlExpr::Value(v) => {
                let j = sql_parser_and_param_value_to_json(v, params, &mut pos);
                match j {
                    Err(e) => {
                        proof { lemma_insert_fields_err(columns@, row@, index_col@, params@, i as nat + 1); }
                        return Err(e);
                    },
                    Ok(jv) => {
                        if crate::strings::eq_str(column.as_str(), index_col) {
                            match require_index_from_json_value(&jv) {
                                Ok(s) => {
                                    index_value = Some(s);
                                },
                                Err(e) => {
                                    proof { lemma_insert_fields_err(columns@, row@, index_col@, params@, i as nat + 1); }
                                    return Err(e);
                                },
                            }
                        }
                        record.insert(column.clone(), jv);
                    },
                }
            },
            _ => {
                proof { lemma_insert_fields_err(columns@, row@, index_col@, params@, i as nat + 1); }
                return Err(Error::Argument(owned("only literals and placeholders are supported in VALUES")));
            },
        }
        i = i + 1;
    }
    match index_value {
        Some(index) => {
            let key = gen_fcss_key(table_name, index.as_str());
            Ok((key, record))
        },
        None => Err(Error::Argument(owned("INSERT must set the index column"))),
    }
}

/// A failure on the first `n` columns is the failure of all of them.
proof fn lemma_insert_fields_err(
    columns: Seq<String>,
    row: Seq<SqlExpr>,
    index: Seq<char>,
    params: Seq<Value>,
    n: nat,
)
    requires
        n <= columns.len(),
        insert_fields(columns, row, index, params, n) is Err,
    ensures
        insert_fields(columns, row, index, params, columns.len()) == insert_fields(columns, row, index, params, n),
    decreases columns.len() - n,
{
    if n < columns.len() {
        lemma_insert_fields_err(columns, row, index, params, n + 1);
    }
}

/// The key of a record that a DELETE or UPDATE selected, from the value of
/// its index column: a record without one is a Runtime error, one whose value
/// is not a string an Argument error.
pub fn record_key(table_name: &str, index_col: &str, record: &JsonObject) -> (r: Result<String>)
    ensures
        !record.view_map().contains_key(index_col@) ==> r is Err && r->Err_0.kind() == ErrorKind::Runtime,
        record.view_map().contains_key(index_col@) && !(record.view_map()[index_col@] is Str) ==> r is Err
            && r->Err_0.kind() == ErrorKind::Argument,
        record.view_map().contains_key(index_col@) && record.view_map()[index_col@] is Str ==> r is Ok
            && r->Ok_0@ == key_of(table_name@, record.view_map()[index_col@]->Str_0@),
{
    match record.get(index_col) {
        None => Err(Error::Runtime(owned("a selected record has no index value"))),
        Some(v) => {
            let index = require_index_from_json_value(v)?;
            Ok(gen_fcss_key(table_name, index.as_str()))
        },
    }
}

/// The fields that the first `n` assignments of an UPDATE set, with the
/// position of the next parameter; each `?` takes the next parameter.
pub open spec fn set_fields(assigns: Seq<Assignment>, params: Seq<Value>, n: nat) -> Outcome<(Map<Seq<char>, JsonValue>, nat)>
    decreases n,
{
    if n == 0 {
        Ok((Map::empty(), 0))
    } else {
        match set_fields(assigns, params, (n - 1) as nat) {
            Err(k) => Err(k),
            Ok((m, pos)) => match assigns[n - 1].value {
                SqlExpr::Value(v) => {
                    let (j, next) = literal_json(v, params, pos);
                    match j {
                        Err(k) => Err(k),
                        Ok(jv) => Ok((m.insert(assigns[n - 1].column@, jv), next)),
                    }
                },
                _ => Err(ErrorKind::Argument),
            },
        }
    }
}

/// A failure on the first `n` assignments is the failure of all of them.
proof fn lemma_set_fields_err(assigns: Seq<Assignment>, params: Seq<Value>, n: nat)
    requires
        n <= assigns.len(),
        set_fields(assigns, params, n) is Err,
    ensures
        set_fields(assigns, params, assigns.len()) == set_fields(assigns, params, n),
    decreases assigns.len() - n,
{
    if n < assigns.len() {
        lemma_set_fields_err(assigns, params, n + 1);
    }
}

/// The fields that the SET clause of an UPDATE assigns, and how many
/// parameters it took; the rest of the parameters belong to the WHERE
/// clause. Only literals and placeholders can be assigned.
pub fn assignments_to_set_map(assignments: &Vec<Assignment>, params: &Vec<Value>) -> (r: Result<(JsonObject, usize)>)
    ensures
        set_fields(assignments@, params@, assignments@.len()) is Ok <==> r is Ok,
        r is Ok ==> r->Ok_0.0.view_map() == set_fields(assignments@, params@, assignments@.len())->Ok_0.0
            && r->Ok_0.1 as nat == set_fields(assignments@, params@, assignments@.len())->Ok_0.1
            && r->Ok_0.1 <= params@.len(),
        r is Err ==> r->Err_0.kind() == set_fields(assignments@, params@, assignments@.len())->Err_0,
{
    let mut set_map = JsonObject::new();
    let mut pos: usize = 0;
    let mut i: usize = 0;
    while i < assignments.len()
        invariant
            i <= assignments@.len(),
            pos <= params@.len(),
            set_fields(assignments@, params@, i as nat) is Ok,
            set_map.view_map() == set_fields(assignments@, params@, i as nat)->Ok_0.0,
            pos == set_fields(assignments@, params@, i as nat)->Ok_0.1,
        decreases assignments@.len() - i,
    {
        match &assignments[i].value {
            SqlExpr::Value(v) => {
                match sql_parser_and_param_value_to_json(v, params, &mut pos) {
                    Ok(jv) => {
                        set_map.insert(assignments[i].column.clone(), jv);
                    },
                    Err(e) => {
                        proof { lemma_set_fields_err(assignments@, params@, i as nat + 1); }
                        return Err(e);
                    },
                }
            },
            _ => {
                proof { lemma_set_fields_err(assignments@, params@, i as nat + 1); }
                return Err(Error::Argument(owned("only literals and placeholders can be assigned")));
            },
        }
        i = i + 1;
    }
    Ok((set_map, pos))
}

/// A selected record after an UPDATE, with the key it is stored under: the
/// key comes from the record's index value before the change, and every
/// field of `set_map` overwrites the record's field of that name.
pub fn updated_record(
    table_name: &str,
    index_col: &str,
    set_map: &JsonObject,
    record: JsonObject,
) -> (r: Result<(String, JsonObject)>)
    ensures
        !record.view_map().contains_key(index_col@) ==> r is Err && r->Err_0.kind() == ErrorKind::Runtime,
        record.view_map().contains_key(index_col@) && !(record.view_map()[index_col@] is Str) ==> r is Err
            && r->Err_0.kind() == ErrorKind::Argument,
        record.view_map().contains_key(index_col@) && record.view_map()[index_col@] is Str ==> r is Ok
            && r->Ok_0.0@ == key_of(table_name@, record.view_map()[index_col@]->Str_0@)
            && r->Ok_0.1.view_map() == record.view_map().union_prefer_right(set_map.view_map()),
{
    let key = record_key(table_name, index_col, &record)?;
    let mut row = record;
    let mut i: usize = 0;
    while i < set_map.entries.len()
        invariant
            i <= set_map.entries@.len(),
            row.view_map() == record.view_map().union_prefer_right(
                assoc_map(set_map.entries@.subrange(0, i as int)),
            ),
        decreases set_map.entries@.len() - i,
    {
        let ghost before = row.view_map();
        row.insert(set_map.entries[i].0.clone(), copy_json(&set_map.entries[i].1));
        let ghost next = set_map.entries@.subrange(0, i + 1);
        assert(next.drop_last() =~= set_map.entries@.subrange(0, i as int));
        assert(row.view_map() =~= record.view_map().union_prefer_right(assoc_map(next)));
        i = i + 1;
    }
    assert(set_map.entries@.subrange(0, i as int) =~= set_map.entries@);
    Ok((key, row))
}

/// The ids that a write returns for `n` parameter lists: the store cannot
/// make ids, so each is 0.
pub fn placeholder_ids(n: usize) -> (r: Vec<u64>)
    ensures
        r@.len() == n,
        forall|i: int| 0 <= i < n ==> r@[i] == 0,
{
    let mut ids: Vec<u64> = Vec::new();
    let mut i: usize = 0;
    while i < n
        invariant
            i <= n,
            ids@.len() == i,
            forall|j: int| 0 <= j < i ==> ids@[j] == 0,
        decreases n - i,
    {
        ids.push(0);
        i = i + 1;
    }
    ids
}

/// An INSERT of columns `(a, b)` with values `(?, ?)`, where `b` is the
/// index column, stores under the key of the second parameter, which must be
/// a string, a record whose `a` is the first parameter and whose `b` is the
/// second.
pub proof fn lemma_insert_two_placeholders(
    table: Seq<char>,
    a: String,
    b: String,
    source: InsertSource,
    v: Value,
    x: String,
)
    requires
        a@ != b@,
        source is Values,
        source->Values_0@.len() == 1,
        source->Values_0@[0]@.len() == 2,
        source->Values_0@[0]@[0] is Value && source->Values_0@[0]@[0]->Value_0 is Placeholder
            && crate::eval::is_positional(source->Values_0@[0]@[0]->Value_0->Placeholder_0@),
        source->Values_0@[0]@[1] is Value && source->Values_0@[0]@[1]->Value_0 is Placeholder
            && crate::eval::is_positional(source->Values_0@[0]@[1]->Value_0->Placeholder_0@),
        !(v is Bytes),
    ensures
        inserted(table, b@, seq![a, b], source, seq![v, Value::Str(x)]) == Ok::<
            (Seq<char>, Map<Seq<char>, JsonValue>),
            ErrorKind,
        >(
            (
                key_of(table, x@),
                Map::<Seq<char>, JsonValue>::empty().insert(a@, crate::json::param_json(v)->Ok_0).insert(
                    b@,
                    JsonValue::Str(x),
                ),
            ),
        ),
{
    let columns = seq![a, b];
    let row = source->Values_0@[0]@;
    let params = seq![v, Value::Str(x)];
    assert(columns[0]@ == a@ && columns[1]@ == b@);
    let st0 = insert_fields(columns, row, b@, params, 0)->Ok_0;
    assert(insert_fields(columns, row, b@, params, 1) == insert_step(a@, row, 0, b@, params, st0));
    let st1 = insert_fields(columns, row, b@, params, 1)->Ok_0;
    assert(insert_fields(columns, row, b@, params, 2) == insert_step(b@, row, 1, b@, params, st1));
}

/// An UPDATE with the one assignment `col = ?` takes the first parameter
/// for `col` and leaves every other field of a selected record as it was;
/// the rest of the parameters go to the WHERE clause.
pub proof fn lemma_single_assignment_update(assign: Assignment, params: Seq<Value>, rec: Map<Seq<char>, JsonValue>)
    requires
        assign.value is Value,
        assign.value->Value_0 is Placeholder,
        crate::eval::is_positional(assign.value->Value_0->Placeholder_0@),
        params.len() >= 1,
        !(params[0] is Bytes),
    ensures
        set_fields(seq![assign], params, 1) is Ok,
        set_fields(seq![assign], params, 1)->Ok_0.1 == 1,
        ({
            let m = rec.union_prefer_right(set_fields(seq![assign], params, 1)->Ok_0.0);
            &&& m.contains_key(assign.column@)
            &&& m[assign.column@] == crate::json::param_json(params[0])->Ok_0
            &&& forall|k: Seq<char>|
                k != assign.column@ ==> (#[trigger] m.contains_key(k) == rec.contains_key(k) && (
                rec.contains_key(k) ==> m[k] == rec[k]))
        }),
{
    let s = seq![assign];
    assert(s[0] == assign);
    assert(set_fields(s, params, 0) == Ok::<(Map<Seq<char>, JsonValue>, nat), ErrorKind>((Map::empty(), 0)));
}

} // verus!
