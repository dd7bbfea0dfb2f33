//! Reading records of the key-value backend: which entries to fetch, which
//! of them belong to the table, which satisfy the WHERE clause, and which page
//! of them is returned.

use vstd::prelude::*;
use crate::error::{Error, ErrorKind, Outcome, Result};
use crate::eval::{
    equality_operand, eval_expr, filter_by_cond, index_operand, is_positional, is_positional_placeholder,
    require_index_param,
};
use crate::json::{JsonObject, JsonValue, copy_json, json_to_bool, json_value, json_value_to_rorm_value, truthy};
use crate::keys::{gen_fcss_key, key_in_table, key_is_match_table, key_of};
use crate::registry::TableRegistry;
use crate::sql::{Offset, Query, SetExpr, SqlExpr, SqlValue, Statement, TableFactor, TableWithJoins, parse_usize, parsed_usize};
use crate::strings::owned;
use crate::value::{Row, Value};

verus! {

/// How the candidate records of a statement are fetched from the store.
#[derive(Debug)]
pub enum Fetch {
    /// Get the one entry under this key.
    Point(String),
    /// List every entry of the store.
    All,
}

impl Fetch {
    /// The key of a point lookup, or `None` for a full scan.
    pub open spec fn point(&self) -> Option<Seq<char>> {
        match self {
            Fetch::Point(k) => Some(k@),
            Fetch::All => None,
        }
    }
}

/// The name of a plain table reference; `None` for an alias, table
/// arguments, hints or anything but a named table.
pub open spec fn factor_table(f: TableFactor) -> Option<Seq<char>> {
    match f {
        TableFactor::Table { name, has_alias, has_args, has_with_hints } => {
            if has_alias || has_args || has_with_hints {
                None
            } else {
                Some(name@)
            }
        },
        TableFactor::Other(_) => None,
    }
}

/// The table of a FROM clause: exactly one table reference without joins.
pub open spec fn from_table(from: Seq<TableWithJoins>) -> Option<Seq<char>> {
    if from.len() != 1 || from[0].has_joins {
        None
    } else {
        factor_table(from[0].relation)
    }
}

/// The number that a LIMIT or OFFSET expression denotes; only a numeric
/// literal is supported.
pub open spec fn number_literal(e: SqlExpr) -> Option<usize> {
    match e {
        SqlExpr::Value(SqlValue::Number { text, .. }) => parsed_usize(text@),
        _ => None,
    }
}

/// The number of records to skip; `None` when the clause is unsupported.
pub open spec fn offset_value(o: Option<Offset>) -> Option<usize> {
    match o {
        None => Some(0),
        Some(off) => if off.has_rows_keyword {
            None
        } else {
            number_literal(off.value)
        },
    }
}

/// The largest number of records to return; `None` when the clause is
/// unsupported.
pub open spec fn limit_value(l: Option<SqlExpr>) -> Option<usize> {
    match l {
        None => Some(usize::MAX),
        Some(e) => number_literal(e),
    }
}

/// The table that a query reads, when every clause of it is supported: a
/// plain SELECT from one table, without WITH, FETCH, locks, DISTINCT, TOP or
/// ORDER BY, and with literal LIMIT and OFFSET.
pub open spec fn query_table(q: Query) -> Option<Seq<char>> {
    if q.has_with || q.has_fetch || q.has_locks || q.has_order_by {
        None
    } else {
        match q.body {
            SetExpr::Select(sel) => {
                if sel.distinct || sel.has_top || offset_value(q.offset) is None
                    || limit_value(q.limit) is None {
                    None
                } else {
                    from_table(sel.from@)
                }
            },
            SetExpr::Other => None,
        }
    }
}

/// The WHERE clause of a query.
pub open spec fn query_selection(q: Query) -> Option<SqlExpr> {
    match q.body {
        SetExpr::Select(sel) => sel.selection,
        SetExpr::Other => None,
    }
}

/// How records of `table` are fetched for `cond`: by a key when the clause
/// is an equality on the index column whose other operand is a string
/// literal, or the placeholder `?`, which then stands for the parameter at
/// `start`, which must be a string; else by a full scan.
pub open spec fn fetch_plan(
    table: Seq<char>,
    index: Seq<char>,
    cond: Option<SqlExpr>,
    params: Seq<Value>,
    start: nat,
) -> Outcome<Option<Seq<char>>> {
    if cond is None {
        Ok(None)
    } else {
        match index_operand(cond->0, index) {
            Some(SqlExpr::Value(SqlValue::SingleQuotedString(s))) => Ok(Some(key_of(table, s@))),
            Some(SqlExpr::Value(SqlValue::DoubleQuotedString(s))) => Ok(Some(key_of(table, s@))),
            Some(SqlExpr::Value(SqlValue::Placeholder(p))) => if !is_positional(p@) {
                Ok(None)
            } else if start >= params.len() || !(params[start as int] is Str) {
                Err(ErrorKind::Argument)
            } else {
                Ok(Some(key_of(table, params[start as int]->Str_0@)))
            },
            _ => Ok(None),
        }
    }
}

/// The records among `recs` that satisfy `cond`, in order; the first record
/// on which the clause fails decides the error.
pub open spec fn filtered(
    cond: Option<SqlExpr>,
    recs: Seq<Map<Seq<char>, JsonValue>>,
    params: Seq<Value>,
    start: nat,
) -> Outcome<Seq<Map<Seq<char>, JsonValue>>>
    decreases recs.len(),
{
    if recs.len() == 0 {
        Ok(Seq::empty())
    } else {
        match filtered(cond, recs.drop_last(), params, start) {
            Err(k) => Err(k),
            Ok(kept) => match cond {
                None => Ok(kept.push(recs.last())),
                Some(c) => match eval_expr(c, recs.last(), params, start).0 {
                    Err(k) => Err(k),
                    Ok(j) => Ok(
                        if truthy(j) {
                            kept.push(recs.last())
                        } else {
                            kept
                        },
                    ),
                },
            },
        }
    }
}

/// The page of `n` items that skips `offset` of them and keeps at most
/// `limit`: its first and one-past-last positions.
pub open spec fn page_bounds(n: int, offset: int, limit: int) -> (int, int) {
    let lo = if offset < n {
        offset
    } else {
        n
    };
    let hi = if offset + limit < n {
        offset + limit
    } else {
        n
    };
    (lo, hi)
}

/// Lexicographic order of character sequences, by code point; for strings
/// it is the order of their UTF-8 bytes.
pub open spec fn text_le(a: Seq<char>, b: Seq<char>) -> bool
    decreases a.len(),
{
    if a.len() == 0 {
        true
    } else if b.len() == 0 {
        false
    } else if (a[0] as u32) != (b[0] as u32) {
        (a[0] as u32) < (b[0] as u32)
    } else {
        text_le(a.drop_first(), b.drop_first())
    }
}

/// Entries ordered by key.
pub open spec fn sorted_by_key(s: Seq<(String, String)>) -> bool {
    forall|i: int, j: int| 0 <= i < j < s.len() ==> text_le(#[trigger] s[i].0@, #[trigger] s[j].0@)
}

/// What a query reads: the table, its index column, the WHERE clause, the
/// page, and how candidates are fetched.
#[derive(Debug)]
pub struct SelectPlan {
    pub table: String,
    pub index_col: String,
    pub selection: Option<SqlExpr>,
    pub offset: usize,
    pub limit: usize,
    pub fetch: Fetch,
}

/// Where the records that a WHERE clause reads come from.
#[derive(Debug)]
pub struct FilterPlan {
    pub index_col: String,
    pub fetch: Fetch,
}

/// Relies on `slice::sort_by` with `String`'s ordering: the entries are
/// reordered so that their keys ascend.
#[verifier::external_body]
fn sort_by_key(entries: &mut Vec<(String, String)>)
    ensures
        final(entries)@.to_multiset() == old(entries)@.to_multiset(),
        sorted_by_key(final(entries)@),
{
    entries.sort_by(|a, b| a.0.cmp(&b.0))
}

/// The name of a plain table reference; anything else is an Argument error.
pub fn require_table_name_from_table_factor(factor: &TableFactor) -> (r: Result<String>)
    ensures
        r is Ok <==> factor_table(*factor) is Some,
        r is Ok ==> r->Ok_0@ == factor_table(*factor)->0,
        r is Err ==> r->Err_0.kind() == ErrorKind::Argument,
{
    match factor {
        TableFactor::Table { name, has_alias, has_args, has_with_hints } => {
            if *has_alias {
                return Err(Error::Argument(owned("table aliases are not supported")));
            }
            if *has_args {
                return Err(Error::Argument(owned("table functions are not supported")));
            }
            if *has_with_hints {
                return Err(Error::Argument(owned("table hints are not supported")));
            }
            Ok(name.clone())
        },
        TableFactor::Other(_) => Err(Error::Argument(owned("only a named table is supported"))),
    }
}

/// The table of a FROM clause; several sources, none, or joins are an
/// Argument error.
pub fn get_table_name_from_select(from: &Vec<TableWithJoins>) -> (r: Result<String>)
    ensures
        r is Ok <==> from_table(from@) is Some,
        r is Ok ==> r->Ok_0@ == from_table(from@)->0,
        r is Err ==> r->Err_0.kind() == ErrorKind::Argument,
{
    if from.len() > 1 {
        return Err(Error::Argument(owned("several FROM sources are not supported")));
    }
    if from.len() == 0 {
        return Err(Error::Argument(owned("the query names no table")));
    }
    if from[0].has_joins {
        return Err(Error::Argument(owned("joins are not supported")));
    }
    require_table_name_from_table_factor(&from[0].relation)
}

fn number_of(e: &SqlExpr) -> (r: Option<usize>)
    ensures
        r == number_literal(*e),
{
    match e {
        SqlExpr::Value(SqlValue::Number { text, .. }) => parse_usize(text.as_str()),
        _ => None,
    }
}

/// The OFFSET of a query, 0 without one; anything but a numeric literal is
/// an Argument error.
pub fn get_offset(offset: &Option<Offset>) -> (r: Result<usize>)
    ensures
        r is Ok <==> offset_value(*offset) is Some,
        r is Ok ==> r->Ok_0 == offset_value(*offset)->0,
        r is Err ==> r->Err_0.kind() == ErrorKind::Argument,
{
    match offset {
        None => Ok(0),
        Some(off) => {
            if off.has_rows_keyword {
                return Err(Error::Argument(owned("OFFSET ROWS is not supported")));
            }
            match number_of(&off.value) {
                Some(n) => Ok(n),
                None => Err(Error::Argument(owned("OFFSET must be a number literal"))),
            }
        },
    }
}

/// The LIMIT of a query, `usize::MAX` without one; anything but a numeric
/// literal is an Argument error.
pub fn get_limit(limit: &Option<SqlExpr>) -> (r: Result<usize>)
    ensures
        r is Ok <==> limit_value(*limit) is Some,
        r is Ok ==> r->Ok_0 == limit_value(*limit)->0,
        r is Err ==> r->Err_0.kind() == ErrorKind::Argument,
{
    match limit {
        None => Ok(usize::MAX),
        Some(e) => match number_of(e) {
            Some(n) => Ok(n),
            None => Err(Error::Argument(owned("LIMIT must be a number literal"))),
        },
    }
}

/// Decides how the records of `table_name` that `cond` reads are fetched,
/// with placeholders read from `params` at `start` on. A table that was
/// never registered is a Database error.
pub fn plan_fetch(
    registry: &TableRegistry,
    table_name: &str,
    cond: &Option<SqlExpr>,
    params: &Vec<Value>,
    start: usize,
) -> (r: Result<FilterPlan>)
    ensures
        registry.index_of(table_name@) is None ==> r is Err && r->Err_0.kind() == ErrorKind::Database,
        registry.index_of(table_name@) is Some ==> {
            let plan = fetch_plan(table_name@, registry.index_of(table_name@)->0, *cond, params@, start as nat);
            &&& r is Ok <==> plan is Ok
            &&& r is Ok ==> r->Ok_0.fetch.point() == plan->Ok_0
                && r->Ok_0.index_col@ == registry.index_of(table_name@)->0
            &&& r is Err ==> r->Err_0.kind() == plan->Err_0
        },
{
    let index_col = registry.get_index_col(table_name)?;
    let operand = match cond {
        Some(c) => equality_operand(c, index_col.as_str()),
        None => None,
    };
    let index = match operand {
        Some(SqlExpr::Value(SqlValue::SingleQuotedString(s))) => s.clone(),
        Some(SqlExpr::Value(SqlValue::DoubleQuotedString(s))) => s.clone(),
        Some(SqlExpr::Value(SqlValue::Placeholder(p))) => {
            if !is_positional_placeholder(p) {
                return Ok(FilterPlan { index_col, fetch: Fetch::All });
            }
            if start >= params.len() {
                return Err(Error::Argument(owned("the index placeholder has no parameter")));
            }
            require_index_param(&params[start])?
        },
        _ => {
            return Ok(FilterPlan { index_col, fetch: Fetch::All });
        },
    };
    let key = gen_fcss_key(table_name, index.as_str());
    Ok(FilterPlan { index_col, fetch: Fetch::Point(key) })
}

/// The fetched entries that belong to `table_name`, ordered by key.
pub fn select_table_entries(table_name: &str, entries: Vec<(String, String)>) -> (r: Vec<(String, String)>)
    ensures
        r@.to_multiset() == entries@.filter(|e: (String, String)| key_in_table(e.0@, table_name@)).to_multiset(),
        sorted_by_key(r@),
{
    let ghost pred = |e: (String, String)| key_in_table(e.0@, table_name@);
    let mut kept: Vec<(String, String)> = Vec::new();
    let mut i: usize = 0;
    while i < entries.len()
        invariant
            i <= entries@.len(),
            pred == (|e: (String, String)| key_in_table(e.0@, table_name@)),
            kept@ == entries@.subrange(0, i as int).filter(pred),
        decreases entries@.len() - i,
    {
        let ghost next = entries@.subrange(0, i + 1);
        assert(next.drop_last() =~= entries@.subrange(0, i as int));
        assert(next.last() == entries@[i as int]);
        reveal_with_fuel(Seq::<(String, String)>::filter, 1);
        assert(next.filter(pred) == if pred(next.last()) {
            next.drop_last().filter(pred).push(next.last())
        } else {
            next.drop_last().filter(pred)
        });
        if key_is_match_table(entries[i].0.as_str(), table_name) {
            let e = (entries[i].0.clone(), entries[i].1.clone());
            assert(e == entries@[i as int]);
            kept.push(e);
        }
        i = i + 1;
    }
    assert(entries@.subrange(0, i as int) =~= entries@);
    sort_by_key(&mut kept);
    kept
}

/// A copy of a record.
pub fn copy_object(o: &JsonObject) -> (r: JsonObject)
    ensures
        r.entries@ == o.entries@,
        r.view_map() == o.view_map(),
{
    let mut entries: Vec<(String, JsonValue)> = Vec::new();
    let mut i: usize = 0;
    while i < o.entries.len()
        invariant
            i <= o.entries@.len(),
            entries@ == o.entries@.subrange(0, i as int),
        decreases o.entries@.len() - i,
    {
        entries.push((o.entries[i].0.clone(), copy_json(&o.entries[i].1)));
        assert(entries@ =~= o.entries@.subrange(0, i + 1));
        i = i + 1;
    }
    assert(entries@ =~= o.entries@);
    JsonObject { entries }
}

/// The maps of a list of records.
pub open spec fn maps_of(recs: Seq<JsonObject>) -> Seq<Map<Seq<char>, JsonValue>> {
    recs.map_values(|o: JsonObject| o.view_map())
}

/// The records that satisfy `cond` (all of them without one), in order,
/// with placeholders read from `params` at `start` on for each record.
pub fn filter_records(
    cond: &Option<SqlExpr>,
    records: &Vec<JsonObject>,
    params: &Vec<Value>,
    start: usize,
) -> (r: Result<Vec<JsonObject>>)
    ensures
        filtered(*cond, maps_of(records@), params@, start as nat) is Ok <==> r is Ok,
        r is Ok ==> maps_of(r->Ok_0@) == filtered(*cond, maps_of(records@), params@, start as nat)->Ok_0,
        r is Err ==> r->Err_0.kind() == filtered(*cond, maps_of(records@), params@, start as nat)->Err_0,
{
    let mut kept: Vec<JsonObject> = Vec::new();
    let mut i: usize = 0;
    while i < records.len()
        invariant
            i <= records@.len(),
            filtered(*cond, maps_of(records@.subrange(0, i as int)), params@, start as nat) is Ok,
            maps_of(kept@) == filtered(*cond, maps_of(records@.subrange(0, i as int)), params@, start as nat)->Ok_0,
        decreases records@.len() - i,
    {
        let ghost pre = records@.subrange(0, i as int);
        let ghost next = records@.subrange(0, i + 1);
        assert(maps_of(next).drop_last() =~= maps_of(pre));
        assert(maps_of(next).last() == records@[i as int].view_map());
        let keep = match cond {
            None => true,
            Some(c) => {
                let mut pos = start;
                match filter_by_cond(c, &records[i], params, &mut pos) {
                    Ok(v) => json_to_bool(&v),
                    Err(e) => {
                        proof {
                            let mut n = i + 1;
                            assert(filtered(*cond, maps_of(next), params@, start as nat) is Err);
                            lemma_filtered_err_extends(*cond, maps_of(records@), params@, start as nat, n as int);
                            assert(maps_of(records@).subrange(0, n as int) =~= maps_of(next));
                            assert(maps_of(records@).subrange(0, records@.len() as int) =~= maps_of(records@));
                        }
                        return Err(e);
                    },
                }
            },
        };
        if keep {
            let ghost before = kept@;
            kept.push(copy_object(&records[i]));
            assert(maps_of(kept@) =~= maps_of(before).push(records@[i as int].view_map()));
        }
        i = i + 1;
    }
    assert(records@.subrange(0, i as int) =~= records@);
    Ok(kept)
}

/// Once a prefix of the records fails, every longer prefix fails the same way.
proof fn lemma_filtered_err_extends(
    cond: Option<SqlExpr>,
    recs: Seq<Map<Seq<char>, JsonValue>>,
    params: Seq<Value>,
    start: nat,
    n: int,
)
    requires
        0 <= n <= recs.len(),
        filtered(cond, recs.subrange(0, n), params, start) is Err,
    ensures
        filtered(cond, recs, params, start) == filtered(cond, recs.subrange(0, n), params, start),
    decreases recs.len() - n,
{
    if n < recs.len() {
        let a = recs.subrange(0, n);
        let b = recs.subrange(0, n + 1);
        assert(b.drop_last() =~= a);
        lemma_filtered_err_extends(cond, recs, params, start, n + 1);
    } else {
        assert(recs.subrange(0, n) =~= recs);
    }
}

/// The page of `records` that skips `offset` of them and keeps at most
/// `limit`.
pub fn paginate(records: Vec<JsonObject>, offset: usize, limit: usize) -> (r: Vec<JsonObject>)
    ensures
        ({
            let (lo, hi) = page_bounds(records@.len() as int, offset as int, limit as int);
            maps_of(r@) == maps_of(records@.subrange(lo, hi))
        }),
{
    let ghost (lo, hi) = page_bounds(records@.len() as int, offset as int, limit as int);
    let n = records.len();
    let start = if offset < n { offset } else { n };
    let end = if limit < n - start { start + limit } else { n };
    let mut page: Vec<JsonObject> = Vec::new();
    let mut i: usize = start;
    while i < end
        invariant
            start == lo,
            end == hi,
            lo <= i <= hi,
            hi <= records@.len(),
            maps_of(page@) == maps_of(records@.subrange(lo, i as int)),
        decreases end - i,
    {
        let ghost before = page@;
        page.push(copy_object(&records[i]));
        assert(maps_of(page@) =~= maps_of(before).push(records@[i as int].view_map()));
        assert(maps_of(records@.subrange(lo, i + 1)) =~= maps_of(records@.subrange(lo, i as int)).push(
            records@[i as int].view_map(),
        ));
        i = i + 1;
    }
    page
}

/// A record as a row; a field holding an array or an object is a FromValue
/// error.
pub fn json_map_to_row(record: &JsonObject) -> (r: Result<Row>)
    ensures
        r is Ok <==> forall|i: int| 0 <= i < record.entries@.len()
            ==> (json_value(#[trigger] record.entries@[i].1) is Ok),
        r is Ok ==> r->Ok_0.values@.len() == record.entries@.len() && forall|i: int|
            0 <= i < record.entries@.len() ==> (#[trigger] r->Ok_0.values@[i]).0@
                == record.entries@[i].0@ && json_value(record.entries@[i].1) == Ok::<Value, ErrorKind>(
                r->Ok_0.values@[i].1,
            ),
        r is Err ==> r->Err_0.kind() == ErrorKind::FromValue,
{
    let mut values: Vec<(String, Value)> = Vec::new();
    let mut i: usize = 0;
    while i < record.entries.len()
        invariant
            i <= record.entries@.len(),
            values@.len() == i,
            forall|j: int| 0 <= j < i ==> (json_value(#[trigger] record.entries@[j].1) is Ok),
            forall|j: int|
                0 <= j < i ==> (#[trigger] values@[j]).0@ == record.entries@[j].0@ && json_value(
                    record.entries@[j].1,
                ) == Ok::<Value, ErrorKind>(values@[j].1),
        decreases record.entries@.len() - i,
    {
        let v = json_value_to_rorm_value(&record.entries[i].1);
        match v {
            Ok(v) => {
                values.push((record.entries[i].0.clone(), v));
            },
            Err(e) => {
                return Err(e);
            },
        }
        i = i + 1;
    }
    Ok(Row { values })
}

/// Decides what a query reads. Any statement but a supported SELECT is an
/// Argument error, checked before the registry is read; a table that was
/// never registered is then a Database error, and a point lookup whose first
/// parameter is missing or not a string an Argument error.
pub fn plan_select(registry: &TableRegistry, stmt: Statement, params: &Vec<Value>) -> (r: Result<SelectPlan>)
    ensures
        !(stmt is Query) || query_table(stmt->Query_0) is None ==> r is Err
            && r->Err_0.kind() == ErrorKind::Argument,
        stmt is Query && query_table(stmt->Query_0) is Some ==> {
            let q = stmt->Query_0;
            let table = query_table(q)->0;
            let index = registry.index_of(table);
            let plan = fetch_plan(table, index->0, query_selection(q), params@, 0);
            &&& index is None ==> r is Err && r->Err_0.kind() == ErrorKind::Database
            &&& index is Some ==> (r is Ok <==> plan is Ok)
            &&& index is Some && r is Err ==> r->Err_0.kind() == plan->Err_0
            &&& r is Ok ==> {
                let p = r->Ok_0;
                &&& p.table@ == table
                &&& p.index_col@ == index->0
                &&& p.selection == query_selection(q)
                &&& p.offset == offset_value(q.offset)->0
                &&& p.limit == limit_value(q.limit)->0
                &&& p.fetch.point() == plan->Ok_0
            }
        },
{
    match stmt {
        Statement::Query(q) => {
            if q.has_with {
                return Err(Error::Argument(owned("WITH is not supported")));
            }
            if q.has_fetch {
                return Err(Error::Argument(owned("FETCH is not supported")));
            }
            if q.has_locks {
                return Err(Error::Argument(owned("locking clauses are not supported")));
            }
            let Query { body, has_order_by, limit, offset, .. } = q;
            match body {
                SetExpr::Select(sel) => {
                    if sel.distinct {
                        return Err(Error::Argument(owned("DISTINCT is not supported")));
                    }
                    if sel.has_top {
                        return Err(Error::Argument(owned("TOP is not supported")));
                    }
                    let table = get_table_name_from_select(&sel.from)?;
                    if has_order_by {
                        return Err(Error::Argument(owned("ORDER BY is not supported")));
                    }
                    let off = get_offset(&offset)?;
                    let lim = get_limit(&limit)?;
                    let selection = sel.selection;
                    let fp = plan_fetch(registry, table.as_str(), &selection, params, 0)?;
                    Ok(SelectPlan {
                        table,
                        index_col: fp.index_col,
                        selection,
                        offset: off,
                        limit: lim,
                        fetch: fp.fetch,
                    })
                },
                SetExpr::Other => Err(Error::Argument(owned("only a SELECT body is supported"))),
            }
        },
        _ => Err(Error::Argument(owned("only a query can be run as a query"))),
    }
}

/// The rows that a planned query returns from the records of its table,
/// given in key order: those that satisfy the WHERE clause, then the page
/// that OFFSET and LIMIT select.
pub fn select_rows(plan: &SelectPlan, records: &Vec<JsonObject>, params: &Vec<Value>) -> (r: Result<Vec<JsonObject>>)
    ensures
        filtered(plan.selection, maps_of(records@), params@, 0) is Ok <==> r is Ok,
        r is Err ==> r->Err_0.kind() == filtered(plan.selection, maps_of(records@), params@, 0)->Err_0,
        r is Ok ==> {
            let kept = filtered(plan.selection, maps_of(records@), params@, 0)->Ok_0;
            let (lo, hi) = page_bounds(kept.len() as int, plan.offset as int, plan.limit as int);
            maps_of(r->Ok_0@) == kept.subrange(lo, hi)
        },
{
    let kept = filter_records(&plan.selection, records, params, 0)?;
    let page = paginate(kept, plan.offset, plan.limit);
    proof {
        let (lo, hi) = page_bounds(kept@.len() as int, plan.offset as int, plan.limit as int);
        assert(maps_of(kept@.subrange(lo, hi)) =~= maps_of(kept@).subrange(lo, hi));
    }
    Ok(page)
}

/// Row `row` holds the fields of `record`, converted one by one.
pub open spec fn row_of(record: JsonObject, row: Row) -> bool {
    &&& row.values@.len() == record.entries@.len()
    &&& forall|j: int|
        0 <= j < record.entries@.len() ==> (#[trigger] row.values@[j]).0@ == record.entries@[j].0@
            && json_value(record.entries@[j].1) == Ok::<Value, ErrorKind>(row.values@[j].1)
}

/// The rows of the records that a query returned; a field holding an array
/// or an object is a FromValue error.
pub fn records_to_rows(records: &Vec<JsonObject>) -> (r: Result<Vec<Row>>)
    ensures
        r is Ok <==> forall|i: int, j: int|
            0 <= i < records@.len() && 0 <= j < records@[i].entries@.len()
                ==> (json_value(#[trigger] records@[i].entries@[j].1) is Ok),
        r is Ok ==> r->Ok_0@.len() == records@.len() && forall|i: int|
            0 <= i < records@.len() ==> row_of(records@[i], #[trigger] r->Ok_0@[i]),
        r is Err ==> r->Err_0.kind() == ErrorKind::FromValue,
{
    let mut rows: Vec<Row> = Vec::new();
    let mut i: usize = 0;
    while i < records.len()
        invariant
            i <= records@.len(),
            rows@.len() == i,
            forall|k: int, j: int|
                0 <= k < i && 0 <= j < records@[k].entries@.len()
                    ==> (json_value(#[trigger] records@[k].entries@[j].1) is Ok),
            forall|k: int| 0 <= k < i ==> row_of(records@[k], #[trigger] rows@[k]),
        decreases records@.len() - i,
    {
        match json_map_to_row(&records[i]) {
            Ok(row) => {
                rows.push(row);
            },
            Err(e) => {
                return Err(e);
            },
        }
        i = i + 1;
    }
    Ok(rows)
}

/// A WHERE clause that is exactly `index = ?`, on a table whose index column
/// is `index`, with a string as first parameter, is answered by a point
/// lookup of that string's key.
pub proof fn lemma_index_equality_is_point_lookup(
    table: Seq<char>,
    index: String,
    placeholder: String,
    x: String,
    rest: Seq<Value>,
)
    requires
        is_positional(placeholder@),
    ensures
        ({
            let cond = SqlExpr::BinaryOp {
                left: Box::new(SqlExpr::Identifier { value: index, quoted: false }),
                op: crate::sql::BinaryOperator::Eq,
                right: Box::new(SqlExpr::Value(SqlValue::Placeholder(placeholder))),
            };
            fetch_plan(table, index@, Some(cond), seq![Value::Str(x)] + rest, 0)
                == Ok::<Option<Seq<char>>, ErrorKind>(Some(key_of(table, x@)))
        }),
{
}

/// A query with ORDER BY is refused before its table is looked up or any
/// record is fetched.
pub proof fn lemma_order_by_refused(q: Query)
    requires
        q.has_order_by,
    ensures
        query_table(q) is None,
{
}

/// A WHERE clause `index = 'x'` is answered by a point lookup of the key of
/// `x`, whatever the parameters; `index = col`, with another column on the
/// other side, by a full scan.
pub proof fn lemma_index_equality_operands(
    table: Seq<char>,
    index: String,
    x: String,
    other: String,
    quoted: bool,
    params: Seq<Value>,
    start: nat,
)
    ensures
        ({
            let literal = SqlExpr::BinaryOp {
                left: Box::new(SqlExpr::Identifier { value: index, quoted: false }),
                op: crate::sql::BinaryOperator::Eq,
                right: Box::new(SqlExpr::Value(SqlValue::SingleQuotedString(x))),
            };
            fetch_plan(table, index@, Some(literal), params, start)
                == Ok::<Option<Seq<char>>, ErrorKind>(Some(key_of(table, x@)))
        }),
        other@ != index@ ==> ({
            let column = SqlExpr::BinaryOp {
                left: Box::new(SqlExpr::Identifier { value: index, quoted: false }),
                op: crate::sql::BinaryOperator::Eq,
                right: Box::new(SqlExpr::Identifier { value: other, quoted }),
            };
            fetch_plan(table, index@, Some(column), params, start) == Ok::<Option<Seq<char>>, ErrorKind>(None)
        }),
{
}

} // verus!
