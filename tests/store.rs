use std::collections::BTreeMap;

use rorm::error::{ErrorKind, Result};
use rorm::execute::{
    assignments_to_set_map, insert_record, placeholder_ids, plan_execute, record_key, updated_record,
    ExecutePlan,
};
use rorm::info::{IndexInfo, IndexKeyInfo, TableInfo};
use rorm::json::{JsonObject, JsonValue};
use rorm::keys::gen_fcss_key;
use rorm::registry::TableRegistry;
use rorm::select::{
    filter_records, plan_fetch, plan_select, records_to_rows, select_rows, select_table_entries, Fetch,
};
use rorm::sql::{
    Assignment, BinaryOperator, InsertSource, Query, Select, SetExpr, SqlExpr, SqlValue, Statement,
    TableFactor, TableWithJoins,
};
use rorm::value::{Row, Value};

/// A store double that counts the calls made on it.
#[derive(Default)]
struct MemStore {
    entries: BTreeMap<String, JsonObject>,
    gets: usize,
    lists: usize,
    sets: Vec<String>,
    dels: Vec<String>,
}

fn copy(o: &JsonObject) -> JsonObject {
    rorm::select::copy_object(o)
}

impl MemStore {
    fn fetch(&mut self, table: &str, fetch: &Fetch) -> Vec<JsonObject> {
        let entries: Vec<(String, String)> = match fetch {
            Fetch::Point(key) => {
                self.gets += 1;
                self.entries.keys().filter(|k| *k == key).map(|k| (k.clone(), k.clone())).collect()
            }
            Fetch::All => {
                self.lists += 1;
                self.entries.keys().map(|k| (k.clone(), k.clone())).collect()
            }
        };
        select_table_entries(table, entries).iter().map(|(k, _)| copy(&self.entries[k])).collect()
    }

    fn query_filter(&mut self, r: &TableRegistry, table: &str, cond: &Option<SqlExpr>, params: &Vec<Value>, start: usize) -> Result<Vec<JsonObject>> {
        let plan = plan_fetch(r, table, cond, params, start)?;
        let records = self.fetch(table, &plan.fetch);
        filter_records(cond, &records, params, start)
    }

    fn execute(&mut self, r: &TableRegistry, stmt: Statement, params_list: Vec<Vec<Value>>) -> Result<Vec<u64>> {
        let plan = plan_execute(r, stmt)?;
        match &plan {
            ExecutePlan::Insert { table, index_col, columns, source } => {
                for params in &params_list {
                    let (key, rec) = insert_record(table, index_col, columns, source, params)?;
                    self.sets.push(key.clone());
                    self.entries.insert(key, rec);
                }
            }
            ExecutePlan::Delete { table, index_col, selection } => {
                for params in &params_list {
                    for rec in self.query_filter(r, table, selection, params, 0)? {
                        let key = record_key(table, index_col, &rec)?;
                        self.dels.push(key.clone());
                        self.entries.remove(&key);
                    }
                }
            }
            ExecutePlan::Update { table, index_col, assignments, selection } => {
                for params in &params_list {
                    let (set_map, used) = assignments_to_set_map(assignments, params)?;
                    for rec in self.query_filter(r, table, selection, params, used)? {
                        let (key, row) = updated_record(table, index_col, &set_map, rec)?;
                        self.sets.push(key.clone());
                        self.entries.insert(key, row);
                    }
                }
            }
        }
        Ok(placeholder_ids(params_list.len()))
    }

    fn query(&mut self, r: &TableRegistry, stmt: Statement, params: Vec<Value>) -> Result<Vec<Row>> {
        let plan = plan_select(r, stmt, &params)?;
        let records = self.fetch(&plan.table, &plan.fetch);
        let page = select_rows(&plan, &records, &params)?;
        records_to_rows(&page)
    }

    fn calls(&self) -> usize {
        self.gets + self.lists + self.sets.len() + self.dels.len()
    }
}

fn ident(name: &str) -> SqlExpr {
    SqlExpr::Identifier { value: name.to_string(), quoted: false }
}

fn placeholder() -> SqlExpr {
    SqlExpr::Value(SqlValue::Placeholder("?".to_string()))
}

fn eq(l: SqlExpr, r: SqlExpr) -> SqlExpr {
    SqlExpr::BinaryOp { left: Box::new(l), op: BinaryOperator::Eq, right: Box::new(r) }
}

fn table(name: &str) -> TableFactor {
    TableFactor::Table { name: name.to_string(), has_alias: false, has_args: false, has_with_hints: false }
}

fn select_stmt(name: &str, selection: Option<SqlExpr>, order_by: bool) -> Statement {
    Statement::Query(Query {
        has_with: false,
        body: SetExpr::Select(Select {
            distinct: false,
            has_top: false,
            from: vec![TableWithJoins { relation: table(name), has_joins: false }],
            selection,
        }),
        has_order_by: order_by,
        limit: None,
        offset: None,
        has_fetch: false,
        has_locks: false,
    })
}

fn registry(name: &str, index: &str) -> TableRegistry {
    let mut r = TableRegistry::new();
    let info = TableInfo {
        name: name.to_string(),
        columns: vec![],
        indexes: vec![IndexInfo { name: "i".to_string(), keys: vec![IndexKeyInfo { column_name: index.to_string() }] }],
    };
    r.init_table(&info).unwrap();
    r
}

fn rec(fields: Vec<(&str, JsonValue)>) -> JsonObject {
    let mut o = JsonObject::new();
    for (k, v) in fields {
        o.insert(k.to_string(), v);
    }
    o
}

fn s(v: &str) -> JsonValue {
    JsonValue::Str(v.to_string())
}

fn same(a: &JsonObject, b: &JsonObject) -> bool {
    let mut x: Vec<String> = a.entries.iter().map(|(k, v)| format!("{}={:?}", k, v)).collect();
    let mut y: Vec<String> = b.entries.iter().map(|(k, v)| format!("{}={:?}", k, v)).collect();
    x.sort();
    y.sort();
    x == y
}

#[test]
fn store_point_lookup_makes_one_get_and_no_list() {
    let r = registry("t", "id");
    let mut store = MemStore::default();
    let m = rec(vec![("id", s("x")), ("n", JsonValue::UInt(4))]);
    store.entries.insert(gen_fcss_key("t", "x"), copy(&m));
    store.entries.insert(gen_fcss_key("t", "y"), rec(vec![("id", s("y"))]));
    let rows = store.query(&r, select_stmt("t", Some(eq(ident("id"), placeholder())), false), vec![Value::Str("x".to_string())]).unwrap();
    assert_eq!((store.gets, store.lists), (1, 0));
    assert_eq!(rows.len(), 1);
    assert_eq!(rows[0].get::<String>("id").unwrap(), "x");
    assert_eq!(rows[0].get::<u64>("n").unwrap(), 4);
    let none = store.query(&r, select_stmt("t", Some(eq(ident("id"), placeholder())), false), vec![Value::Str("z".to_string())]).unwrap();
    assert!(none.is_empty());
    assert_eq!((store.gets, store.lists), (2, 0));
}

#[test]
fn store_insert_sets_two_keys_and_returns_zero_ids() {
    let r = registry("t", "b");
    let mut store = MemStore::default();
    let stmt = Statement::Insert {
        has_or: false,
        into: true,
        table_name: "t".to_string(),
        columns: vec!["a".to_string(), "b".to_string()],
        overwrite: false,
        source: InsertSource::Values(vec![vec![placeholder(), placeholder()]]),
        has_partitioned: false,
        has_after_columns: false,
        table: false,
        has_on: false,
        has_returning: false,
    };
    let ids = store
        .execute(&r, stmt, vec![vec![Value::I32(1), Value::Str("x".to_string())], vec![Value::I32(2), Value::Str("y".to_string())]])
        .unwrap();
    assert_eq!(ids, vec![0, 0]);
    assert_eq!(store.sets, vec!["b619.0002.b61d".to_string(), "b619.0002.b61e".to_string()]);
    assert_eq!((store.gets, store.lists, store.dels.len()), (0, 0, 0));
    assert!(same(&store.entries["b619.0002.b61d"], &rec(vec![("a", JsonValue::UInt(1)), ("b", s("x"))])));
    assert!(same(&store.entries["b619.0002.b61e"], &rec(vec![("a", JsonValue::UInt(2)), ("b", s("y"))])));
}

#[test]
fn store_delete_removes_only_bob() {
    let r = registry("t", "name");
    let mut store = MemStore::default();
    let alice = rec(vec![("id", JsonValue::UInt(2)), ("name", s("alice"))]);
    store.entries.insert(gen_fcss_key("t", "bob"), rec(vec![("id", JsonValue::UInt(1)), ("name", s("bob"))]));
    store.entries.insert(gen_fcss_key("t", "alice"), copy(&alice));
    store.entries.insert(gen_fcss_key("other", "bob"), rec(vec![("name", s("bob"))]));
    let stmt = Statement::Delete {
        table_name: table("t"),
        has_using: false,
        selection: Some(eq(ident("name"), placeholder())),
        has_returning: false,
    };
    let ids = store.execute(&r, stmt, vec![vec![Value::Str("bob".to_string())]]).unwrap();
    assert_eq!(ids, vec![0]);
    assert_eq!(store.dels, vec![gen_fcss_key("t", "bob")]);
    assert!(store.sets.is_empty());
    assert!(!store.entries.contains_key(&gen_fcss_key("t", "bob")));
    assert!(same(&store.entries[&gen_fcss_key("t", "alice")], &alice));
    assert!(store.entries.contains_key(&gen_fcss_key("other", "bob")));
}

#[test]
fn store_update_changes_only_name() {
    let r = registry("t", "email");
    let mut store = MemStore::default();
    let other = rec(vec![("id", JsonValue::UInt(2)), ("name", s("dave")), ("email", s("d@x"))]);
    store.entries.insert(gen_fcss_key("t", "a@x"), rec(vec![("id", JsonValue::UInt(1)), ("name", s("alice")), ("email", s("a@x"))]));
    store.entries.insert(gen_fcss_key("t", "d@x"), copy(&other));
    let stmt = Statement::Update {
        table: table("t"),
        assignments: vec![Assignment { column: "name".to_string(), value: placeholder() }],
        has_from: false,
        selection: Some(eq(ident("id"), placeholder())),
        has_returning: false,
    };
    let ids = store.execute(&r, stmt, vec![vec![Value::Str("carol".to_string()), Value::I32(1)]]).unwrap();
    assert_eq!(ids, vec![0]);
    assert_eq!(store.sets, vec![gen_fcss_key("t", "a@x")]);
    assert!(store.dels.is_empty());
    let updated = rec(vec![("id", JsonValue::UInt(1)), ("name", s("carol")), ("email", s("a@x"))]);
    assert!(same(&store.entries[&gen_fcss_key("t", "a@x")], &updated));
    assert!(same(&store.entries[&gen_fcss_key("t", "d@x")], &other));
}

#[test]
fn store_order_by_makes_no_call() {
    let r = registry("t", "id");
    let mut store = MemStore::default();
    store.entries.insert(gen_fcss_key("t", "x"), rec(vec![("id", s("x"))]));
    let e = store.query(&r, select_stmt("t", None, true), vec![]).unwrap_err();
    assert_eq!(e.error_kind(), ErrorKind::Argument);
    assert_eq!(store.calls(), 0);
    assert_eq!(r.get_index_col("t").unwrap(), "id");
}
