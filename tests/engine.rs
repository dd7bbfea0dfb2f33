use rorm::error::ErrorKind;
use rorm::execute::{
    assignments_to_set_map, insert_record, placeholder_ids, plan_execute, record_key, updated_record,
    ExecutePlan,
};
use rorm::info::{IndexInfo, IndexKeyInfo, TableInfo};
use rorm::json::{JsonObject, JsonValue};
use rorm::keys::gen_fcss_key;
use rorm::registry::TableRegistry;
use rorm::select::{filter_records, plan_fetch, plan_select, records_to_rows, select_rows, select_table_entries, Fetch};
use rorm::sql::{
    parse_single, Assignment, BinaryOperator, InsertSource, Offset, Query, Select, SetExpr, SqlExpr,
    SqlValue, Statement, TableFactor, TableWithJoins,
};
use rorm::value::Value;

fn ident(name: &str) -> SqlExpr {
    SqlExpr::Identifier { value: name.to_string(), quoted: false }
}

fn placeholder() -> SqlExpr {
    SqlExpr::Value(SqlValue::Placeholder("?".to_string()))
}

fn number(text: &str) -> SqlExpr {
    SqlExpr::Value(SqlValue::Number { text: text.to_string(), float_bits: text.parse::<f64>().ok().map(f64::to_bits) })
}

fn eq(l: SqlExpr, r: SqlExpr) -> SqlExpr {
    SqlExpr::BinaryOp { left: Box::new(l), op: BinaryOperator::Eq, right: Box::new(r) }
}

fn table(name: &str) -> TableFactor {
    TableFactor::Table { name: name.to_string(), has_alias: false, has_args: false, has_with_hints: false }
}

fn select(table_name: &str, selection: Option<SqlExpr>) -> Query {
    Query {
        has_with: false,
        body: SetExpr::Select(Select {
            distinct: false,
            has_top: false,
            from: vec![TableWithJoins { relation: table(table_name), has_joins: false }],
            selection,
        }),
        has_order_by: false,
        limit: None,
        offset: None,
        has_fetch: false,
        has_locks: false,
    }
}

fn info(name: &str, indexes: Vec<Vec<&str>>) -> TableInfo {
    TableInfo {
        name: name.to_string(),
        columns: vec![],
        indexes: indexes
            .into_iter()
            .enumerate()
            .map(|(i, keys)| IndexInfo {
                name: format!("idx{}", i),
                keys: keys.into_iter().map(|k| IndexKeyInfo { column_name: k.to_string() }).collect(),
            })
            .collect(),
    }
}

fn registry(name: &str, index: &str) -> TableRegistry {
    let mut r = TableRegistry::new();
    r.init_table(&info(name, vec![vec![index]])).unwrap();
    r
}

fn record(fields: Vec<(&str, JsonValue)>) -> JsonObject {
    let mut o = JsonObject::new();
    for (k, v) in fields {
        o.insert(k.to_string(), v);
    }
    o
}

fn s(v: &str) -> JsonValue {
    JsonValue::Str(v.to_string())
}

fn user(id: u64, name: &str, email: &str) -> JsonObject {
    record(vec![("id", JsonValue::UInt(id)), ("name", s(name)), ("email", s(email))])
}

fn field<'a>(o: &'a JsonObject, k: &str) -> &'a JsonValue {
    o.get(k).unwrap()
}

#[test]
fn init_table_picks_first_single_column_index() {
    let mut r = TableRegistry::new();
    r.init_table(&info("user", vec![vec!["a", "b"], vec!["c"], vec!["d"]])).unwrap();
    assert_eq!(r.get_index_col("user").unwrap(), "c");
}

#[test]
fn init_table_without_single_index_fails() {
    let mut r = TableRegistry::new();
    let e = r.init_table(&info("user", vec![vec!["a", "b"]])).unwrap_err();
    assert_eq!(e.error_kind(), ErrorKind::Argument);
    assert_eq!(r.get_index_col("user").unwrap_err().error_kind(), ErrorKind::Database);
}

#[test]
fn unregistered_table_is_database_error() {
    let r = TableRegistry::new();
    let stmt = Statement::Query(select("user", None));
    let e = plan_select(&r, stmt, &vec![]).unwrap_err();
    assert_eq!(e.error_kind(), ErrorKind::Database);
}

#[test]
fn parse_single_refuses_empty_and_multiple() {
    assert_eq!(parse_single(vec![]).unwrap_err().error_kind(), ErrorKind::Argument);
    let two = vec![Statement::Other("a".to_string()), Statement::Other("b".to_string())];
    assert_eq!(parse_single(two).unwrap_err().error_kind(), ErrorKind::Argument);
    assert!(matches!(parse_single(vec![Statement::Other("a".to_string())]), Ok(Statement::Other(_))));
}

#[test]
fn index_equality_is_a_point_lookup() {
    let r = registry("user", "id");
    let stmt = Statement::Query(select("user", Some(eq(ident("id"), placeholder()))));
    let plan = plan_select(&r, stmt, &vec![Value::Str("x".to_string())]).unwrap();
    match plan.fetch {
        Fetch::Point(key) => assert_eq!(key, gen_fcss_key("user", "x")),
        Fetch::All => panic!("expected a point lookup"),
    }
}

#[test]
fn other_column_equality_is_a_full_scan() {
    let r = registry("user", "id");
    let stmt = Statement::Query(select("user", Some(eq(ident("name"), placeholder()))));
    let plan = plan_select(&r, stmt, &vec![Value::Str("x".to_string())]).unwrap();
    assert!(matches!(plan.fetch, Fetch::All));
}

#[test]
fn point_lookup_needs_string_parameter() {
    let r = registry("user", "id");
    let cond = Some(eq(ident("id"), placeholder()));
    let e = plan_fetch(&r, "user", &cond, &vec![Value::U64(1)], 0).unwrap_err();
    assert_eq!(e.error_kind(), ErrorKind::Argument);
    let e = plan_fetch(&r, "user", &cond, &vec![], 0).unwrap_err();
    assert_eq!(e.error_kind(), ErrorKind::Argument);
}

#[test]
fn insert_one_row_per_parameter_list() {
    let r = registry("t", "b");
    let stmt = Statement::Insert {
        has_or: false,
        into: true,
        table_name: "t".to_string(),
        columns: vec!["a".to_string(), "b".to_string()],
        overwrite: false,
        source: InsertSource::Values(vec![vec![placeholder(), placeholder()]]),
        has_partitioned: false,
        has_after_columns: false,
        table: false,
        has_on: false,
        has_returning: false,
    };
    let params_list = vec![
        vec![Value::I32(1), Value::Str("x".to_string())],
        vec![Value::I32(2), Value::Str("y".to_string())],
    ];
    let plan = plan_execute(&r, stmt).unwrap();
    let (table_name, index_col, columns, source) = match &plan {
        ExecutePlan::Insert { table, index_col, columns, source } => (table, index_col, columns, source),
        _ => panic!("expected an insert"),
    };
    let mut keys = vec![];
    for params in &params_list {
        let (key, rec) = insert_record(table_name, index_col, columns, source, params).unwrap();
        assert!(matches!(field(&rec, "a"), JsonValue::UInt(_)));
        keys.push(key);
    }
    assert_eq!(keys.len(), 2);
    assert_eq!(keys[0], gen_fcss_key("t", "x"));
    assert_eq!(keys[1], gen_fcss_key("t", "y"));
    assert_eq!(&keys[0][..5], &keys[1][..5]);
    assert_ne!(keys[0], keys[1]);
    assert_eq!(placeholder_ids(params_list.len()), vec![0, 0]);
}

#[test]
fn insert_refuses_non_string_index_and_missing_index() {
    let columns = vec!["a".to_string(), "b".to_string()];
    let source = InsertSource::Values(vec![vec![placeholder(), placeholder()]]);
    let e = insert_record("t", "b", &columns, &source, &vec![Value::I32(1), Value::I32(2)]).unwrap_err();
    assert_eq!(e.error_kind(), ErrorKind::Argument);
    let e = insert_record("t", "c", &columns, &source, &vec![Value::I32(1), Value::I32(2)]).unwrap_err();
    assert_eq!(e.error_kind(), ErrorKind::Argument);
    let e = insert_record("t", "b", &columns, &source, &vec![Value::I32(1)]).unwrap_err();
    assert_eq!(e.error_kind(), ErrorKind::Argument);
}

#[test]
fn insert_refuses_several_rows() {
    let columns = vec!["b".to_string()];
    let source = InsertSource::Values(vec![vec![placeholder()], vec![placeholder()]]);
    let e = insert_record("t", "b", &columns, &source, &vec![Value::Str("x".to_string())]).unwrap_err();
    assert_eq!(e.error_kind(), ErrorKind::Argument);
}

#[test]
fn insert_reads_literals() {
    let columns = vec!["b".to_string(), "n".to_string(), "f".to_string(), "ok".to_string()];
    let source = InsertSource::Values(vec![vec![
        SqlExpr::Value(SqlValue::SingleQuotedString("k".to_string())),
        number("-12"),
        number("2.5"),
        SqlExpr::Value(SqlValue::Boolean(true)),
    ]]);
    let (key, rec) = insert_record("t", "b", &columns, &source, &vec![]).unwrap();
    assert_eq!(key, gen_fcss_key("t", "k"));
    assert!(matches!(field(&rec, "n"), JsonValue::NegInt(-12)));
    assert!(matches!(field(&rec, "f"), JsonValue::Float(b) if *b == 2.5f64.to_bits()));
    assert!(matches!(field(&rec, "ok"), JsonValue::Bool(true)));
}

#[test]
fn delete_removes_only_matching_record() {
    let r = registry("user", "email");
    let stmt = Statement::Delete {
        table_name: table("user"),
        has_using: false,
        selection: Some(eq(ident("name"), placeholder())),
        has_returning: false,
    };
    let params = vec![Value::Str("bob".to_string())];
    let plan = plan_execute(&r, stmt).unwrap();
    let (table_name, index_col, selection) = match &plan {
        ExecutePlan::Delete { table, index_col, selection } => (table, index_col, selection),
        _ => panic!("expected a delete"),
    };
    let fetch = plan_fetch(&r, table_name, selection, &params, 0).unwrap();
    assert!(matches!(fetch.fetch, Fetch::All));
    let records = vec![user(1, "bob", "bob@x"), user(2, "alice", "alice@x")];
    let selected = filter_records(selection, &records, &params, 0).unwrap();
    assert_eq!(selected.len(), 1);
    let keys: Vec<String> = selected.iter().map(|rec| record_key(table_name, index_col, rec).unwrap()).collect();
    assert_eq!(keys, vec![gen_fcss_key("user", "bob@x")]);
}

#[test]
fn update_changes_only_assigned_field() {
    let r = registry("user", "email");
    let stmt = Statement::Update {
        table: table("user"),
        assignments: vec![Assignment { column: "name".to_string(), value: placeholder() }],
        has_from: false,
        selection: Some(eq(ident("id"), placeholder())),
        has_returning: false,
    };
    let params = vec![Value::Str("carol".to_string()), Value::I32(1)];
    let plan = plan_execute(&r, stmt).unwrap();
    let (table_name, index_col, assignments, selection) = match &plan {
        ExecutePlan::Update { table, index_col, assignments, selection } => (table, index_col, assignments, selection),
        _ => panic!("expected an update"),
    };
    let (set_map, used) = assignments_to_set_map(assignments, &params).unwrap();
    assert_eq!(used, 1);
    let records = vec![user(1, "bob", "bob@x"), user(2, "alice", "alice@x")];
    let selected = filter_records(selection, &records, &params, used).unwrap();
    assert_eq!(selected.len(), 1);
    let mut written = vec![];
    for rec in selected {
        written.push(updated_record(table_name, index_col, &set_map, rec).unwrap());
    }
    assert_eq!(written.len(), 1);
    let (key, rec) = &written[0];
    assert_eq!(*key, gen_fcss_key("user", "bob@x"));
    assert!(matches!(field(rec, "name"), JsonValue::Str(n) if n == "carol"));
    assert!(matches!(field(rec, "email"), JsonValue::Str(e) if e == "bob@x"));
    assert!(matches!(field(rec, "id"), JsonValue::UInt(1)));
}

#[test]
fn record_without_index_value_is_runtime_error() {
    let rec = record(vec![("name", s("bob"))]);
    assert_eq!(record_key("user", "email", &rec).unwrap_err().error_kind(), ErrorKind::Runtime);
    let rec = record(vec![("email", JsonValue::UInt(3))]);
    assert_eq!(record_key("user", "email", &rec).unwrap_err().error_kind(), ErrorKind::Argument);
}

#[test]
fn order_by_is_refused_before_any_fetch() {
    let mut q = select("user", None);
    q.has_order_by = true;
    let e = plan_select(&registry("user", "id"), Statement::Query(q), &vec![]).unwrap_err();
    assert_eq!(e.error_kind(), ErrorKind::Argument);
    let mut q = select("user", None);
    q.has_order_by = true;
    let e = plan_select(&TableRegistry::new(), Statement::Query(q), &vec![]).unwrap_err();
    assert_eq!(e.error_kind(), ErrorKind::Argument);
}

#[test]
fn unsupported_select_clauses_are_refused() {
    let r = registry("user", "id");
    let mut q = select("user", None);
    q.limit = Some(placeholder());
    assert_eq!(plan_select(&r, Statement::Query(q), &vec![]).unwrap_err().error_kind(), ErrorKind::Argument);
    let mut q = select("user", None);
    q.offset = Some(Offset { value: number("1"), has_rows_keyword: true });
    assert_eq!(plan_select(&r, Statement::Query(q), &vec![]).unwrap_err().error_kind(), ErrorKind::Argument);
    let q = Query { body: SetExpr::Other, ..select("user", None) };
    assert_eq!(plan_select(&r, Statement::Query(q), &vec![]).unwrap_err().error_kind(), ErrorKind::Argument);
    let mut q = select("user", None);
    if let SetExpr::Select(sel) = &mut q.body {
        sel.from[0].has_joins = true;
    }
    assert_eq!(plan_select(&r, Statement::Query(q), &vec![]).unwrap_err().error_kind(), ErrorKind::Argument);
    let e = plan_select(&r, Statement::Other("DROP".to_string()), &vec![]).unwrap_err();
    assert_eq!(e.error_kind(), ErrorKind::Argument);
}

#[test]
fn limit_and_offset_select_a_page_in_key_order() {
    let r = registry("user", "email");
    let mut q = select("user", None);
    q.limit = Some(number("2"));
    q.offset = Some(Offset { value: number("1"), has_rows_keyword: false });
    let plan = plan_select(&r, Statement::Query(q), &vec![]).unwrap();
    assert_eq!(plan.offset, 1);
    assert_eq!(plan.limit, 2);
    let emails = ["e1@x", "e2@x", "e3@x", "e4@x", "e5@x"];
    let mut entries: Vec<(String, String)> = emails
        .iter()
        .map(|e| (gen_fcss_key("user", e), e.to_string()))
        .collect();
    entries.sort();
    entries.reverse();
    entries.insert(2, (gen_fcss_key("other", "zz"), "zz".to_string()));
    let kept = select_table_entries("user", entries);
    assert_eq!(kept.len(), 5);
    let mut sorted: Vec<(String, String)> = emails.iter().map(|e| (gen_fcss_key("user", e), e.to_string())).collect();
    sorted.sort();
    assert_eq!(kept, sorted);
    let records: Vec<JsonObject> = kept.iter().map(|(_, e)| user(1, "n", e)).collect();
    let page = select_rows(&plan, &records, &vec![]).unwrap();
    assert_eq!(page.len(), 2);
    assert!(matches!(field(&page[0], "email"), JsonValue::Str(e) if *e == sorted[1].1));
    assert!(matches!(field(&page[1], "email"), JsonValue::Str(e) if *e == sorted[2].1));
    let rows = records_to_rows(&page).unwrap();
    assert_eq!(rows[0].get_value("email").unwrap(), &Value::Str(sorted[1].1.clone()));
    assert_eq!(rows[0].get::<String>("email").unwrap(), sorted[1].1);
    assert_eq!(rows[1].get::<u64>("id").unwrap(), 1);
    assert_eq!(rows[1].get::<i32>("nope").unwrap_err().error_kind(), ErrorKind::OutOfRange);
    assert_eq!(rows[1].get::<String>("id").unwrap_err().error_kind(), ErrorKind::FromValue);
}

#[test]
fn filter_operators_other_than_equality_fail() {
    let cond = Some(SqlExpr::BinaryOp {
        left: Box::new(ident("id")),
        op: BinaryOperator::Other("<".to_string()),
        right: Box::new(number("3")),
    });
    let e = filter_records(&cond, &vec![user(1, "a", "a@x")], &vec![], 0).unwrap_err();
    assert_eq!(e.error_kind(), ErrorKind::Database);
    let cond = Some(eq(ident("missing"), number("3")));
    let e = filter_records(&cond, &vec![user(1, "a", "a@x")], &vec![], 0).unwrap_err();
    assert_eq!(e.error_kind(), ErrorKind::Argument);
}

#[test]
fn filter_reads_parameters_afresh_for_each_record() {
    let cond = Some(SqlExpr::Nested(Box::new(eq(ident("id"), placeholder()))));
    let records = vec![user(1, "a", "a@x"), user(2, "b", "b@x"), user(1, "c", "c@x")];
    let kept = filter_records(&cond, &records, &vec![Value::U8(1)], 0).unwrap();
    assert_eq!(kept.len(), 2);
    assert!(matches!(field(&kept[1], "name"), JsonValue::Str(n) if n == "c"));
}

#[test]
fn array_field_cannot_become_row() {
    let rec = record(vec![("tags", JsonValue::Array { len: 0, text: "[]".to_string() })]);
    assert_eq!(records_to_rows(&vec![rec]).unwrap_err().error_kind(), ErrorKind::FromValue);
}

#[test]
fn index_equality_with_literal_is_a_point_lookup() {
    let r = registry("user", "id");
    let cond = Some(eq(SqlExpr::Value(SqlValue::SingleQuotedString("x".to_string())), ident("id")));
    let plan = plan_fetch(&r, "user", &cond, &vec![], 0).unwrap();
    match plan.fetch {
        Fetch::Point(key) => assert_eq!(key, gen_fcss_key("user", "x")),
        Fetch::All => panic!("expected a point lookup"),
    }
}

#[test]
fn index_compared_with_column_or_number_is_a_full_scan() {
    let r = registry("user", "id");
    let cond = Some(eq(ident("id"), ident("name")));
    let plan = plan_fetch(&r, "user", &cond, &vec![Value::Str("x".to_string())], 0).unwrap();
    assert!(matches!(plan.fetch, Fetch::All));
    let cond = Some(eq(ident("id"), number("3")));
    let plan = plan_fetch(&r, "user", &cond, &vec![], 0).unwrap();
    assert!(matches!(plan.fetch, Fetch::All));
    let cond = Some(eq(ident("id"), SqlExpr::Value(SqlValue::Placeholder("$1".to_string()))));
    let plan = plan_fetch(&r, "user", &cond, &vec![], 0).unwrap();
    assert!(matches!(plan.fetch, Fetch::All));
}

#[test]
fn index_placeholder_reads_parameter_after_set_clause() {
    let r = registry("user", "id");
    let cond = Some(SqlExpr::Nested(Box::new(eq(placeholder(), ident("id")))));
    let params = vec![Value::Str("carol".to_string()), Value::Str("u1".to_string())];
    let plan = plan_fetch(&r, "user", &cond, &params, 1).unwrap();
    match plan.fetch {
        Fetch::Point(key) => assert_eq!(key, gen_fcss_key("user", "u1")),
        Fetch::All => panic!("expected a point lookup"),
    }
}

#[test]
fn like_in_and_other_operators_are_database_errors() {
    let records = vec![user(1, "a", "a@x")];
    for text in ["name LIKE 'a%'", "id IN (1, 2)", "id BETWEEN 1 AND 2", "NOT id", "name IS NULL"] {
        let cond = Some(SqlExpr::Operation(text.to_string()));
        let e = filter_records(&cond, &records, &vec![], 0).unwrap_err();
        assert_eq!(e.error_kind(), ErrorKind::Database);
    }
    let cond = Some(SqlExpr::Nested(Box::new(SqlExpr::Operation("id IN (1)".to_string()))));
    assert_eq!(filter_records(&cond, &records, &vec![], 0).unwrap_err().error_kind(), ErrorKind::Database);
    let cond = Some(SqlExpr::Other("lower(name)".to_string()));
    assert_eq!(filter_records(&cond, &records, &vec![], 0).unwrap_err().error_kind(), ErrorKind::Argument);
}
