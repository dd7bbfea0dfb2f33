//! Evaluation of WHERE clauses against records, and the reading of literals
//! and placeholders.

use vstd::prelude::*;
use crate::error::{Error, ErrorKind, Outcome, Result, outcome_is};
use crate::json::{
    JsonObject, JsonValue, copy_json, f64_to_json, json_eq, json_equals, json_of_f64,
    json_of_i64, param_json, param_value_to_json,
};
use crate::sql::{BinaryOperator, SqlExpr, SqlValue, parse_i64, parsed_i64};
use crate::strings::owned;
use crate::value::Value;

verus! {

/// The placeholder text that stands for the next parameter.
pub open spec fn is_positional(p: Seq<char>) -> bool {
    p == seq!['?']
}

/// The JSON value of a literal, or of the parameter at `pos` for a
/// placeholder, with the position of the next parameter.
pub open spec fn literal_json(v: SqlValue, params: Seq<Value>, pos: nat) -> (Outcome<JsonValue>, nat) {
    match v {
        SqlValue::Number { text, float_bits } => {
            let r = match parsed_i64(text@) {
                Some(n) => Ok(json_of_i64(n)),
                None => match float_bits {
                    Some(b) => Ok(json_of_f64(b)),
                    None => Err(ErrorKind::Argument),
                },
            };
            (r, pos)
        },
        SqlValue::SingleQuotedString(s) => (Ok(JsonValue::Str(s)), pos),
        SqlValue::DoubleQuotedString(s) => (Ok(JsonValue::Str(s)), pos),
        SqlValue::Boolean(b) => (Ok(JsonValue::Bool(b)), pos),
        SqlValue::Placeholder(p) => if !is_positional(p@) || pos >= params.len() {
            (Err(ErrorKind::Argument), pos)
        } else {
            (param_json(params[pos as int]), pos + 1)
        },
        SqlValue::Other(_) => (Err(ErrorKind::Argument), pos),
    }
}

/// Applies a binary operator; only equality is supported, any other
/// operator is a Database error.
pub open spec fn binop_result(l: JsonValue, r: JsonValue, op: BinaryOperator) -> Outcome<JsonValue> {
    match op {
        BinaryOperator::Eq => Ok(JsonValue::Bool(json_eq(l, r))),
        BinaryOperator::Other(_) => Err(ErrorKind::Database),
    }
}

/// The value of `e` on record `rec`, reading placeholders from `params` at
/// `pos` on, with the position of the next parameter. Both sides of a
/// binary operator are evaluated, left first, before the operator is
/// applied. Every operator but equality is a Database error; an expression
/// that is no operator, column or literal is an Argument error.
pub open spec fn eval_expr(e: SqlExpr, rec: Map<Seq<char>, JsonValue>, params: Seq<Value>, pos: nat) -> (Outcome<JsonValue>, nat)
    decreases e,
{
    match e {
        SqlExpr::Identifier { value, .. } => if rec.contains_key(value@) {
            (Ok(rec[value@]), pos)
        } else {
            (Err(ErrorKind::Argument), pos)
        },
        SqlExpr::BinaryOp { left, op, right } => {
            let (l, p1) = eval_expr(*left, rec, params, pos);
            match l {
                Err(k) => (Err(k), p1),
                Ok(lv) => {
                    let (r, p2) = eval_expr(*right, rec, params, p1);
                    match r {
                        Err(k) => (Err(k), p2),
                        Ok(rv) => (binop_result(lv, rv, op), p2),
                    }
                },
            }
        },
        SqlExpr::Nested(inner) => eval_expr(*inner, rec, params, pos),
        SqlExpr::Value(v) => literal_json(v, params, pos),
        SqlExpr::Operation(_) => (Err(ErrorKind::Database), pos),
        SqlExpr::Other(_) => (Err(ErrorKind::Argument), pos),
    }
}

/// `e` names column `index` in plain, unquoted form.
pub open spec fn names_column(e: SqlExpr, index: Seq<char>) -> bool {
    match e {
        SqlExpr::Identifier { value, quoted } => !quoted && value@ == index,
        _ => false,
    }
}

/// The top of `e`, inside any parentheses, is an equality one of whose
/// sides is the column `index`.
pub open spec fn is_index_eq(e: SqlExpr, index: Seq<char>) -> bool
    decreases e,
{
    match e {
        SqlExpr::Nested(inner) => is_index_eq(*inner, index),
        SqlExpr::BinaryOp { left, op, right } => op is Eq && (names_column(*left, index)
            || names_column(*right, index)),
        _ => false,
    }
}

/// The operand that the top of `e`, inside any parentheses, compares for
/// equality with the column `index`: the other side of `index = x` or
/// `x = index`.
pub open spec fn index_operand(e: SqlExpr, index: Seq<char>) -> Option<SqlExpr>
    decreases e,
{
    match e {
        SqlExpr::Nested(inner) => index_operand(*inner, index),
        SqlExpr::BinaryOp { left, op, right } => if !(op is Eq) {
            None
        } else if names_column(*left, index) {
            Some(*right)
        } else if names_column(*right, index) {
            Some(*left)
        } else {
            None
        },
        _ => None,
    }
}

fn is_question_mark(p: &String) -> (r: bool)
    ensures
        r == is_positional(p@),
{
    let s = p.as_str();
    let r = s.unicode_len() == 1 && s.get_char(0) == '?';
    assert(r ==> s@ =~= seq!['?']);
    r
}

/// The JSON value of a literal; a placeholder `?` takes the parameter at
/// `*pos` and moves `*pos` on.
pub fn sql_parser_and_param_value_to_json(value: &SqlValue, params: &Vec<Value>, pos: &mut usize) -> (r: Result<JsonValue>)
    ensures
        outcome_is(r, literal_json(*value, params@, *old(pos) as nat).0),
        *final(pos) == literal_json(*value, params@, *old(pos) as nat).1,
        r is Ok ==> r->Ok_0.wf(),
{
    match value {
        SqlValue::Number { text, float_bits } => match parse_i64(text.as_str()) {
            Some(n) => if n < 0 {
                Ok(JsonValue::NegInt(n))
            } else {
                Ok(JsonValue::UInt(n as u64))
            },
            None => match float_bits {
                Some(b) => Ok(f64_to_json(*b)),
                None => Err(Error::Argument(owned("cannot parse a number literal"))),
            },
        },
        SqlValue::SingleQuotedString(s) => Ok(JsonValue::Str(s.clone())),
        SqlValue::DoubleQuotedString(s) => Ok(JsonValue::Str(s.clone())),
        SqlValue::Boolean(b) => Ok(JsonValue::Bool(*b)),
        SqlValue::Placeholder(p) => {
            if !is_question_mark(p) {
                return Err(Error::Argument(owned("only the placeholder ? is supported")));
            }
            if *pos >= params.len() {
                return Err(Error::Argument(owned("a placeholder has no parameter")));
            }
            let r = param_value_to_json(&params[*pos]);
            *pos = *pos + 1;
            r
        },
        SqlValue::Other(_) => Err(Error::Argument(owned("unsupported literal"))),
    }
}

/// Applies `op` to two values; only equality is supported.
pub fn binop(l: &JsonValue, r: &JsonValue, op: &BinaryOperator) -> (res: Result<JsonValue>)
    ensures
        outcome_is(res, binop_result(*l, *r, *op)),
{
    match op {
        BinaryOperator::Eq => Ok(JsonValue::Bool(json_equals(l, r))),
        BinaryOperator::Other(_) => Err(Error::Database(owned("unsupported operator"))),
    }
}

/// The value of `expr` on `record`, reading placeholders from `params` at
/// `*pos` on.
pub fn filter_by_cond(expr: &SqlExpr, record: &JsonObject, params: &Vec<Value>, pos: &mut usize) -> (r: Result<JsonValue>)
    ensures
        outcome_is(r, eval_expr(*expr, record.view_map(), params@, *old(pos) as nat).0),
        *final(pos) == eval_expr(*expr, record.view_map(), params@, *old(pos) as nat).1,
    decreases expr,
{
    match expr {
        SqlExpr::Identifier { value, .. } => match record.get(value.as_str()) {
            Some(v) => Ok(copy_json(v)),
            None => Err(Error::Argument(owned("no such column in record"))),
        },
        SqlExpr::BinaryOp { left, op, right } => {
            let l = filter_by_cond(left, record, params, pos);
            match l {
                Err(e) => Err(e),
                Ok(lv) => {
                    let r = filter_by_cond(right, record, params, pos);
                    match r {
                        Err(e) => Err(e),
                        Ok(rv) => binop(&lv, &rv, op),
                    }
                },
            }
        },
        SqlExpr::Nested(inner) => filter_by_cond(inner, record, params, pos),
        SqlExpr::Value(v) => sql_parser_and_param_value_to_json(v, params, pos),
        SqlExpr::Operation(_) => Err(Error::Database(owned("unsupported operator"))),
        SqlExpr::Other(_) => Err(Error::Argument(owned("unsupported filter syntax"))),
    }
}

fn is_column(e: &SqlExpr, index: &str) -> (r: bool)
    ensures
        r == names_column(*e, index@),
{
    match e {
        SqlExpr::Identifier { value, quoted } => !*quoted && crate::strings::eq_str(value.as_str(), index),
        _ => false,
    }
}

/// Whether `expr` is, inside any parentheses, an equality with the column
/// `index` on one side: the shape that allows a point lookup.
pub fn first_expr_is_index_eq(expr: &SqlExpr, index: &str) -> (r: bool)
    ensures
        r == is_index_eq(*expr, index@),
    decreases expr,
{
    match expr {
        SqlExpr::Nested(inner) => first_expr_is_index_eq(inner, index),
        SqlExpr::BinaryOp { left, op, right } => {
            let eq = match op {
                BinaryOperator::Eq => true,
                BinaryOperator::Other(_) => false,
            };
            eq && (is_column(left, index) || is_column(right, index))
        },
        _ => false,
    }
}

/// The operand that `expr`, inside any parentheses, compares for equality
/// with the column `index`, if it is such an equality.
pub fn equality_operand<'a>(expr: &'a SqlExpr, index: &str) -> (r: Option<&'a SqlExpr>)
    ensures
        r is Some <==> index_operand(*expr, index@) is Some,
        r is Some ==> *r->0 == index_operand(*expr, index@)->0,
    decreases expr,
{
    match expr {
        SqlExpr::Nested(inner) => equality_operand(inner, index),
        SqlExpr::BinaryOp { left, op, right } => {
            if let BinaryOperator::Other(_) = op {
                return None;
            }
            if is_column(left, index) {
                Some(&**right)
            } else if is_column(right, index) {
                Some(&**left)
            } else {
                None
            }
        },
        _ => None,
    }
}

/// Whether `p` is the placeholder `?`.
pub fn is_positional_placeholder(p: &String) -> (r: bool)
    ensures
        r == is_positional(p@),
{
    is_question_mark(p)
}

/// The text of an index value read from a record; the index is textual, so
/// any other JSON value is an Argument error.
pub fn require_index_from_json_value(value: &JsonValue) -> (r: Result<String>)
    ensures
        r is Ok <==> value is Str,
        r is Ok ==> r->Ok_0@ == value->Str_0@,
        r is Err ==> r->Err_0.kind() == ErrorKind::Argument,
{
    match value {
        JsonValue::Str(s) => Ok(s.clone()),
        _ => Err(Error::Argument(owned("the index value must be a string"))),
    }
}

/// The text of an index value given as a parameter; any other value is an
/// Argument error.
pub fn require_index_param(value: &Value) -> (r: Result<String>)
    ensures
        r is Ok <==> value is Str,
        r is Ok ==> r->Ok_0@ == value->Str_0@,
        r is Err ==> r->Err_0.kind() == ErrorKind::Argument,
{
    match value {
        Value::Str(s) => Ok(s.clone()),
        _ => Err(Error::Argument(owned("the index parameter must be a string"))),
    }
}

/// A WHERE clause `col = ?` whose parameter is the string `x` holds of a
/// record exactly when the record's `col` is the string `x`; a record
/// without `col` is an Argument error.
pub proof fn lemma_column_equals_parameter(
    col: String,
    quoted: bool,
    placeholder: String,
    x: String,
    rec: Map<Seq<char>, JsonValue>,
    rest: Seq<Value>,
)
    requires
        is_positional(placeholder@),
    ensures
        ({
            let cond = SqlExpr::BinaryOp {
                left: Box::new(SqlExpr::Identifier { value: col, quoted }),
                op: BinaryOperator::Eq,
                right: Box::new(SqlExpr::Value(SqlValue::Placeholder(placeholder))),
            };
            let r = eval_expr(cond, rec, seq![Value::Str(x)] + rest, 0).0;
            &&& rec.contains_key(col@) ==> r == Ok::<JsonValue, ErrorKind>(
                JsonValue::Bool(rec[col@] is Str && rec[col@]->Str_0@ == x@),
            )
            &&& !rec.contains_key(col@) ==> r == Err::<JsonValue, ErrorKind>(ErrorKind::Argument)
        }),
{
    let params = seq![Value::Str(x)] + rest;
    assert(params[0] == Value::Str(x));
    let left = SqlExpr::Identifier { value: col, quoted };
    let right = SqlExpr::Value(SqlValue::Placeholder(placeholder));
    let l = eval_expr(left, rec, params, 0);
    let r = eval_expr(right, rec, params, 0);
    assert(r == (Ok::<JsonValue, ErrorKind>(JsonValue::Str(x)), 1nat));
    if rec.contains_key(col@) {
        assert(l == (Ok::<JsonValue, ErrorKind>(rec[col@]), 0nat));
    } else {
        assert(l == (Err::<JsonValue, ErrorKind>(ErrorKind::Argument), 0nat));
    }
}

/// Equality is the only operator: a binary operator other than `=` whose
/// operands evaluate, and every other operator (LIKE, IN, BETWEEN, IS, NOT
/// and the like), is a Database error.
pub proof fn lemma_only_equality_is_supported(
    left: SqlExpr,
    op_text: String,
    right: SqlExpr,
    operation: String,
    rec: Map<Seq<char>, JsonValue>,
    params: Seq<Value>,
    pos: nat,
)
    ensures
        eval_expr(SqlExpr::Operation(operation), rec, params, pos).0 == Err::<JsonValue, ErrorKind>(
            ErrorKind::Database,
        ),
        ({
            let e = SqlExpr::BinaryOp {
                left: Box::new(left),
                op: BinaryOperator::Other(op_text),
                right: Box::new(right),
            };
            let (l, p1) = eval_expr(left, rec, params, pos);
            l is Ok && eval_expr(right, rec, params, p1).0 is Ok ==> eval_expr(e, rec, params, pos).0
                == Err::<JsonValue, ErrorKind>(ErrorKind::Database)
        }),
{
}

} // verus!
