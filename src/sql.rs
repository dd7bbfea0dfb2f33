//! The subset of a parsed SQL statement that the key-value backend reads.
//! Every construct it does not support is kept as a flag or as its SQL
//! text, so that it can be refused by name.

use vstd::prelude::*;
use crate::error::{Error, ErrorKind, Result};
use crate::strings::owned;

verus! {

/// A literal of a statement.
#[derive(Debug)]
pub enum SqlValue {
    /// A numeric literal: its text and, where the text reads as an `f64`,
    /// the bits of that float.
    Number { text: String, float_bits: Option<u64> },
    SingleQuotedString(String),
    DoubleQuotedString(String),
    Boolean(bool),
    /// A placeholder such as `?`.
    Placeholder(String),
    /// Any other literal, by its SQL text.
    Other(String),
}

/// A binary operator.
#[derive(Debug)]
pub enum BinaryOperator {
    Eq,
    /// Any other operator, by its SQL text.
    Other(String),
}

/// An expression.
#[derive(Debug)]
pub enum SqlExpr {
    /// A column name; `quoted` when it was written in quotes.
    Identifier { value: String, quoted: bool },
    Value(SqlValue),
    BinaryOp { left: Box<SqlExpr>, op: BinaryOperator, right: Box<SqlExpr> },
    /// An expression in parentheses.
    Nested(Box<SqlExpr>),
    /// An operator other than a binary one (LIKE, IN, BETWEEN, IS, NOT and
    /// the like), by its SQL text.
    Operation(String),
    /// Any other expression, such as a function call, by its SQL text.
    Other(String),
}

/// A table reference of a FROM, UPDATE or DELETE clause.
#[derive(Debug)]
pub enum TableFactor {
    /// A named table with the decorations it may carry.
    Table { name: String, has_alias: bool, has_args: bool, has_with_hints: bool },
    /// A derived table, a table function or a nested join, by its SQL text.
    Other(String),
}

/// A table reference with the joins that follow it.
#[derive(Debug)]
pub struct TableWithJoins {
    pub relation: TableFactor,
    pub has_joins: bool,
}

/// One `column = expr` of an UPDATE.
#[derive(Debug)]
pub struct Assignment {
    pub column: String,
    pub value: SqlExpr,
}

/// The rows of an INSERT.
#[derive(Debug)]
pub enum InsertSource {
    Values(Vec<Vec<SqlExpr>>),
    /// A query or another body in place of VALUES.
    Other,
}

/// An OFFSET clause; `has_rows_keyword` when `ROW` or `ROWS` follows it.
#[derive(Debug)]
pub struct Offset {
    pub value: SqlExpr,
    pub has_rows_keyword: bool,
}

/// The body of a SELECT.
#[derive(Debug)]
pub struct Select {
    pub distinct: bool,
    pub has_top: bool,
    pub from: Vec<TableWithJoins>,
    pub selection: Option<SqlExpr>,
}

/// What a query computes.
#[derive(Debug)]
pub enum SetExpr {
    Select(Select),
    /// A set operation, VALUES or another body.
    Other,
}

/// A query with its ordering and paging clauses.
#[derive(Debug)]
pub struct Query {
    pub has_with: bool,
    pub body: SetExpr,
    pub has_order_by: bool,
    pub limit: Option<SqlExpr>,
    pub offset: Option<Offset>,
    pub has_fetch: bool,
    pub has_locks: bool,
}

/// A statement.
#[derive(Debug)]
pub enum Statement {
    Insert {
        has_or: bool,
        into: bool,
        table_name: String,
        columns: Vec<String>,
        overwrite: bool,
        source: InsertSource,
        has_partitioned: bool,
        has_after_columns: bool,
        table: bool,
        has_on: bool,
        has_returning: bool,
    },
    Delete {
        table_name: TableFactor,
        has_using: bool,
        selection: Option<SqlExpr>,
        has_returning: bool,
    },
    Update {
        table: TableFactor,
        assignments: Vec<Assignment>,
        has_from: bool,
        selection: Option<SqlExpr>,
        has_returning: bool,
    },
    Query(Query),
    /// Any other statement, by its SQL text.
    Other(String),
}

/// The one statement of a parsed SQL text: a text that holds no statement or
/// more than one is refused with an Argument error.
pub fn parse_single(stmts: Vec<Statement>) -> (r: Result<Statement>)
    ensures
        r is Ok <==> stmts@.len() == 1,
        r is Ok ==> r->Ok_0 == stmts@[0],
        r is Err ==> r->Err_0.kind() == ErrorKind::Argument,
{
    let mut stmts = stmts;
    if stmts.len() > 1 {
        return Err(Error::Argument(owned("only one statement can be executed at once")));
    }
    match stmts.pop() {
        Some(s) => Ok(s),
        None => Err(Error::Argument(owned("received an empty statement"))),
    }
}

/// A decimal digit.
pub open spec fn is_digit(c: char) -> bool {
    '0' <= c <= '9'
}

/// The number that a string of decimal digits denotes.
pub open spec fn digits_value(s: Seq<char>) -> nat
    decreases s.len(),
{
    if s.len() == 0 {
        0
    } else {
        digits_value(s.drop_last()) * 10 + (s.last() as nat - 48) as nat
    }
}

/// One or more decimal digits.
pub open spec fn is_digits(s: Seq<char>) -> bool {
    s.len() > 0 && forall|i: int| 0 <= i < s.len() ==> is_digit(#[trigger] s[i])
}

/// The integer that `s` denotes as Rust's integer parsing reads it: an
/// optional `+` or `-` followed by decimal digits; `signed` says whether a
/// `-` is allowed.
pub open spec fn integer_text(s: Seq<char>, signed: bool) -> Option<int> {
    if s.len() > 0 && s[0] == '-' {
        if signed && is_digits(s.drop_first()) {
            Some(-digits_value(s.drop_first()))
        } else {
            None
        }
    } else if s.len() > 0 && s[0] == '+' {
        if is_digits(s.drop_first()) {
            Some(digits_value(s.drop_first()) as int)
        } else {
            None
        }
    } else if is_digits(s) {
        Some(digits_value(s) as int)
    } else {
        None
    }
}

/// What `s.parse::<i64>()` gives.
pub open spec fn parsed_i64(s: Seq<char>) -> Option<i64> {
    match integer_text(s, true) {
        Some(v) => if i64::MIN <= v <= i64::MAX {
            Some(v as i64)
        } else {
            None
        },
        None => None,
    }
}

/// What `s.parse::<usize>()` gives.
pub open spec fn parsed_usize(s: Seq<char>) -> Option<usize> {
    match integer_text(s, false) {
        Some(v) => if 0 <= v <= usize::MAX {
            Some(v as usize)
        } else {
            None
        },
        None => None,
    }
}

proof fn lemma_digits_prefix_le(s: Seq<char>, i: int)
    requires
        0 <= i <= s.len(),
        forall|j: int| 0 <= j < s.len() ==> is_digit(#[trigger] s[j]),
    ensures
        digits_value(s.subrange(0, i)) <= digits_value(s),
    decreases s.len() - i,
{
    if i < s.len() {
        lemma_digits_prefix_le(s, i + 1);
        let p = s.subrange(0, i + 1);
        assert(p.drop_last() =~= s.subrange(0, i));
        let a = digits_value(s.subrange(0, i));
        let d = (p.last() as nat - 48) as nat;
        assert(digits_value(p) == a * 10 + d);
        assert(a <= a * 10 + d) by (nonlinear_arith);
    } else {
        assert(s.subrange(0, i) =~= s);
    }
}

/// The value of the digits of `s` from `start` on, when they are all digits,
/// there is at least one, and the value fits in a `u64`.
fn digits_u64(s: &str, start: usize) -> (r: Option<u64>)
    requires
        start <= s@.len(),
    ensures
        ({
            let t = s@.subrange(start as int, s@.len() as int);
            &&& r is Some <==> (is_digits(t) && digits_value(t) <= u64::MAX)
            &&& r is Some ==> r->0 == digits_value(t)
        }),
{
    let n = s.unicode_len();
    let ghost t = s@.subrange(start as int, s@.len() as int);
    if start >= n {
        return None;
    }
    let mut acc: u64 = 0;
    let mut i: usize = start;
    while i < n
        invariant
            n == s@.len(),
            start <= i <= n,
            t == s@.subrange(start as int, n as int),
            forall|j: int| start <= j < i ==> is_digit(#[trigger] s@[j]),
            acc == digits_value(s@.subrange(start as int, i as int)),
        decreases n - i,
    {
        let c = s.get_char(i);
        assert(s@.subrange(start as int, i + 1).drop_last() =~= s@.subrange(start as int, i as int));
        if c < '0' || c > '9' {
            assert(!is_digit(t[i - start]));
            return None;
        }
        let d = (c as u32 - 48) as u64;
        let ghost v = digits_value(s@.subrange(start as int, i + 1));
        assert(forall|j: int| 0 <= j < i + 1 - start ==> is_digit(#[trigger] s@.subrange(start as int, i + 1)[j]));
        match acc.checked_mul(10) {
            Some(a) => match a.checked_add(d) {
                Some(b) => {
                    acc = b;
                },
                None => {
                    proof {
                        if is_digits(t) {
                            assert(t.subrange(0, i + 1 - start) =~= s@.subrange(start as int, i + 1));
                            lemma_digits_prefix_le(t, i + 1 - start);
                        }
                    }
                    return None;
                },
            },
            None => {
                proof {
                    if is_digits(t) {
                        assert(t.subrange(0, i + 1 - start) =~= s@.subrange(start as int, i + 1));
                        lemma_digits_prefix_le(t, i + 1 - start);
                    }
                }
                return None;
            },
        }
        i = i + 1;
    }
    assert(s@.subrange(start as int, n as int) =~= t);
    Some(acc)
}

/// `s.parse::<i64>()`.
pub fn parse_i64(s: &str) -> (r: Option<i64>)
    ensures
        r == parsed_i64(s@),
{
    let n = s.unicode_len();
    if n > 0 && s.get_char(0) == '-' {
        assert(s@.subrange(1, n as int) =~= s@.drop_first());
        match digits_u64(s, 1) {
            Some(m) => if m <= 0x8000_0000_0000_0000 {
                Some((0 - m as i128) as i64)
            } else {
                None
            },
            None => None,
        }
    } else if n > 0 && s.get_char(0) == '+' {
        assert(s@.subrange(1, n as int) =~= s@.drop_first());
        match digits_u64(s, 1) {
            Some(m) => if m <= 0x7fff_ffff_ffff_ffff {
                Some(m as i64)
            } else {
                None
            },
            None => None,
        }
    } else {
        assert(s@.subrange(0, n as int) =~= s@);
        match digits_u64(s, 0) {
            Some(m) => if m <= 0x7fff_ffff_ffff_ffff {
                Some(m as i64)
            } else {
                None
            },
            None => None,
        }
    }
}

/// `s.parse::<usize>()`.
pub fn parse_usize(s: &str) -> (r: Option<usize>)
    ensures
        r == parsed_usize(s@),
{
    let n = s.unicode_len();
    if n > 0 && s.get_char(0) == '-' {
        None
    } else if n > 0 && s.get_char(0) == '+' {
        assert(s@.subrange(1, n as int) =~= s@.drop_first());
        match digits_u64(s, 1) {
            Some(m) => if m as u128 <= usize::MAX as u128 {
                Some(m as usize)
            } else {
                None
            },
            None => None,
        }
    } else {
        assert(s@.subrange(0, n as int) =~= s@);
        match digits_u64(s, 0) {
            Some(m) => if m as u128 <= usize::MAX as u128 {
                Some(m as usize)
            } else {
                None
            },
            None => None,
        }
    }
}

} // verus!
