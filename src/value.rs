//! Primitive database values, and rows of them.

use vstd::prelude::*;
use crate::assoc::{assoc_find, assoc_map};
use crate::error::{Error, ErrorKind, Result};
use crate::strings::owned;

verus! {

/// A primitive database value. Floating-point values are held as their
/// IEEE-754 bit patterns.
#[derive(Debug, Clone, PartialEq, Eq)]
pub enum Value {
    Null,
    Bool(bool),
    U8(u8),
    I8(i8),
    U16(u16),
    I16(i16),
    U32(u32),
    I32(i32),
    U64(u64),
    I64(i64),
    /// The bits of an `f32`.
    F32(u32),
    /// The bits of an `f64`.
    F64(u64),
    Str(String),
    Bytes(Vec<u8>),
}

/// The integer that a value holds, if it holds one.
pub open spec fn int_of(v: Value) -> Option<int> {
    match v {
        Value::U8(n) => Some(n as int),
        Value::I8(n) => Some(n as int),
        Value::U16(n) => Some(n as int),
        Value::I16(n) => Some(n as int),
        Value::U32(n) => Some(n as int),
        Value::I32(n) => Some(n as int),
        Value::U64(n) => Some(n as int),
        Value::I64(n) => Some(n as int),
        _ => None,
    }
}

/// The integer that a value holds, widened to `i128`.
pub fn integer_of(v: &Value) -> (r: Option<i128>)
    ensures
        r is Some <==> int_of(*v) is Some,
        r is Some ==> r->0 as int == int_of(*v)->0,
{
    match v {
        Value::U8(n) => Some(*n as i128),
        Value::I8(n) => Some(*n as i128),
        Value::U16(n) => Some(*n as i128),
        Value::I16(n) => Some(*n as i128),
        Value::U32(n) => Some(*n as i128),
        Value::I32(n) => Some(*n as i128),
        Value::U64(n) => Some(*n as i128),
        Value::I64(n) => Some(*n as i128),
        _ => None,
    }
}

fn mismatch() -> (r: Error)
    ensures
        r.kind() == ErrorKind::FromValue,
{
    Error::FromValue(owned("the value has another type"))
}

/// A type that a value can be read as.
pub trait FromValue: Sized {
    /// The reading of `v`, or `None` when `v` is of another type.
    spec fn decoded(v: Value) -> Option<Self>;

    /// Reads `v`; a value of another type is a FromValue error.
    fn from_value(v: &Value) -> (r: Result<Self>)
        ensures
            r is Ok <==> Self::decoded(*v) is Some,
            r is Ok ==> r->Ok_0 == Self::decoded(*v)->0,
            r is Err ==> r->Err_0.kind() == ErrorKind::FromValue,
    ;
}

/// A type whose values are database values.
pub trait ToValue: Sized {
    /// The value of `x`.
    spec fn encoded(x: Self) -> Value;

    fn to_value(&self) -> (r: Value)
        ensures
            r == Self::encoded(*self),
    ;
}

impl FromValue for bool {
    /// A boolean, or an integer read as `true` when nonzero.
    open spec fn decoded(v: Value) -> Option<bool> {
        match v {
            Value::Bool(b) => Some(b),
            _ => match int_of(v) {
                Some(n) => Some(n != 0),
                None => None,
            },
        }
    }

    fn from_value(v: &Value) -> (r: Result<bool>) {
        if let Value::Bool(b) = v {
            return Ok(*b);
        }
        match integer_of(v) {
            Some(n) => Ok(n != 0),
            None => Err(mismatch()),
        }
    }
}

impl FromValue for String {
    open spec fn decoded(v: Value) -> Option<String> {
        match v {
            Value::Str(s) => Some(s),
            _ => None,
        }
    }

    fn from_value(v: &Value) -> (r: Result<String>) {
        match v {
            Value::Str(s) => Ok(s.clone()),
            _ => Err(mismatch()),
        }
    }
}

impl<T: FromValue> FromValue for Option<T> {
    /// Null reads as `None`, anything else as the reading of `T`.
    open spec fn decoded(v: Value) -> Option<Option<T>> {
        match v {
            Value::Null => Some(None),
            _ => match T::decoded(v) {
                Some(x) => Some(Some(x)),
                None => None,
            },
        }
    }

    fn from_value(v: &Value) -> (r: Result<Option<T>>) {
        match v {
            Value::Null => Ok(None),
            _ => match T::from_value(v) {
                Ok(x) => Ok(Some(x)),
                Err(e) => Err(e),
            },
        }
    }
}

impl FromValue for u8 {
    /// Any integer, converted as Rust's `as` converts it.
    open spec fn decoded(v: Value) -> Option<u8> {
        match int_of(v) {
            Some(n) => Some(n as u8),
            None => None,
        }
    }

    fn from_value(v: &Value) -> (r: Result<u8>) {
        match integer_of(v) {
            Some(n) => Ok(n as u8),
            None => Err(mismatch()),
        }
    }
}

impl FromValue for i8 {
    /// Any integer, converted as Rust's `as` converts it.
    open spec fn decoded(v: Value) -> Option<i8> {
        match int_of(v) {
            Some(n) => Some(n as i8),
            None => None,
        }
    }

    fn from_value(v: &Value) -> (r: Result<i8>) {
        match integer_of(v) {
            Some(n) => Ok(n as i8),
            None => Err(mismatch()),
        }
    }
}

impl FromValue for u16 {
    /// Any integer, converted as Rust's `as` converts it.
    open spec fn decoded(v: Value) -> Option<u16> {
        match int_of(v) {
            Some(n) => Some(n as u16),
            None => None,
        }
    }

    fn from_value(v: &Value) -> (r: Result<u16>) {
        match integer_of(v) {
            Some(n) => Ok(n as u16),
            None => Err(mismatch()),
        }
    }
}

impl FromValue for i16 {
    /// Any integer, converted as Rust's `as` converts it.
    open spec fn decoded(v: Value) -> Option<i16> {
        match int_of(v) {
            Some(n) => Some(n as i16),
            None => None,
        }
    }

    fn from_value(v: &Value) -> (r: Result<i16>) {
        match integer_of(v) {
            Some(n) => Ok(n as i16),
            None => Err(mismatch()),
        }
    }
}

impl FromValue for u32 {
    /// Any integer, converted as Rust's `as` converts it.
    open spec fn decoded(v: Value) -> Option<u32> {
        match int_of(v) {
            Some(n) => Some(n as u32),
            None => None,
        }
    }

    fn from_value(v: &Value) -> (r: Result<u32>) {
        match integer_of(v) {
            Some(n) => Ok(n as u32),
            None => Err(mismatch()),
        }
    }
}

impl FromValue for i32 {
    /// Any integer, converted as Rust's `as` converts it.
    open spec fn decoded(v: Value) -> Option<i32> {
        match int_of(v) {
            Some(n) => Some(n as i32),
            None => None,
        }
    }

    fn from_value(v: &Value) -> (r: Result<i32>) {
        match integer_of(v) {
            Some(n) => Ok(n as i32),
            None => Err(mismatch()),
        }
    }
}

impl FromValue for u64 {
    /// Any integer, converted as Rust's `as` converts it.
    open spec fn decoded(v: Value) -> Option<u64> {
        match int_of(v) {
            Some(n) => Some(n as u64),
            None => None,
        }
    }

    fn from_value(v: &Value) -> (r: Result<u64>) {
        match integer_of(v) {
            Some(n) => Ok(n as u64),
            None => Err(mismatch()),
        }
    }
}

impl FromValue for i64 {
    /// Any integer, converted as Rust's `as` converts it.
    open spec fn decoded(v: Value) -> Option<i64> {
        match int_of(v) {
            Some(n) => Some(n as i64),
            None => None,
        }
    }

    fn from_value(v: &Value) -> (r: Result<i64>) {
        match integer_of(v) {
            Some(n) => Ok(n as i64),
            None => Err(mismatch()),
        }
    }
}

impl ToValue for u8 {
    open spec fn encoded(x: u8) -> Value {
        Value::U8(x)
    }

    fn to_value(&self) -> (r: Value) {
        Value::U8(*self)
    }
}

impl ToValue for i8 {
    open spec fn encoded(x: i8) -> Value {
        Value::I8(x)
    }

    fn to_value(&self) -> (r: Value) {
        Value::I8(*self)
    }
}

impl ToValue for u16 {
    open spec fn encoded(x: u16) -> Value {
        Value::U16(x)
    }

    fn to_value(&self) -> (r: Value) {
        Value::U16(*self)
    }
}

impl ToValue for i16 {
    open spec fn encoded(x: i16) -> Value {
        Value::I16(x)
    }

    fn to_value(&self) -> (r: Value) {
        Value::I16(*self)
    }
}

impl ToValue for u32 {
    open spec fn encoded(x: u32) -> Value {
        Value::U32(x)
    }

    fn to_value(&self) -> (r: Value) {
        Value::U32(*self)
    }
}

impl ToValue for i32 {
    open spec fn encoded(x: i32) -> Value {
        Value::I32(x)
    }

    fn to_value(&self) -> (r: Value) {
        Value::I32(*self)
    }
}

impl ToValue for u64 {
    open spec fn encoded(x: u64) -> Value {
        Value::U64(x)
    }

    fn to_value(&self) -> (r: Value) {
        Value::U64(*self)
    }
}

impl ToValue for i64 {
    open spec fn encoded(x: i64) -> Value {
        Value::I64(x)
    }

    fn to_value(&self) -> (r: Value) {
        Value::I64(*self)
    }
}

impl ToValue for bool {
    open spec fn encoded(x: bool) -> Value {
        Value::Bool(x)
    }

    fn to_value(&self) -> (r: Value) {
        Value::Bool(*self)
    }
}

impl ToValue for String {
    open spec fn encoded(x: String) -> Value {
        Value::Str(x)
    }

    fn to_value(&self) -> (r: Value) {
        Value::Str(self.clone())
    }
}

impl<T: ToValue> ToValue for Option<T> {
    /// `None` is null.
    open spec fn encoded(x: Option<T>) -> Value {
        match x {
            Some(v) => T::encoded(v),
            None => Value::Null,
        }
    }

    fn to_value(&self) -> (r: Value) {
        match self {
            Some(v) => v.to_value(),
            None => Value::Null,
        }
    }
}

/// One result record: column name to value.
#[derive(Debug)]
pub struct Row {
    pub values: Vec<(String, Value)>,
}

impl Row {
    /// The columns of the row as a map.
    pub open spec fn view_map(&self) -> Map<Seq<char>, Value> {
        assoc_map(self.values@)
    }

    /// The value of column `name`, or an OutOfRange error when the row has no
    /// such column.
    pub fn get_value(&self, name: &str) -> (r: Result<&Value>)
        ensures
            r is Ok <==> self.view_map().contains_key(name@),
            r is Ok ==> *r->Ok_0 == self.view_map()[name@],
            r is Err ==> r->Err_0.kind() == ErrorKind::OutOfRange,
    {
        match assoc_find(&self.values, name) {
            Some(i) => Ok(&self.values[i].1),
            None => Err(Error::OutOfRange(owned("no such column in row"))),
        }
    }

    /// The value of column `name` read as a `T`: an OutOfRange error when
    /// the row has no such column, a FromValue error when its value is of
    /// another type.
    pub fn get<T: FromValue>(&self, name: &str) -> (r: Result<T>)
        ensures
            !self.view_map().contains_key(name@) ==> r is Err && r->Err_0.kind() == ErrorKind::OutOfRange,
            self.view_map().contains_key(name@) ==> {
                let d = T::decoded(self.view_map()[name@]);
                &&& r is Ok <==> d is Some
                &&& r is Ok ==> r->Ok_0 == d->0
                &&& r is Err ==> r->Err_0.kind() == ErrorKind::FromValue
            },
    {
        let v = self.get_value(name)?;
        T::from_value(v)
    }
}

} // verus!
