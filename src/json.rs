//! The JSON values that records of the key-value backend are made of, and
//! their conversions to and from [`Value`].

use vstd::prelude::*;
use crate::error::{Error, ErrorKind, Result, outcome_is};
use crate::strings::{eq_str, owned};
use crate::value::{Value, int_of};
use crate::assoc::{assoc_find, assoc_map};

verus! {

/// A JSON value. Numbers keep serde_json's three kinds apart: non-negative
/// integers, negative integers and finite floats (by their `f64` bits).
/// Nested arrays and objects are held by their member count and their
/// compact JSON text, written with object keys in sorted order, so that two
/// of them are equal exactly when their texts are.
#[derive(Debug)]
pub enum JsonValue {
    Null,
    Bool(bool),
    /// A non-negative integer.
    UInt(u64),
    /// A negative integer.
    NegInt(i64),
    /// A finite float, by its `f64` bits.
    Float(u64),
    Str(String),
    Array { len: usize, text: String },
    Object { len: usize, text: String },
}

/// The `f64` with bits `b` is finite.
pub open spec fn f64_is_finite(b: u64) -> bool {
    (b / 0x10_0000_0000_0000) % 0x800 != 0x7ff
}

/// The `f64` with bits `b` is zero (of either sign).
pub open spec fn f64_is_zero(b: u64) -> bool {
    b % 0x8000_0000_0000_0000 == 0
}

impl JsonValue {
    /// Numbers are of the right kind.
    pub open spec fn wf(&self) -> bool {
        match self {
            JsonValue::NegInt(n) => *n < 0,
            JsonValue::Float(b) => f64_is_finite(*b),
            _ => true,
        }
    }
}

/// The JSON number of a signed integer.
pub open spec fn json_of_i64(n: i64) -> JsonValue {
    if n < 0 {
        JsonValue::NegInt(n)
    } else {
        JsonValue::UInt(n as u64)
    }
}

/// The JSON value of an `f64`: a number when finite, else null.
pub open spec fn json_of_f64(b: u64) -> JsonValue {
    if f64_is_finite(b) {
        JsonValue::Float(b)
    } else {
        JsonValue::Null
    }
}

/// Doubles a subnormal `f32` significand until its leading bit is bit 23,
/// counting the doublings.
pub open spec fn normalized(m: nat, k: nat) -> (nat, nat)
    decreases 23 - k,
{
    if k >= 23 || m == 0 || m >= 0x80_0000 {
        (m, k)
    } else {
        normalized(2 * m, k + 1)
    }
}

/// The bits of the `f64` that equals the `f32` with bits `b`.
pub open spec fn f32_widened(b: u32) -> u64 {
    let sign = (b / 0x8000_0000) as nat;
    let exp = ((b / 0x80_0000) % 0x100) as nat;
    let man = (b % 0x80_0000) as nat;
    let (field, frac) = if exp == 0xff {
        (0x7ff as nat, man * 0x2000_0000)
    } else if exp == 0 && man == 0 {
        (0 as nat, 0 as nat)
    } else if exp == 0 {
        let (m, k) = normalized(man, 0);
        ((897 - k) as nat, (m % 0x80_0000) * 0x2000_0000)
    } else {
        (exp + 896, man * 0x2000_0000)
    };
    (sign * 0x8000_0000_0000_0000 + field * 0x10_0000_0000_0000 + frac) as u64
}

/// What a parameter becomes in a record; bytes have no JSON form.
pub open spec fn param_json(v: Value) -> core::result::Result<JsonValue, ErrorKind> {
    match v {
        Value::Null => Ok(JsonValue::Null),
        Value::Bool(b) => Ok(JsonValue::Bool(b)),
        Value::U8(n) => Ok(JsonValue::UInt(n as u64)),
        Value::I8(n) => Ok(json_of_i64(n as i64)),
        Value::U16(n) => Ok(JsonValue::UInt(n as u64)),
        Value::I16(n) => Ok(json_of_i64(n as i64)),
        Value::U32(n) => Ok(JsonValue::UInt(n as u64)),
        Value::I32(n) => Ok(json_of_i64(n as i64)),
        Value::U64(n) => Ok(JsonValue::UInt(n)),
        Value::I64(n) => Ok(json_of_i64(n)),
        Value::F32(b) => Ok(json_of_f64(f32_widened(b))),
        Value::F64(b) => Ok(json_of_f64(b)),
        Value::Str(s) => Ok(JsonValue::Str(s)),
        Value::Bytes(_) => Err(ErrorKind::Argument),
    }
}

/// What a field of a record becomes in a row; nested arrays and objects
/// have no value form.
pub open spec fn json_value(j: JsonValue) -> core::result::Result<Value, ErrorKind> {
    match j {
        JsonValue::Null => Ok(Value::Null),
        JsonValue::Bool(b) => Ok(Value::Bool(b)),
        JsonValue::UInt(n) => Ok(Value::U64(n)),
        JsonValue::NegInt(n) => Ok(Value::I64(n)),
        JsonValue::Float(b) => Ok(Value::F64(b)),
        JsonValue::Str(s) => Ok(Value::Str(s)),
        JsonValue::Array { .. } => Err(ErrorKind::FromValue),
        JsonValue::Object { .. } => Err(ErrorKind::FromValue),
    }
}

/// The truth of a JSON value: null is false, numbers are true when nonzero,
/// strings, arrays and objects when not empty.
pub open spec fn truthy(j: JsonValue) -> bool {
    match j {
        JsonValue::Null => false,
        JsonValue::Bool(b) => b,
        JsonValue::UInt(n) => n != 0,
        JsonValue::NegInt(n) => n != 0,
        JsonValue::Float(b) => !f64_is_zero(b),
        JsonValue::Str(s) => s@.len() > 0,
        JsonValue::Array { len, .. } => len > 0,
        JsonValue::Object { len, .. } => len > 0,
    }
}

/// JSON equality: numbers of different kinds differ, floats compare as
/// numbers (so the two zeros are equal), containers compare by their text.
pub open spec fn json_eq(a: JsonValue, b: JsonValue) -> bool {
    match (a, b) {
        (JsonValue::Null, JsonValue::Null) => true,
        (JsonValue::Bool(x), JsonValue::Bool(y)) => x == y,
        (JsonValue::UInt(x), JsonValue::UInt(y)) => x == y,
        (JsonValue::NegInt(x), JsonValue::NegInt(y)) => x == y,
        (JsonValue::Float(x), JsonValue::Float(y)) => x == y || (f64_is_zero(x) && f64_is_zero(y)),
        (JsonValue::Str(x), JsonValue::Str(y)) => x@ == y@,
        (JsonValue::Array { text: x, .. }, JsonValue::Array { text: y, .. }) => x@ == y@,
        (JsonValue::Object { text: x, .. }, JsonValue::Object { text: y, .. }) => x@ == y@,
        _ => false,
    }
}

/// A copy of `j`.
pub fn copy_json(j: &JsonValue) -> (r: JsonValue)
    ensures
        r == *j,
{
    match j {
        JsonValue::Null => JsonValue::Null,
        JsonValue::Bool(b) => JsonValue::Bool(*b),
        JsonValue::UInt(n) => JsonValue::UInt(*n),
        JsonValue::NegInt(n) => JsonValue::NegInt(*n),
        JsonValue::Float(b) => JsonValue::Float(*b),
        JsonValue::Str(s) => JsonValue::Str(s.clone()),
        JsonValue::Array { len, text } => JsonValue::Array { len: *len, text: text.clone() },
        JsonValue::Object { len, text } => JsonValue::Object { len: *len, text: text.clone() },
    }
}

fn i64_to_json(n: i64) -> (r: JsonValue)
    ensures
        r == json_of_i64(n),
{
    if n < 0 {
        JsonValue::NegInt(n)
    } else {
        JsonValue::UInt(n as u64)
    }
}

/// The JSON value of the `f64` with bits `bits`: null when it is not finite.
pub fn f64_to_json(bits: u64) -> (r: JsonValue)
    ensures
        r == json_of_f64(bits),
        r.wf(),
{
    if (bits / 0x10_0000_0000_0000) % 0x800 != 0x7ff {
        JsonValue::Float(bits)
    } else {
        JsonValue::Null
    }
}

/// The bits of the `f64` equal to the `f32` with bits `bits`.
pub fn widen_f32(bits: u32) -> (r: u64)
    ensures
        r == f32_widened(bits),
{
    let sign = (bits / 0x8000_0000) as u64;
    let exp = ((bits / 0x80_0000) % 0x100) as u64;
    let man = (bits % 0x80_0000) as u64;
    let field: u64;
    let frac: u64;
    if exp == 0xff {
        field = 0x7ff;
        frac = man * 0x2000_0000;
    } else if exp == 0 && man == 0 {
        field = 0;
        frac = 0;
    } else if exp == 0 {
        let mut m: u64 = man;
        let mut k: u64 = 0;
        while k < 23 && m != 0 && m < 0x80_0000
            invariant
                k <= 23,
                m < 0x100_0000,
                normalized(man as nat, 0) == normalized(m as nat, k as nat),
            decreases 23 - k,
        {
            m = 2 * m;
            k = k + 1;
        }
        field = 897 - k;
        frac = (m % 0x80_0000) * 0x2000_0000;
    } else {
        field = exp + 896;
        frac = man * 0x2000_0000;
    }
    sign * 0x8000_0000_0000_0000 + field * 0x10_0000_0000_0000 + frac
}

/// The JSON form of a parameter; bytes are refused with an Argument error.
pub fn param_value_to_json(param: &Value) -> (r: Result<JsonValue>)
    ensures
        outcome_is(r, param_json(*param)),
        r is Ok ==> r->Ok_0.wf(),
{
    match param {
        Value::Null => Ok(JsonValue::Null),
        Value::Bool(b) => Ok(JsonValue::Bool(*b)),
        Value::U8(n) => Ok(JsonValue::UInt(*n as u64)),
        Value::I8(n) => Ok(i64_to_json(*n as i64)),
        Value::U16(n) => Ok(JsonValue::UInt(*n as u64)),
        Value::I16(n) => Ok(i64_to_json(*n as i64)),
        Value::U32(n) => Ok(JsonValue::UInt(*n as u64)),
        Value::I32(n) => Ok(i64_to_json(*n as i64)),
        Value::U64(n) => Ok(JsonValue::UInt(*n)),
        Value::I64(n) => Ok(i64_to_json(*n)),
        Value::F32(b) => Ok(f64_to_json(widen_f32(*b))),
        Value::F64(b) => Ok(f64_to_json(*b)),
        Value::Str(s) => Ok(JsonValue::Str(s.clone())),
        Value::Bytes(_) => Err(Error::Argument(owned("bytes cannot be a parameter of this backend"))),
    }
}

/// The value of a record field; nested arrays and objects are refused with a
/// FromValue error.
pub fn json_value_to_rorm_value(json: &JsonValue) -> (r: Result<Value>)
    ensures
        outcome_is(r, json_value(*json)),
{
    match json {
        JsonValue::Null => Ok(Value::Null),
        JsonValue::Bool(b) => Ok(Value::Bool(*b)),
        JsonValue::UInt(n) => Ok(Value::U64(*n)),
        JsonValue::NegInt(n) => Ok(Value::I64(*n)),
        JsonValue::Float(b) => Ok(Value::F64(*b)),
        JsonValue::Str(s) => Ok(Value::Str(s.clone())),
        JsonValue::Array { .. } => Err(Error::FromValue(owned("an array has no value form"))),
        JsonValue::Object { .. } => Err(Error::FromValue(owned("an object has no value form"))),
    }
}

/// The truth of a JSON value, as a WHERE clause reads it.
pub fn json_to_bool(value: &JsonValue) -> (r: bool)
    ensures
        r == truthy(*value),
{
    match value {
        JsonValue::Null => false,
        JsonValue::Bool(b) => *b,
        JsonValue::UInt(n) => *n != 0,
        JsonValue::NegInt(n) => *n != 0,
        JsonValue::Float(b) => *b % 0x8000_0000_0000_0000 != 0,
        JsonValue::Str(s) => s.as_str().unicode_len() > 0,
        JsonValue::Array { len, .. } => *len > 0,
        JsonValue::Object { len, .. } => *len > 0,
    }
}

/// JSON equality of two values.
pub fn json_equals(a: &JsonValue, b: &JsonValue) -> (r: bool)
    ensures
        r == json_eq(*a, *b),
{
    match (a, b) {
        (JsonValue::Null, JsonValue::Null) => true,
        (JsonValue::Bool(x), JsonValue::Bool(y)) => *x == *y,
        (JsonValue::UInt(x), JsonValue::UInt(y)) => *x == *y,
        (JsonValue::NegInt(x), JsonValue::NegInt(y)) => *x == *y,
        (JsonValue::Float(x), JsonValue::Float(y)) => {
            *x == *y || (*x % 0x8000_0000_0000_0000 == 0 && *y % 0x8000_0000_0000_0000 == 0)
        },
        (JsonValue::Str(x), JsonValue::Str(y)) => eq_str(x.as_str(), y.as_str()),
        (JsonValue::Array { text: x, .. }, JsonValue::Array { text: y, .. }) => {
            eq_str(x.as_str(), y.as_str())
        },
        (JsonValue::Object { text: x, .. }, JsonValue::Object { text: y, .. }) => {
            eq_str(x.as_str(), y.as_str())
        },
        _ => false,
    }
}

/// A record: a JSON object of named fields.
#[derive(Debug)]
pub struct JsonObject {
    pub entries: Vec<(String, JsonValue)>,
}

impl JsonObject {
    /// The fields as a map.
    pub open spec fn view_map(&self) -> Map<Seq<char>, JsonValue> {
        assoc_map(self.entries@)
    }

    /// An object without fields.
    pub fn new() -> (r: JsonObject)
        ensures
            r.view_map() == Map::<Seq<char>, JsonValue>::empty(),
    {
        JsonObject { entries: Vec::new() }
    }

    /// The field named `key`, if there is one.
    pub fn get(&self, key: &str) -> (r: Option<&JsonValue>)
        ensures
            r is Some <==> self.view_map().contains_key(key@),
            r is Some ==> *r->0 == self.view_map()[key@],
    {
        match assoc_find(&self.entries, key) {
            Some(i) => Some(&self.entries[i].1),
            None => None,
        }
    }

    /// Sets the field named `key` to `value`, replacing an earlier one.
    pub fn insert(&mut self, key: String, value: JsonValue)
        ensures
            final(self).view_map() == old(self).view_map().insert(key@, value),
    {
        let mut kept: Vec<(String, JsonValue)> = Vec::new();
        let mut i: usize = 0;
        while i < self.entries.len()
            invariant
                i <= self.entries@.len(),
                assoc_map(kept@) == assoc_map(self.entries@.subrange(0, i as int)).remove(key@),
            decreases self.entries@.len() - i,
        {
            let ghost pre = self.entries@.subrange(0, i as int);
            assert(self.entries@.subrange(0, i + 1).drop_last() =~= pre);
            if !eq_str(self.entries[i].0.as_str(), key.as_str()) {
                let e = (self.entries[i].0.clone(), copy_json(&self.entries[i].1));
                let ghost prev = kept@;
                kept.push(e);
                assert(kept@.drop_last() =~= prev);
                assert(assoc_map(kept@) =~= assoc_map(self.entries@.subrange(0, i + 1)).remove(key@));
            } else {
                assert(assoc_map(kept@) =~= assoc_map(self.entries@.subrange(0, i + 1)).remove(key@));
            }
            i = i + 1;
        }
        assert(self.entries@.subrange(0, i as int) =~= self.entries@);
        let ghost before = kept@;
        kept.push((key, value));
        assert(kept@.drop_last() =~= before);
        assert(assoc_map(kept@) =~= old(self).view_map().insert(key@, value));
        self.entries = kept;
    }
}

/// A value taken to JSON and back is the same value when it is null, a
/// boolean, a string, a `u64`, a negative `i64` or a finite `f64`; every
/// other integer comes back as the same number, in the widest integer type
/// of its sign.
pub proof fn lemma_json_round_trip(v: Value)
    requires
        !(v is Bytes),
        !(v is F32),
        v is F64 ==> f64_is_finite(v->F64_0),
    ensures
        param_json(v) is Ok,
        json_value(param_json(v)->Ok_0) is Ok,
        ({
            let w = json_value(param_json(v)->Ok_0)->Ok_0;
            &&& (v is Null || v is Bool || v is Str || v is U64 || v is F64
                || (v is I64 && v->I64_0 < 0)) ==> w == v
            &&& int_of(v) is Some ==> int_of(w) == int_of(v)
        }),
{
}

} // verus!
