//! Fields of an entity model that a caller may leave unset.

use vstd::prelude::*;
use crate::value::{ToValue, Value};

verus! {

/// A model field: set to a value, or left out of the statement.
#[derive(Debug)]
pub enum ModelColumn<T> {
    NotSet,
    Assigned(T),
}

impl<T> ModelColumn<T> {
    /// Whether the field was set.
    pub fn is_set(&self) -> (r: bool)
        ensures
            r == (self is Assigned),
    {
        match self {
            ModelColumn::NotSet => false,
            ModelColumn::Assigned(_) => true,
        }
    }

    /// The value of the field, if it was set.
    pub fn into_option(self) -> (r: Option<T>)
        ensures
            r is Some <==> self is Assigned,
            r is Some ==> r->0 == self->Assigned_0,
    {
        match self {
            ModelColumn::NotSet => None,
            ModelColumn::Assigned(v) => Some(v),
        }
    }
}

impl<T> Default for ModelColumn<T> {
    /// A field starts unset.
    fn default() -> (r: Self)
        ensures
            r is NotSet,
    {
        ModelColumn::NotSet
    }
}

impl<T: ToValue> ToValue for ModelColumn<T> {
    /// An unset field is null.
    open spec fn encoded(x: ModelColumn<T>) -> Value {
        match x {
            ModelColumn::NotSet => Value::Null,
            ModelColumn::Assigned(v) => T::encoded(v),
        }
    }

    fn to_value(&self) -> (r: Value) {
        match self {
            ModelColumn::NotSet => Value::Null,
            ModelColumn::Assigned(v) => v.to_value(),
        }
    }
}

} // verus!
