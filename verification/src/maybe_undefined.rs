//! A field of an update that may be left out, unset, or given.
use vstd::prelude::*;

verus! {

/// The three states of a field in an update: explicitly unset (`Unset`),
/// given a value (`Value`), or left out of the update (`Undefined`). A field
/// that was left out asks for no change; an unset one asks for removal.
#[derive(Debug)]
pub enum MaybeUndefined<T> {
    Unset,
    Value(T),
    Undefined,
}

impl<T> MaybeUndefined<T> {
    /// Whether the field carries a value.
    pub fn is_some(&self) -> (given: bool)
        ensures
            given == (*self is Value),
    {
        match self {
            MaybeUndefined::Value(_) => true,
            _ => false,
        }
    }

    /// Whether the field was left out.
    pub fn is_undefined(&self) -> (absent: bool)
        ensures
            absent == (*self is Undefined),
    {
        match self {
            MaybeUndefined::Undefined => true,
            _ => false,
        }
    }

    /// The value of the field, if it carries one.
    pub fn to_option(self) -> (value: Option<T>)
        ensures
            value == match self {
                MaybeUndefined::Value(v) => Some(v),
                _ => None,
            },
    {
        match self {
            MaybeUndefined::Value(v) => Some(v),
            _ => None,
        }
    }
}

} // verus!
