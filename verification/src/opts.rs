//! The options that API functions take.

use crate::bridge::key_of;
use crate::object::{Dictionary, Object, Value};
use vstd::prelude::*;

verus! {

/// What is written for an option that is a truth value: nothing where it
/// is not set.
pub open spec fn with_flag(pairs: Seq<(Value, Value)>, name: &str, flag: Option<bool>) -> Seq<
    (Value, Value),
> {
    match flag {
        Some(b) => pairs.push((key_of(name), Value::Boolean(b))),
        None => pairs,
    }
}

/// What is written for an option that is a number: nothing where it is
/// not set.
pub open spec fn with_number(pairs: Seq<(Value, Value)>, name: &str, number: Option<u32>) -> Seq<
    (Value, Value),
> {
    match number {
        Some(n) => pairs.push((key_of(name), Value::Integer(n as i64))),
        None => pairs,
    }
}

/// The options of `Buffer::get_extmark_by_id`.
#[derive(Clone, Copy, Debug, PartialEq, Eq, Hash)]
pub struct GetExtmarkByIdOpts {
    /// Whether the details of the extmark are returned too.
    pub details: Option<bool>,
}

impl GetExtmarkByIdOpts {
    /// The pairs that the options are written as.
    pub open spec fn pairs(self) -> Seq<(Value, Value)> {
        with_flag(Seq::empty(), "details", self.details)
    }

    /// The options as a dictionary.
    pub fn to_dictionary(&self) -> (dict: Dictionary)
        ensures
            dict@ == self.pairs(),
    {
        let mut dict = Dictionary::new();
        if let Some(details) = self.details {
            dict.insert("details", Object::Boolean(details));
        }
        dict
    }
}

/// The options of `Buffer::get_extmarks`.
#[derive(Clone, Copy, Debug, PartialEq, Eq, Hash)]
pub struct GetExtmarksOpts {
    /// Whether the details of each extmark are returned too.
    pub details: Option<bool>,
    /// The greatest number of extmarks to return.
    pub limit: Option<u32>,
}

impl GetExtmarksOpts {
    /// The pairs that the options are written as.
    pub open spec fn pairs(self) -> Seq<(Value, Value)> {
        with_number(with_flag(Seq::empty(), "details", self.details), "limit", self.limit)
    }

    /// The options as a dictionary.
    pub fn to_dictionary(&self) -> (dict: Dictionary)
        ensures
            dict@ == self.pairs(),
    {
        let mut dict = Dictionary::new();
        if let Some(details) = self.details {
            dict.insert("details", Object::Boolean(details));
        }
        if let Some(limit) = self.limit {
            dict.insert("limit", Object::Integer(limit as i64));
        }
        dict
    }
}

} // verus!
