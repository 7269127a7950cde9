//! Objects made from the values that always have one.
//!
//! A truth value, an integer that fits in 64 bits, a float, a text, a list
//! and a dictionary each stand for exactly one object, of the matching
//! kind. Making it cannot fail.

use crate::object::{Array, Dictionary, Float, NvimString, Object};
use vstd::prelude::*;
use vstd::std_specs::convert::FromSpecImpl;

verus! {

impl From<bool> for Object {
    fn from(v: bool) -> (obj: Object) {
        Object::Boolean(v)
    }
}

impl FromSpecImpl<bool> for Object {
    open spec fn obeys_from_spec() -> bool {
        true
    }

    open spec fn from_spec(v: bool) -> Object {
        Object::Boolean(v)
    }
}

impl From<i8> for Object {
    fn from(v: i8) -> (obj: Object) {
        Object::Integer(v as i64)
    }
}

impl FromSpecImpl<i8> for Object {
    open spec fn obeys_from_spec() -> bool {
        true
    }

    open spec fn from_spec(v: i8) -> Object {
        Object::Integer(v as i64)
    }
}

impl From<u8> for Object {
    fn from(v: u8) -> (obj: Object) {
        Object::Integer(v as i64)
    }
}

impl FromSpecImpl<u8> for Object {
    open spec fn obeys_from_spec() -> bool {
        true
    }

    open spec fn from_spec(v: u8) -> Object {
        Object::Integer(v as i64)
    }
}

impl From<i16> for Object {
    fn from(v: i16) -> (obj: Object) {
        Object::Integer(v as i64)
    }
}

impl FromSpecImpl<i16> for Object {
    open spec fn obeys_from_spec() -> bool {
        true
    }

    open spec fn from_spec(v: i16) -> Object {
        Object::Integer(v as i64)
    }
}

impl From<u16> for Object {
    fn from(v: u16) -> (obj: Object) {
        Object::Integer(v as i64)
    }
}

impl FromSpecImpl<u16> for Object {
    open spec fn obeys_from_spec() -> bool {
        true
    }

    open spec fn from_spec(v: u16) -> Object {
        Object::Integer(v as i64)
    }
}

impl From<i32> for Object {
    fn from(v: i32) -> (obj: Object) {
        Object::Integer(v as i64)
    }
}

impl FromSpecImpl<i32> for Object {
    open spec fn obeys_from_spec() -> bool {
        true
    }

    open spec fn from_spec(v: i32) -> Object {
        Object::Integer(v as i64)
    }
}

impl From<u32> for Object {
    fn from(v: u32) -> (obj: Object) {
        Object::Integer(v as i64)
    }
}

impl FromSpecImpl<u32> for Object {
    open spec fn obeys_from_spec() -> bool {
        true
    }

    open spec fn from_spec(v: u32) -> Object {
        Object::Integer(v as i64)
    }
}

impl From<i64> for Object {
    fn from(v: i64) -> (obj: Object) {
        Object::Integer(v)
    }
}

impl FromSpecImpl<i64> for Object {
    open spec fn obeys_from_spec() -> bool {
        true
    }

    open spec fn from_spec(v: i64) -> Object {
        Object::Integer(v)
    }
}

impl From<Float> for Object {
    fn from(v: Float) -> (obj: Object) {
        Object::Float(v.bits)
    }
}

impl FromSpecImpl<Float> for Object {
    open spec fn obeys_from_spec() -> bool {
        true
    }

    open spec fn from_spec(v: Float) -> Object {
        Object::Float(v.bits)
    }
}

impl From<NvimString> for Object {
    fn from(v: NvimString) -> (obj: Object) {
        Object::String(v)
    }
}

impl FromSpecImpl<NvimString> for Object {
    open spec fn obeys_from_spec() -> bool {
        true
    }

    open spec fn from_spec(v: NvimString) -> Object {
        Object::String(v)
    }
}

impl From<Array> for Object {
    fn from(v: Array) -> (obj: Object) {
        Object::Array(v)
    }
}

impl FromSpecImpl<Array> for Object {
    open spec fn obeys_from_spec() -> bool {
        true
    }

    open spec fn from_spec(v: Array) -> Object {
        Object::Array(v)
    }
}

impl From<Dictionary> for Object {
    fn from(v: Dictionary) -> (obj: Object) {
        Object::Dictionary(v)
    }
}

impl FromSpecImpl<Dictionary> for Object {
    open spec fn obeys_from_spec() -> bool {
        true
    }

    open spec fn from_spec(v: Dictionary) -> Object {
        Object::Dictionary(v)
    }
}

} // verus!
