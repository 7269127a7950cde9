//! Buffers.

use crate::conversion::{Error, FromObject, ToObject};
use crate::object::{Object, Value};
use vstd::prelude::*;

verus! {

/// The number by which Neovim knows a buffer.
pub type BufHandle = i32;

/// A buffer, named by its handle.
///
/// The handle refers to the buffer and does not own it: the buffer may be
/// gone while the handle is still around.
#[derive(Clone, Copy, Debug, PartialEq, Eq, Hash)]
pub struct Buffer(pub BufHandle);

impl DeepView for Buffer {
    type V = BufHandle;

    open spec fn deep_view(&self) -> BufHandle {
        self.0
    }
}

impl FromObject for Buffer {
    open spec fn decoded(value: Value) -> Result<BufHandle, Error> {
        i32::decoded(value)
    }

    fn from_object(obj: Object) -> (r: Result<Buffer, Error>) {
        Ok(Buffer(i32::from_object(obj)?))
    }
}

impl ToObject for Buffer {
    open spec fn encoded(model: BufHandle) -> Result<Value, Error> {
        Ok(Value::Integer(model as i64))
    }

    fn to_object(self) -> (r: Result<Object, Error>) {
        Ok(Object::Integer(self.0 as i64))
    }
}

} // verus!
