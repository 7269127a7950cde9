//! Windows.

use crate::conversion::{Error, FromObject, ToObject};
use crate::object::{Object, Value};
use vstd::prelude::*;

verus! {

/// The number by which Neovim knows a window.
pub type WinHandle = i32;

/// A window, named by its handle.
///
/// The handle refers to the window and does not own it: the window may be
/// gone while the handle is still around.
#[derive(Clone, Copy, Debug, PartialEq, Eq, Hash)]
pub struct Window(pub WinHandle);

impl DeepView for Window {
    type V = WinHandle;

    open spec fn deep_view(&self) -> WinHandle {
        self.0
    }
}

impl FromObject for Window {
    open spec fn decoded(value: Value) -> Result<WinHandle, Error> {
        i32::decoded(value)
    }

    fn from_object(obj: Object) -> (r: Result<Window, Error>) {
        Ok(Window(i32::from_object(obj)?))
    }
}

impl ToObject for Window {
    open spec fn encoded(model: WinHandle) -> Result<Value, Error> {
        Ok(Value::Integer(model as i64))
    }

    fn to_object(self) -> (r: Result<Object, Error>) {
        Ok(Object::Integer(self.0 as i64))
    }
}

} // verus!
