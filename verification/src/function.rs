//! References to Lua functions and the handles of Neovim's entities.

use crate::conversion::{wrong_type, Error, FromObject, ToObject};
use crate::object::{Object, ObjectKind, Value};
use core::marker::PhantomData;
use vstd::prelude::*;

verus! {

/// A reference into Lua's registry.
pub type LuaRef = i32;

/// A reference to a Lua function that takes an `A` and returns an `R`.
///
/// It is valid for as long as the function stays registered.
#[derive(Debug, PartialEq, Eq, Hash)]
pub struct Function<A, R> {
    pub lua_ref: LuaRef,
    pub signature: PhantomData<(A, R)>,
}

impl<A, R> Function<A, R> {
    /// The function registered under `lua_ref`.
    pub fn from_ref(lua_ref: LuaRef) -> (f: Self)
        ensures
            f.lua_ref == lua_ref,
    {
        Function { lua_ref, signature: PhantomData }
    }
}

impl<A, R> Clone for Function<A, R> {
    fn clone(&self) -> (copy: Self)
        ensures
            copy.lua_ref == self.lua_ref,
    {
        Function { lua_ref: self.lua_ref, signature: PhantomData }
    }
}

impl<A, R> DeepView for Function<A, R> {
    type V = LuaRef;

    open spec fn deep_view(&self) -> LuaRef {
        self.lua_ref
    }
}

impl<A, R> FromObject for Function<A, R> {
    open spec fn decoded(value: Value) -> Result<LuaRef, Error> {
        match value {
            Value::LuaRef(r) => Ok(r),
            _ => wrong_type(ObjectKind::LuaRef, value),
        }
    }

    fn from_object(obj: Object) -> (r: Result<Self, Error>) {
        match obj.kind() {
            ObjectKind::LuaRef => Ok(Self::from_ref(obj.as_luaref_unchecked())),
            other => Err(Error::FromWrongType { expected: ObjectKind::LuaRef, actual: other }),
        }
    }
}

impl<A, R> ToObject for Function<A, R> {
    open spec fn encoded(model: LuaRef) -> Result<Value, Error> {
        Ok(Value::LuaRef(model))
    }

    fn to_object(self) -> (r: Result<Object, Error>) {
        Ok(Object::LuaRef(self.lua_ref))
    }
}

} // verus!
