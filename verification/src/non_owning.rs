//! Borrowed views of owned values.
//!
//! An owned [`Object`], [`Array`], [`Dictionary`] or [`NvimString`] is the
//! sole owner of its memory. What is handed to a foreign call is a
//! [`NonOwning`] view: it shares the owner's memory for the duration of
//! the borrow, cannot be used to change it, and leaves the owner in place.

use crate::object::{Array, Dictionary, NvimString, Object};
use vstd::prelude::*;

verus! {

/// A read-only view of a value that something else owns.
#[derive(Debug)]
pub struct NonOwning<'a, T> {
    inner: &'a T,
}

impl<'a, T> NonOwning<'a, T> {
    /// The value that is viewed.
    pub closed spec fn source(&self) -> T {
        *self.inner
    }

    /// A view of `owner`.
    pub fn new(owner: &'a T) -> (view: Self)
        ensures
            view.source() == *owner,
    {
        NonOwning { inner: owner }
    }

    /// The viewed value, for as long as its owner is borrowed.
    pub fn get(&self) -> (value: &'a T)
        ensures
            *value == self.source(),
    {
        self.inner
    }
}

impl<'a, T: View> View for NonOwning<'a, T> {
    type V = T::V;

    open spec fn view(&self) -> T::V {
        self.source()@
    }
}

impl<'a, T> Clone for NonOwning<'a, T> {
    fn clone(&self) -> (copy: Self)
        ensures
            copy.source() == self.source(),
    {
        NonOwning { inner: self.inner }
    }
}

impl<'a> NonOwning<'a, Object> {
    /// A new owner of a copy of what is viewed.
    pub fn into_owned(self) -> (owned: Object)
        ensures
            owned@ == self@,
    {
        self.inner.clone()
    }
}

impl<'a> NonOwning<'a, NvimString> {
    /// A new owner of a copy of what is viewed.
    pub fn into_owned(self) -> (owned: NvimString)
        ensures
            owned@ == self@,
    {
        self.inner.clone()
    }
}

impl<'a> NonOwning<'a, Array> {
    /// A new owner of a copy of what is viewed.
    pub fn into_owned(self) -> (owned: Array)
        ensures
            owned@ == self@,
    {
        self.inner.clone()
    }
}

impl<'a> NonOwning<'a, Dictionary> {
    /// A new owner of a copy of what is viewed.
    pub fn into_owned(self) -> (owned: Dictionary)
        ensures
            owned@ == self@,
    {
        self.inner.clone()
    }
}

impl Object {
    /// A view of this object to hand to a foreign call. The object stays
    /// the owner, unchanged.
    pub fn non_owning(&self) -> (view: NonOwning<'_, Object>)
        ensures
            view.source() == *self,
    {
        NonOwning::new(self)
    }
}

impl NvimString {
    /// A view of this text to hand to a foreign call.
    pub fn non_owning(&self) -> (view: NonOwning<'_, NvimString>)
        ensures
            view.source() == *self,
    {
        NonOwning::new(self)
    }
}

impl Array {
    /// A view of this list to hand to a foreign call.
    pub fn non_owning(&self) -> (view: NonOwning<'_, Array>)
        ensures
            view.source() == *self,
    {
        NonOwning::new(self)
    }
}

impl Dictionary {
    /// A view of these pairs to hand to a foreign call.
    pub fn non_owning(&self) -> (view: NonOwning<'_, Dictionary>)
        ensures
            view.source() == *self,
    {
        NonOwning::new(self)
    }
}

} // verus!
