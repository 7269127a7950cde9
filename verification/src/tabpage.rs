//! Tab pages.

use crate::call::{
    complete, completed, finish, finish_with, outcome, reply, ApiError, ApiErrorView, ErrorSlot,
};
use crate::conversion::{Error, FromObject, ToObject};
use crate::decimal::{format_i64, signed_digits_of};
use crate::non_owning::NonOwning;
use crate::object::{Array, NvimString, Object, Value};
use crate::window::{WinHandle, Window};
use vstd::prelude::*;
use vstd::string::StringExecFns;
use vstd::utf8::encode_utf8;

verus! {

/// The number by which Neovim knows a tab page.
pub type TabHandle = i32;

/// A tab page, named by its handle.
///
/// The handle refers to the tab page and does not own it: the tab page
/// may be gone while the handle is still around.
#[derive(Clone, Copy, Debug, PartialEq, Eq, Hash)]
pub struct TabPage(pub TabHandle);

impl DeepView for TabPage {
    type V = TabHandle;

    open spec fn deep_view(&self) -> TabHandle {
        self.0
    }
}

impl FromObject for TabPage {
    open spec fn decoded(value: Value) -> Result<TabHandle, Error> {
        i32::decoded(value)
    }

    fn from_object(obj: Object) -> (r: Result<TabPage, Error>) {
        Ok(TabPage(i32::from_object(obj)?))
    }
}

impl ToObject for TabPage {
    open spec fn encoded(model: TabHandle) -> Result<Value, Error> {
        Ok(Value::Integer(model as i64))
    }

    fn to_object(self) -> (r: Result<Object, Error>) {
        Ok(Object::Integer(self.0 as i64))
    }
}

impl TabPage {
    /// How the tab page is written: its name around its handle.
    pub open spec fn text(self) -> Seq<char> {
        "TabPage("@ + signed_digits_of(self.0 as int) + ")"@
    }

    /// Writes the tab page: its name around its handle.
    pub fn to_text(&self) -> (text: String)
        ensures
            text@ == self.text(),
    {
        let mut text = String::from_str("TabPage(");
        text.append(format_i64(self.0 as i64).as_str());
        text.append(")");
        text
    }

    /// The current tab page.
    ///
    /// `foreign` is the call `nvim_get_current_tabpage`.
    pub fn current<F: FnOnce() -> TabHandle>(foreign: F) -> (tab: TabPage)
        requires
            foreign.requires(()),
        ensures
            foreign.ensures((), tab.0),
    {
        TabPage(foreign())
    }

    /// Removes a tab-scoped variable.
    ///
    /// `foreign` is the call `nvim_tabpage_del_var`.
    pub fn del_var<F: FnOnce(TabHandle, NonOwning<NvimString>, ErrorSlot) -> ErrorSlot>(
        &mut self,
        name: &str,
        foreign: F,
    ) -> (r: Result<(), ApiError>)
        requires
            forall|text: NonOwning<NvimString>, fresh: ErrorSlot| #[trigger]
                foreign.requires((old(self).0, text, fresh)),
        ensures
            *final(self) == *old(self),
            exists|text: NonOwning<NvimString>, fresh: ErrorSlot, slot: ErrorSlot|
                {
                    &&& text@ == encode_utf8(name@)
                    &&& !fresh.is_err()
                    &&& #[trigger] foreign.ensures((old(self).0, text, fresh), slot)
                    &&& outcome(r) == completed::<()>(slot@, Value::Nil)
                },
    {
        let fresh = ErrorSlot::new();
        let name = NvimString::from_str(name);
        let slot = foreign(self.0, name.non_owning(), fresh);
        finish(slot)
    }

    /// The number of the tab page.
    ///
    /// `foreign` is the call `nvim_tabpage_get_number`.
    pub fn get_number<F: FnOnce(TabHandle, ErrorSlot) -> (ErrorSlot, i64)>(&self, foreign: F) -> (r:
        Result<u32, ApiError>)
        requires
            forall|fresh: ErrorSlot| #[trigger] foreign.requires((self.0, fresh)),
        ensures
            exists|fresh: ErrorSlot, slot: ErrorSlot, number: i64|
                {
                    &&& !fresh.is_err()
                    &&& #[trigger] foreign.ensures((self.0, fresh), (slot, number))
                    &&& outcome(r) == completed::<u32>(slot@, Value::Integer(number))
                },
    {
        let (slot, number) = foreign(self.0, ErrorSlot::new());
        complete::<u32>(slot, Object::Integer(number))
    }

    /// The value of a tab-scoped variable.
    ///
    /// `foreign` is the call `nvim_tabpage_get_var`.
    pub fn get_var<
        Var: FromObject,
        F: FnOnce(TabHandle, NonOwning<NvimString>, ErrorSlot) -> (ErrorSlot, Object),
    >(&self, name: &str, foreign: F) -> (r: Result<Var, ApiError>)
        requires
            forall|text: NonOwning<NvimString>, fresh: ErrorSlot| #[trigger]
                foreign.requires((self.0, text, fresh)),
        ensures
            exists|text: NonOwning<NvimString>, fresh: ErrorSlot, slot: ErrorSlot, returned: Object|
                {
                    &&& text@ == encode_utf8(name@)
                    &&& !fresh.is_err()
                    &&& #[trigger] foreign.ensures((self.0, text, fresh), (slot, returned))
                    &&& outcome(r) == completed::<Var>(slot@, returned@)
                },
    {
        let name = NvimString::from_str(name);
        let (slot, returned) = foreign(self.0, name.non_owning(), ErrorSlot::new());
        complete::<Var>(slot, returned)
    }

    /// The current window of the tab page.
    ///
    /// `foreign` is the call `nvim_tabpage_get_win`.
    pub fn get_win<F: FnOnce(TabHandle, ErrorSlot) -> (ErrorSlot, WinHandle)>(&self, foreign: F) -> (r:
        Result<Window, ApiError>)
        requires
            forall|fresh: ErrorSlot| #[trigger] foreign.requires((self.0, fresh)),
        ensures
            exists|fresh: ErrorSlot, slot: ErrorSlot, handle: WinHandle|
                {
                    &&& !fresh.is_err()
                    &&& #[trigger] foreign.ensures((self.0, fresh), (slot, handle))
                    &&& outcome(r) == reply(slot@, handle)
                },
    {
        let (slot, handle) = foreign(self.0, ErrorSlot::new());
        finish_with(slot, Window(handle))
    }

    /// Whether the tab page still exists.
    ///
    /// `foreign` is the call `nvim_tabpage_is_valid`.
    pub fn is_valid<F: FnOnce(TabHandle) -> bool>(&self, foreign: F) -> (valid: bool)
        requires
            foreign.requires((self.0,)),
        ensures
            foreign.ensures((self.0,), valid),
    {
        foreign(self.0)
    }

    /// The windows of the tab page.
    ///
    /// `foreign` is the call `nvim_tabpage_list_wins`.
    pub fn list_wins<F: FnOnce(TabHandle, ErrorSlot) -> (ErrorSlot, Array)>(&self, foreign: F) -> (r:
        Result<Vec<Window>, ApiError>)
        requires
            forall|fresh: ErrorSlot| #[trigger] foreign.requires((self.0, fresh)),
        ensures
            exists|fresh: ErrorSlot, slot: ErrorSlot, list: Array|
                {
                    &&& !fresh.is_err()
                    &&& #[trigger] foreign.ensures((self.0, fresh), (slot, list))
                    &&& outcome(r) == completed::<Vec<Window>>(slot@, Value::Array(list@))
                },
    {
        let (slot, list) = foreign(self.0, ErrorSlot::new());
        complete::<Vec<Window>>(slot, Object::Array(list))
    }

    /// Sets a tab-scoped variable.
    ///
    /// `foreign` is the call `nvim_tabpage_set_var`. Where `value` cannot
    /// be written as an object, the call is not made.
    pub fn set_var<
        Var: ToObject,
        F: FnOnce(TabHandle, NonOwning<NvimString>, NonOwning<Object>, ErrorSlot) -> ErrorSlot,
    >(&mut self, name: &str, value: Var, foreign: F) -> (r: Result<(), ApiError>)
        requires
            forall|text: NonOwning<NvimString>, obj: NonOwning<Object>, fresh: ErrorSlot| #[trigger]
                foreign.requires((old(self).0, text, obj, fresh)),
        ensures
            *final(self) == *old(self),
            match Var::encoded(value.deep_view()) {
                Err(e) => outcome(r) == Err::<(), ApiErrorView>(ApiErrorView::Conversion(e)),
                Ok(written) => exists|
                    text: NonOwning<NvimString>,
                    obj: NonOwning<Object>,
                    fresh: ErrorSlot,
                    slot: ErrorSlot,
                |
                    {
                        &&& text@ == encode_utf8(name@)
                        &&& obj@ == written
                        &&& !fresh.is_err()
                        &&& #[trigger] foreign.ensures((old(self).0, text, obj, fresh), slot)
                        &&& outcome(r) == completed::<()>(slot@, Value::Nil)
                    },
            },
    {
        let name = NvimString::from_str(name);
        let obj = match value.to_object() {
            Ok(obj) => obj,
            Err(e) => return Err(ApiError::Conversion(e)),
        };
        let slot = foreign(self.0, name.non_owning(), obj.non_owning(), ErrorSlot::new());
        finish(slot)
    }
}

} // verus!
