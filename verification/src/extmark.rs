//! Extmarks, highlights and namespaces.

use crate::bridge::entries_of;
use crate::buffer::{BufHandle, Buffer};
use crate::call::{
    complete, completed, finish, finish_with, outcome, reply, ApiError, ApiErrorView, ErrorSlot,
    ErrorType,
};
use crate::conversion::{Error, FromObject, ToObject};
use crate::decimal::{digits_of, format_u32};
use crate::non_owning::NonOwning;
use crate::object::{Array, Dictionary, NvimString, Object, ObjectKind, Value};
use crate::opts::{GetExtmarkByIdOpts, GetExtmarksOpts};
use crate::types::extmark_infos::{ExtmarkInfos, ExtmarkInfosView};
use crate::types::extmark_position::ExtmarkPosition;
use crate::utils::{end_index, first_index, has_successor, range_to_limits, Limit};
use vstd::prelude::*;
use vstd::string::StringExecFns;
use vstd::utf8::encode_utf8;

verus! {

/// The words that say that a buffer has no extmark with the id `id`.
pub open spec fn no_extmark_message(id: u32) -> Seq<char> {
    "No extmark with id "@ + digits_of(id as nat) + " was found"@
}

/// The failure of looking for an extmark that is not there.
pub fn no_extmark(id: u32) -> (e: ApiError)
    ensures
        e@ == ApiErrorView::Custom(no_extmark_message(id)),
{
    let mut message = String::from_str("No extmark with id ");
    message.append(format_u32(id).as_str());
    message.append(" was found");
    ApiError::Custom(message)
}

/// What the removal of the extmark `id` amounts to, given whether it was
/// found.
pub open spec fn removed(slot: (ErrorType, Seq<u8>), was_found: bool, id: u32) -> Result<
    (),
    ApiErrorView,
> {
    if slot.0 != ErrorType::NoError {
        Err(ApiErrorView::Nvim(slot.0, slot.1))
    } else if was_found {
        Ok(())
    } else {
        Err(ApiErrorView::Custom(no_extmark_message(id)))
    }
}

/// The details that follow the first `before` elements of `items`, if
/// anything follows them.
pub open spec fn decoded_details(items: Seq<Value>, before: int) -> Result<
    Option<ExtmarkInfosView>,
    Error,
> {
    if items.len() > before {
        match ExtmarkInfos::decoded(items[before]) {
            Ok(infos) => Ok(Some(infos)),
            Err(e) => Err(e),
        }
    } else {
        Ok(None)
    }
}

/// What reading the position of an extmark yields: its row, its column
/// and, if a third element is there, its details.
pub open spec fn decoded_position(items: Seq<Value>) -> Result<
    (usize, usize, Option<ExtmarkInfosView>),
    Error,
> {
    if items.len() < 2 {
        Err(Error::WrongLength { wanted: 2, found: items.len() as usize })
    } else {
        let row = usize::decoded(items[0]);
        let col = usize::decoded(items[1]);
        let infos = decoded_details(items, 2);
        if row is Err {
            Err(row->Err_0)
        } else if col is Err {
            Err(col->Err_0)
        } else if infos is Err {
            Err(infos->Err_0)
        } else {
            Ok((row->Ok_0, col->Ok_0, infos->Ok_0))
        }
    }
}

/// What reading a found extmark yields: its id, its row, its column and,
/// if a fourth element is there, its details.
pub open spec fn decoded_extmark(items: Seq<Value>) -> Result<
    (u32, usize, usize, Option<ExtmarkInfosView>),
    Error,
> {
    if items.len() < 3 {
        Err(Error::WrongLength { wanted: 3, found: items.len() as usize })
    } else {
        let id = u32::decoded(items[0]);
        let row = usize::decoded(items[1]);
        let col = usize::decoded(items[2]);
        let infos = decoded_details(items, 3);
        if id is Err {
            Err(id->Err_0)
        } else if row is Err {
            Err(row->Err_0)
        } else if col is Err {
            Err(col->Err_0)
        } else if infos is Err {
            Err(infos->Err_0)
        } else {
            Ok((id->Ok_0, row->Ok_0, col->Ok_0, infos->Ok_0))
        }
    }
}

/// Reads the details that follow the first `before` elements of `list`.
fn details_from(list: &Array, before: usize) -> (r: Result<Option<ExtmarkInfos>, Error>)
    ensures
        crate::conversion::modelled(r) == decoded_details(list@, before as int),
{
    if list.items.len() > before {
        Ok(Some(ExtmarkInfos::from_object(list.items[before].clone())?))
    } else {
        Ok(None)
    }
}

/// Reads the position of an extmark from what
/// `nvim_buf_get_extmark_by_id` returned.
pub fn position_from(list: Array) -> (r: Result<(usize, usize, Option<ExtmarkInfos>), Error>)
    ensures
        crate::conversion::modelled(r) == decoded_position(list@),
{
    let found = list.items.len();
    if found < 2 {
        return Err(Error::WrongLength { wanted: 2, found });
    }
    let row = usize::from_object(list.items[0].clone())?;
    let col = usize::from_object(list.items[1].clone())?;
    let infos = details_from(&list, 2)?;
    Ok((row, col, infos))
}

impl FromObject for (u32, usize, usize, Option<ExtmarkInfos>) {
    open spec fn decoded(value: Value) -> Result<
        (u32, usize, usize, Option<ExtmarkInfosView>),
        Error,
    > {
        match value {
            Value::Array(items) => decoded_extmark(items),
            _ => crate::conversion::wrong_type(ObjectKind::Array, value),
        }
    }

    fn from_object(obj: Object) -> (r: Result<(u32, usize, usize, Option<ExtmarkInfos>), Error>) {
        match obj {
            Object::Array(list) => {
                let found = list.items.len();
                if found < 3 {
                    return Err(Error::WrongLength { wanted: 3, found });
                }
                let id = u32::from_object(list.items[0].clone())?;
                let row = usize::from_object(list.items[1].clone())?;
                let col = usize::from_object(list.items[2].clone())?;
                let infos = details_from(&list, 3)?;
                Ok((id, row, col, infos))
            },
            other => Err(
                Error::FromWrongType { expected: ObjectKind::Array, actual: other.kind() },
            ),
        }
    }
}

/// What looking for the extmark `id` amounts to, given the list that was
/// returned: an empty list says that there is no such extmark.
pub open spec fn found_by_id(slot: (ErrorType, Seq<u8>), items: Seq<Value>, id: u32) -> Result<
    (usize, usize, Option<ExtmarkInfosView>),
    ApiErrorView,
> {
    if slot.0 != ErrorType::NoError {
        Err(ApiErrorView::Nvim(slot.0, slot.1))
    } else if items.len() == 0 {
        Err(ApiErrorView::Custom(no_extmark_message(id)))
    } else {
        match decoded_position(items) {
            Ok(position) => Ok(position),
            Err(e) => Err(ApiErrorView::Conversion(e)),
        }
    }
}

/// The outcome of `nvim_buf_get_extmark_by_id`, given what it left in
/// the slot and the list that it returned.
pub fn extmark_by_id_reply(slot: ErrorSlot, list: Array, id: u32) -> (r: Result<
    (usize, usize, Option<ExtmarkInfos>),
    ApiError,
>)
    ensures
        outcome(r) == found_by_id(slot@, list@, id),
{
    if slot.is_err() {
        return Err(ApiError::Nvim(slot));
    }
    if list.items.len() == 0 {
        return Err(no_extmark(id));
    }
    match position_from(list) {
        Ok(position) => Ok(position),
        Err(e) => Err(ApiError::Conversion(e)),
    }
}

/// The outcome of `nvim_buf_del_extmark`, given what it left in the slot
/// and whether it found the extmark.
pub fn del_extmark_reply(slot: ErrorSlot, was_found: bool, id: u32) -> (r: Result<(), ApiError>)
    ensures
        outcome(r) == removed(slot@, was_found, id),
{
    if slot.is_err() {
        Err(ApiError::Nvim(slot))
    } else if was_found {
        Ok(())
    } else {
        Err(no_extmark(id))
    }
}

impl Buffer {
    /// Adds a highlight to the buffer, and returns the id of the
    /// namespace that was used. The line and the range of bytes are
    /// counted from 0.
    ///
    /// `foreign` is the call `nvim_buf_add_highlight`.
    pub fn add_highlight<
        F: FnOnce(BufHandle, i64, NonOwning<NvimString>, i64, i64, i64, ErrorSlot) -> (ErrorSlot, i64),
    >(
        &mut self,
        ns_id: u32,
        hl_group: &str,
        line: usize,
        start: Limit,
        end: Limit,
        foreign: F,
    ) -> (r: Result<i64, ApiError>)
        requires
            start is Excluded ==> has_successor(start),
            end is Included ==> has_successor(end),
            forall|group: NonOwning<NvimString>, fresh: ErrorSlot| #[trigger]
                foreign.requires(
                    (
                        old(self).0,
                        ns_id as i64,
                        group,
                        line as i64,
                        first_index(start),
                        end_index(end),
                        fresh,
                    ),
                ),
        ensures
            *final(self) == *old(self),
            exists|group: NonOwning<NvimString>, fresh: ErrorSlot, slot: ErrorSlot, id: i64|
                {
                    &&& group@ == encode_utf8(hl_group@)
                    &&& !fresh.is_err()
                    &&& #[trigger] foreign.ensures(
                        (
                            old(self).0,
                            ns_id as i64,
                            group,
                            line as i64,
                            first_index(start),
                            end_index(end),
                            fresh,
                        ),
                        (slot, id),
                    )
                    &&& outcome(r) == reply(slot@, id)
                },
    {
        let group = NvimString::from_str(hl_group);
        let (first, behind) = range_to_limits(start, end);
        let line = #[verifier::truncate]
        (line as i64);
        let (slot, id) = foreign(
            self.0,
            ns_id as i64,
            group.non_owning(),
            line,
            first,
            behind,
            ErrorSlot::new(),
        );
        finish_with(slot, id)
    }

    /// Clears highlights, extmarks and virtual text of a namespace from a
    /// range of lines, counted from 0.
    ///
    /// `foreign` is the call `nvim_buf_clear_namespace`.
    pub fn clear_namespace<F: FnOnce(BufHandle, i64, i64, i64, ErrorSlot) -> ErrorSlot>(
        &mut self,
        ns_id: u32,
        start: Limit,
        end: Limit,
        foreign: F,
    ) -> (r: Result<(), ApiError>)
        requires
            start is Excluded ==> has_successor(start),
            end is Included ==> has_successor(end),
            forall|fresh: ErrorSlot| #[trigger]
                foreign.requires(
                    (old(self).0, ns_id as i64, first_index(start), end_index(end), fresh),
                ),
        ensures
            *final(self) == *old(self),
            exists|fresh: ErrorSlot, slot: ErrorSlot|
                {
                    &&& !fresh.is_err()
                    &&& #[trigger] foreign.ensures(
                        (old(self).0, ns_id as i64, first_index(start), end_index(end), fresh),
                        slot,
                    )
                    &&& outcome(r) == completed::<()>(slot@, Value::Nil)
                },
    {
        let (first, behind) = range_to_limits(start, end);
        let slot = foreign(self.0, ns_id as i64, first, behind, ErrorSlot::new());
        finish(slot)
    }

    /// Removes an extmark from the buffer.
    ///
    /// `foreign` is the call `nvim_buf_del_extmark`.
    pub fn del_extmark<F: FnOnce(BufHandle, i64, i64, ErrorSlot) -> (ErrorSlot, bool)>(
        &mut self,
        ns_id: u32,
        extmark_id: u32,
        foreign: F,
    ) -> (r: Result<(), ApiError>)
        requires
            forall|fresh: ErrorSlot| #[trigger]
                foreign.requires((old(self).0, ns_id as i64, extmark_id as i64, fresh)),
        ensures
            *final(self) == *old(self),
            exists|fresh: ErrorSlot, slot: ErrorSlot, was_found: bool|
                {
                    &&& !fresh.is_err()
                    &&& #[trigger] foreign.ensures(
                        (old(self).0, ns_id as i64, extmark_id as i64, fresh),
                        (slot, was_found),
                    )
                    &&& outcome(r) == removed(slot@, was_found, extmark_id)
                },
    {
        let (slot, was_found) = foreign(self.0, ns_id as i64, extmark_id as i64, ErrorSlot::new());
        del_extmark_reply(slot, was_found, extmark_id)
    }

    /// The row and the column of an extmark, counted from 0, and its
    /// details if they were asked for.
    ///
    /// `foreign` is the call `nvim_buf_get_extmark_by_id`.
    pub fn get_extmark_by_id<
        F: FnOnce(BufHandle, i64, i64, NonOwning<Dictionary>, ErrorSlot) -> (ErrorSlot, Array),
    >(&self, ns_id: u32, extmark_id: u32, opts: &GetExtmarkByIdOpts, foreign: F) -> (r: Result<
        (usize, usize, Option<ExtmarkInfos>),
        ApiError,
    >)
        requires
            forall|dict: NonOwning<Dictionary>, fresh: ErrorSlot| #[trigger]
                foreign.requires((self.0, ns_id as i64, extmark_id as i64, dict, fresh)),
        ensures
            exists|dict: NonOwning<Dictionary>, fresh: ErrorSlot, slot: ErrorSlot, list: Array|
                {
                    &&& dict@ == opts.pairs()
                    &&& !fresh.is_err()
                    &&& #[trigger] foreign.ensures(
                        (self.0, ns_id as i64, extmark_id as i64, dict, fresh),
                        (slot, list),
                    )
                    &&& outcome(r) == found_by_id(slot@, list@, extmark_id)
                },
    {
        let dict = opts.to_dictionary();
        let (slot, list) = foreign(
            self.0,
            ns_id as i64,
            extmark_id as i64,
            dict.non_owning(),
            ErrorSlot::new(),
        );
        extmark_by_id_reply(slot, list, extmark_id)
    }

    /// The extmarks between two positions, in the order in which Neovim
    /// walks them: of each its id, its row, its column and, if they were
    /// asked for, its details.
    ///
    /// `foreign` is the call `nvim_buf_get_extmarks`. Where a position
    /// cannot be written as an object, the call is not made.
    pub fn get_extmarks<
        F: FnOnce(
            BufHandle,
            i64,
            NonOwning<Object>,
            NonOwning<Object>,
            NonOwning<Dictionary>,
            ErrorSlot,
        ) -> (ErrorSlot, Array),
    >(
        &self,
        ns_id: u32,
        start: ExtmarkPosition,
        end: ExtmarkPosition,
        opts: &GetExtmarksOpts,
        foreign: F,
    ) -> (r: Result<Vec<(u32, usize, usize, Option<ExtmarkInfos>)>, ApiError>)
        requires
            forall|
                from: NonOwning<Object>,
                to: NonOwning<Object>,
                dict: NonOwning<Dictionary>,
                fresh: ErrorSlot,
            | #[trigger]
                foreign.requires((self.0, ns_id as i64, from, to, dict, fresh)),
        ensures
            match (ExtmarkPosition::encoded(start), ExtmarkPosition::encoded(end)) {
                (Err(e), _) => outcome(r) == Err::<
                    Seq<(u32, usize, usize, Option<ExtmarkInfosView>)>,
                    ApiErrorView,
                >(ApiErrorView::Conversion(e)),
                (Ok(_), Err(e)) => outcome(r) == Err::<
                    Seq<(u32, usize, usize, Option<ExtmarkInfosView>)>,
                    ApiErrorView,
                >(ApiErrorView::Conversion(e)),
                (Ok(first), Ok(last)) => exists|
                    from: NonOwning<Object>,
                    to: NonOwning<Object>,
                    dict: NonOwning<Dictionary>,
                    fresh: ErrorSlot,
                    slot: ErrorSlot,
                    list: Array,
                |
                    {
                        &&& from@ == first
                        &&& to@ == last
                        &&& dict@ == opts.pairs()
                        &&& !fresh.is_err()
                        &&& #[trigger] foreign.ensures(
                            (self.0, ns_id as i64, from, to, dict, fresh),
                            (slot, list),
                        )
                        &&& outcome(r) == completed::<Vec<(u32, usize, usize, Option<ExtmarkInfos>)>>(
                            slot@,
                            Value::Array(list@),
                        )
                    },
            },
    {
        let from = match start.to_object() {
            Ok(obj) => obj,
            Err(e) => return Err(ApiError::Conversion(e)),
        };
        let to = match end.to_object() {
            Ok(obj) => obj,
            Err(e) => return Err(ApiError::Conversion(e)),
        };
        let dict = opts.to_dictionary();
        let (slot, list) = foreign(
            self.0,
            ns_id as i64,
            from.non_owning(),
            to.non_owning(),
            dict.non_owning(),
            ErrorSlot::new(),
        );
        complete::<Vec<(u32, usize, usize, Option<ExtmarkInfos>)>>(slot, Object::Array(list))
    }

    /// Creates or updates an extmark, and returns its id. The line and
    /// the column are counted from 0.
    ///
    /// `foreign` is the call `nvim_buf_set_extmark`.
    pub fn set_extmark<
        F: FnOnce(BufHandle, i64, i64, i64, NonOwning<Dictionary>, ErrorSlot) -> (ErrorSlot, i64),
    >(&mut self, ns_id: u32, line: usize, col: usize, opts: &Dictionary, foreign: F) -> (r: Result<
        u32,
        ApiError,
    >)
        requires
            forall|dict: NonOwning<Dictionary>, fresh: ErrorSlot| #[trigger]
                foreign.requires(
                    (old(self).0, ns_id as i64, line as i64, col as i64, dict, fresh),
                ),
        ensures
            *final(self) == *old(self),
            exists|dict: NonOwning<Dictionary>, fresh: ErrorSlot, slot: ErrorSlot, id: i64|
                {
                    &&& dict.source() == *opts
                    &&& !fresh.is_err()
                    &&& #[trigger] foreign.ensures(
                        (old(self).0, ns_id as i64, line as i64, col as i64, dict, fresh),
                        (slot, id),
                    )
                    &&& outcome(r) == completed::<u32>(slot@, Value::Integer(id))
                },
    {
        let line = #[verifier::truncate]
        (line as i64);
        let col = #[verifier::truncate]
        (col as i64);
        let (slot, id) = foreign(
            self.0,
            ns_id as i64,
            line,
            col,
            opts.non_owning(),
            ErrorSlot::new(),
        );
        complete::<u32>(slot, Object::Integer(id))
    }
}

/// Creates a namespace, or finds the one that has the name already, and
/// returns its id.
///
/// `foreign` is the call `nvim_create_namespace`. Neovim hands out ids
/// that fit in 32 bits; one that does not is reported as a failure.
pub fn create_namespace<F: FnOnce(NonOwning<NvimString>) -> i64>(name: &str, foreign: F) -> (r:
    Result<u32, ApiError>)
    requires
        forall|text: NonOwning<NvimString>| #[trigger] foreign.requires((text,)),
    ensures
        exists|text: NonOwning<NvimString>, id: i64|
            {
                &&& text@ == encode_utf8(name@)
                &&& #[trigger] foreign.ensures((text,), id)
                &&& outcome(r) == completed::<u32>(
                    (ErrorType::NoError, Seq::empty()),
                    Value::Integer(id),
                )
            },
{
    let name = NvimString::from_str(name);
    let id = foreign(name.non_owning());
    complete::<u32>(ErrorSlot::new(), Object::Integer(id))
}

/// The names and ids of the namespaces that have a name.
///
/// `foreign` is the call `nvim_get_namespaces`. A name that is not
/// UTF-8 and an id that does not fit in 32 bits are reported as
/// failures.
pub fn get_namespaces<F: FnOnce() -> Dictionary>(foreign: F) -> (r: Result<
    Vec<(String, u32)>,
    ApiError,
>)
    requires
        foreign.requires(()),
    ensures
        exists|dict: Dictionary|
            {
                &&& #[trigger] foreign.ensures((), dict)
                &&& outcome(r) == completed::<Vec<(String, u32)>>(
                    (ErrorType::NoError, Seq::empty()),
                    Value::Array(entries_of(dict@)),
                )
            },
{
    let dict = foreign();
    complete::<Vec<(String, u32)>>(ErrorSlot::new(), Object::Array(dict.into_entries()))
}

/// Sets or changes the decoration provider of a namespace.
///
/// `foreign` is the call `nvim_set_decoration_provider`.
pub fn set_decoration_provider<F: FnOnce(i64, NonOwning<Dictionary>, ErrorSlot) -> ErrorSlot>(
    ns_id: u32,
    opts: &Dictionary,
    foreign: F,
) -> (r: Result<(), ApiError>)
    requires
        forall|dict: NonOwning<Dictionary>, fresh: ErrorSlot| #[trigger]
            foreign.requires((ns_id as i64, dict, fresh)),
    ensures
        exists|dict: NonOwning<Dictionary>, fresh: ErrorSlot, slot: ErrorSlot|
            {
                &&& dict.source() == *opts
                &&& !fresh.is_err()
                &&& #[trigger] foreign.ensures((ns_id as i64, dict, fresh), slot)
                &&& outcome(r) == completed::<()>(slot@, Value::Nil)
            },
{
    let slot = foreign(ns_id as i64, opts.non_owning(), ErrorSlot::new());
    finish(slot)
}

} // verus!
