//! Vimscript: calling functions, running commands, evaluating
//! expressions.

use crate::call::{
    complete, completed, finish, outcome, ApiError, ApiErrorView, ErrorSlot, ErrorType,
};
use crate::conversion::{Error, FromObject};
use crate::non_owning::NonOwning;
use crate::object::{Array, Dictionary, NvimString, Object, Value};
use vstd::prelude::*;
use vstd::utf8::{decode_utf8, encode_utf8, valid_utf8};

verus! {

/// The channel that a call made from Lua names as its origin.
pub const LUA_INTERNAL_CALL: u64 = 0x8000_0000_0000_0001;

/// What a call amounts to that returns the output it captured: no output
/// where nothing was written.
pub open spec fn captured(slot: (ErrorType, Seq<u8>), output: Seq<u8>) -> Result<
    Option<Seq<char>>,
    ApiErrorView,
> {
    if slot.0 != ErrorType::NoError {
        Err(ApiErrorView::Nvim(slot.0, slot.1))
    } else if !valid_utf8(output) {
        Err(ApiErrorView::Conversion(Error::FromUtf8))
    } else if decode_utf8(output).len() == 0 {
        Ok(None)
    } else {
        Ok(Some(decode_utf8(output)))
    }
}

/// The outcome of a call that left `slot` behind and returned the
/// output `output`.
pub fn output_reply(slot: ErrorSlot, output: NvimString) -> (r: Result<Option<String>, ApiError>)
    ensures
        outcome(r) == captured(slot@, output@),
{
    if slot.is_err() {
        return Err(ApiError::Nvim(slot));
    }
    match output.into_string() {
        Ok(text) => {
            if text.as_str().is_empty() {
                Ok(None)
            } else {
                Ok(Some(text))
            }
        },
        Err(e) => Err(ApiError::Conversion(e)),
    }
}

/// Calls a function of a Vimscript dictionary with the given arguments,
/// and returns what the function returned.
///
/// `foreign` is the call `nvim_call_dict_function`.
pub fn call_dict_function<
    Ret: FromObject,
    F: FnOnce(NonOwning<Object>, NonOwning<NvimString>, NonOwning<Array>, ErrorSlot) -> (
        ErrorSlot,
        Object,
    ),
>(dict: &str, func: &str, args: Array, foreign: F) -> (r: Result<Ret, ApiError>)
    requires
        forall|
            on: NonOwning<Object>,
            name: NonOwning<NvimString>,
            list: NonOwning<Array>,
            fresh: ErrorSlot,
        | #[trigger]
            foreign.requires((on, name, list, fresh)),
    ensures
        exists|
            on: NonOwning<Object>,
            name: NonOwning<NvimString>,
            list: NonOwning<Array>,
            fresh: ErrorSlot,
            slot: ErrorSlot,
            returned: Object,
        |
            {
                &&& on@ == Value::String(encode_utf8(dict@))
                &&& name@ == encode_utf8(func@)
                &&& list@ == args@
                &&& !fresh.is_err()
                &&& #[trigger] foreign.ensures((on, name, list, fresh), (slot, returned))
                &&& outcome(r) == completed::<Ret>(slot@, returned@)
            },
{
    let dict = Object::String(NvimString::from_str(dict));
    let func = NvimString::from_str(func);
    let (slot, returned) = foreign(
        dict.non_owning(),
        func.non_owning(),
        args.non_owning(),
        ErrorSlot::new(),
    );
    complete::<Ret>(slot, returned)
}

/// Calls a Vimscript function with the given arguments, and returns what
/// the function returned.
///
/// `foreign` is the call `nvim_call_function`.
pub fn call_function<
    Ret: FromObject,
    F: FnOnce(NonOwning<NvimString>, NonOwning<Array>, ErrorSlot) -> (ErrorSlot, Object),
>(func: &str, args: Array, foreign: F) -> (r: Result<Ret, ApiError>)
    requires
        forall|name: NonOwning<NvimString>, list: NonOwning<Array>, fresh: ErrorSlot| #[trigger]
            foreign.requires((name, list, fresh)),
    ensures
        exists|
            name: NonOwning<NvimString>,
            list: NonOwning<Array>,
            fresh: ErrorSlot,
            slot: ErrorSlot,
            returned: Object,
        |
            {
                &&& name@ == encode_utf8(func@)
                &&& list@ == args@
                &&& !fresh.is_err()
                &&& #[trigger] foreign.ensures((name, list, fresh), (slot, returned))
                &&& outcome(r) == completed::<Ret>(slot@, returned@)
            },
{
    let func = NvimString::from_str(func);
    let (slot, returned) = foreign(func.non_owning(), args.non_owning(), ErrorSlot::new());
    complete::<Ret>(slot, returned)
}

/// Executes an Ex command that is given by its parts, and returns its
/// output if it wrote any.
///
/// `foreign` is the call `nvim_cmd`.
pub fn cmd<
    F: FnOnce(u64, NonOwning<Dictionary>, NonOwning<Dictionary>, ErrorSlot) -> (
        ErrorSlot,
        NvimString,
    ),
>(infos: &Dictionary, opts: &Dictionary, foreign: F) -> (r: Result<Option<String>, ApiError>)
    requires
        forall|parts: NonOwning<Dictionary>, how: NonOwning<Dictionary>, fresh: ErrorSlot| #[trigger]
            foreign.requires((LUA_INTERNAL_CALL, parts, how, fresh)),
    ensures
        exists|
            parts: NonOwning<Dictionary>,
            how: NonOwning<Dictionary>,
            fresh: ErrorSlot,
            slot: ErrorSlot,
            output: NvimString,
        |
            {
                &&& parts.source() == *infos
                &&& how.source() == *opts
                &&& !fresh.is_err()
                &&& #[trigger] foreign.ensures(
                    (LUA_INTERNAL_CALL, parts, how, fresh),
                    (slot, output),
                )
                &&& outcome(r) == captured(slot@, output@)
            },
{
    let (slot, output) = foreign(
        LUA_INTERNAL_CALL,
        infos.non_owning(),
        opts.non_owning(),
        ErrorSlot::new(),
    );
    output_reply(slot, output)
}

/// Executes an Ex command.
///
/// `foreign` is the call `nvim_command`.
pub fn command<F: FnOnce(NonOwning<NvimString>, ErrorSlot) -> ErrorSlot>(
    line: &str,
    foreign: F,
) -> (r: Result<(), ApiError>)
    requires
        forall|text: NonOwning<NvimString>, fresh: ErrorSlot| #[trigger]
            foreign.requires((text, fresh)),
    ensures
        exists|text: NonOwning<NvimString>, fresh: ErrorSlot, slot: ErrorSlot|
            {
                &&& text@ == encode_utf8(line@)
                &&& !fresh.is_err()
                &&& #[trigger] foreign.ensures((text, fresh), slot)
                &&& outcome(r) == completed::<()>(slot@, Value::Nil)
            },
{
    let line = NvimString::from_str(line);
    let slot = foreign(line.non_owning(), ErrorSlot::new());
    finish(slot)
}

/// Evaluates a Vimscript expression.
///
/// `foreign` is the call `nvim_eval`.
pub fn eval<V: FromObject, F: FnOnce(NonOwning<NvimString>, ErrorSlot) -> (ErrorSlot, Object)>(
    expr: &str,
    foreign: F,
) -> (r: Result<V, ApiError>)
    requires
        forall|text: NonOwning<NvimString>, fresh: ErrorSlot| #[trigger]
            foreign.requires((text, fresh)),
    ensures
        exists|text: NonOwning<NvimString>, fresh: ErrorSlot, slot: ErrorSlot, returned: Object|
            {
                &&& text@ == encode_utf8(expr@)
                &&& !fresh.is_err()
                &&& #[trigger] foreign.ensures((text, fresh), (slot, returned))
                &&& outcome(r) == completed::<V>(slot@, returned@)
            },
{
    let expr = NvimString::from_str(expr);
    let (slot, returned) = foreign(expr.non_owning(), ErrorSlot::new());
    complete::<V>(slot, returned)
}

/// Executes several lines of Ex commands. Where `output` is set, what
/// they write is captured and returned, if they wrote anything.
///
/// `foreign` is the call `nvim_exec`.
pub fn exec<F: FnOnce(u64, NonOwning<NvimString>, bool, ErrorSlot) -> (ErrorSlot, NvimString)>(
    src: &str,
    output: bool,
    foreign: F,
) -> (r: Result<Option<String>, ApiError>)
    requires
        forall|text: NonOwning<NvimString>, fresh: ErrorSlot| #[trigger]
            foreign.requires((LUA_INTERNAL_CALL, text, output, fresh)),
    ensures
        exists|text: NonOwning<NvimString>, fresh: ErrorSlot, slot: ErrorSlot, written: NvimString|
            {
                &&& text@ == encode_utf8(src@)
                &&& !fresh.is_err()
                &&& #[trigger] foreign.ensures(
                    (LUA_INTERNAL_CALL, text, output, fresh),
                    (slot, written),
                )
                &&& outcome(r) == captured(slot@, written@)
            },
{
    let src = NvimString::from_str(src);
    let (slot, written) = foreign(LUA_INTERNAL_CALL, src.non_owning(), output, ErrorSlot::new());
    output_reply(slot, written)
}

/// Parses a command line into its parts.
///
/// `foreign` is the call `nvim_parse_cmd`.
pub fn parse_cmd<
    Infos: FromObject,
    F: FnOnce(NonOwning<NvimString>, NonOwning<Dictionary>, ErrorSlot) -> (ErrorSlot, Dictionary),
>(src: &str, opts: &Dictionary, foreign: F) -> (r: Result<Infos, ApiError>)
    requires
        forall|text: NonOwning<NvimString>, how: NonOwning<Dictionary>, fresh: ErrorSlot| #[trigger]
            foreign.requires((text, how, fresh)),
    ensures
        exists|
            text: NonOwning<NvimString>,
            how: NonOwning<Dictionary>,
            fresh: ErrorSlot,
            slot: ErrorSlot,
            parts: Dictionary,
        |
            {
                &&& text@ == encode_utf8(src@)
                &&& how.source() == *opts
                &&& !fresh.is_err()
                &&& #[trigger] foreign.ensures((text, how, fresh), (slot, parts))
                &&& outcome(r) == completed::<Infos>(slot@, Value::Dictionary(parts@))
            },
{
    let src = NvimString::from_str(src);
    let (slot, parts) = foreign(src.non_owning(), opts.non_owning(), ErrorSlot::new());
    complete::<Infos>(slot, Object::Dictionary(parts))
}

/// Parses a Vimscript expression.
///
/// `foreign` is the call `nvim_parse_expression`.
pub fn parse_expression<
    Parsed: FromObject,
    F: FnOnce(NonOwning<NvimString>, NonOwning<NvimString>, bool, ErrorSlot) -> (
        ErrorSlot,
        Dictionary,
    ),
>(expr: &str, flags: &str, include_highlight: bool, foreign: F) -> (r: Result<Parsed, ApiError>)
    requires
        forall|text: NonOwning<NvimString>, how: NonOwning<NvimString>, fresh: ErrorSlot| #[trigger]
            foreign.requires((text, how, include_highlight, fresh)),
    ensures
        exists|
            text: NonOwning<NvimString>,
            how: NonOwning<NvimString>,
            fresh: ErrorSlot,
            slot: ErrorSlot,
            tree: Dictionary,
        |
            {
                &&& text@ == encode_utf8(expr@)
                &&& how@ == encode_utf8(flags@)
                &&& !fresh.is_err()
                &&& #[trigger] foreign.ensures(
                    (text, how, include_highlight, fresh),
                    (slot, tree),
                )
                &&& outcome(r) == completed::<Parsed>(slot@, Value::Dictionary(tree@))
            },
{
    let expr = NvimString::from_str(expr);
    let flags = NvimString::from_str(flags);
    let (slot, tree) = foreign(
        expr.non_owning(),
        flags.non_owning(),
        include_highlight,
        ErrorSlot::new(),
    );
    complete::<Parsed>(slot, Object::Dictionary(tree))
}

} // verus!
