use nvim_oxi::buffer::Buffer;
use nvim_oxi::call::{call, complete, finish, finish_with, ApiError, ErrorSlot, ErrorType};
use nvim_oxi::conversion::{Error, FromObject, ToObject};
use nvim_oxi::extmark::{
    create_namespace, del_extmark_reply, extmark_by_id_reply, get_namespaces, no_extmark,
    position_from, set_decoration_provider,
};
use nvim_oxi::non_owning::NonOwning;
use nvim_oxi::object::{Array, Dictionary, NvimString, Object, ObjectKind};
use nvim_oxi::opts::{GetExtmarkByIdOpts, GetExtmarksOpts};
use nvim_oxi::tabpage::TabPage;
use nvim_oxi::types::{ExtmarkPosition, ProcInfos};
use nvim_oxi::utils::{range_to_limits, Limit};
use nvim_oxi::vimscript::{
    call_dict_function, call_function, cmd, command, eval, exec, output_reply, parse_cmd,
    parse_expression, LUA_INTERNAL_CALL,
};
use nvim_oxi::window::Window;
use std::cell::Cell;

fn text(s: &str) -> Object {
    Object::String(NvimString::from_str(s))
}

fn list(items: Vec<Object>) -> Array {
    Array { items }
}

fn failed(message: &str) -> ErrorSlot {
    ErrorSlot { kind: ErrorType::Exception, message: NvimString::from_str(message) }
}

fn dict(pairs: Vec<(&str, Object)>) -> Dictionary {
    let mut d = Dictionary::new();
    for (k, v) in pairs {
        d.insert(k, v);
    }
    d
}

#[test]
fn fresh_slot_reports_nothing() {
    let slot = ErrorSlot::new();
    assert!(!slot.is_err());
    assert_eq!(slot.kind, ErrorType::NoError);
    assert!(slot.message.bytes.is_empty());
    assert!(failed("x").is_err());
    assert!(ErrorSlot { kind: ErrorType::Validation, message: NvimString::from_str("") }.is_err());
}

#[test]
fn failure_in_the_slot_is_the_outcome() {
    let garbage = Object::Boolean(true);
    let got: Result<i64, ApiError> = complete(failed("boom"), garbage);
    assert_eq!(got, Err(ApiError::Nvim(failed("boom"))));
    let got: Result<i64, ApiError> = complete(failed("boom"), Object::Integer(1));
    assert_eq!(got, Err(ApiError::Nvim(failed("boom"))));
    assert_eq!(finish(failed("boom")), Err(ApiError::Nvim(failed("boom"))));
    assert_eq!(finish_with(failed("boom"), 5u8), Err(ApiError::Nvim(failed("boom"))));
}

#[test]
fn clean_slot_lets_the_payload_be_read() {
    let got: Result<i64, ApiError> = complete(ErrorSlot::new(), Object::Integer(7));
    assert_eq!(got, Ok(7));
    let got: Result<i64, ApiError> = complete(ErrorSlot::new(), Object::Boolean(true));
    assert_eq!(
        got,
        Err(ApiError::Conversion(Error::FromWrongType {
            expected: ObjectKind::Integer,
            actual: ObjectKind::Boolean
        }))
    );
    assert_eq!(finish(ErrorSlot::new()), Ok(()));
    assert_eq!(finish_with(ErrorSlot::new(), 5u8), Ok(5));
}

#[test]
fn stub_that_fails_is_not_decoded() {
    let got: Result<ProcInfos, ApiError> = call(|mut slot: ErrorSlot| {
        slot.kind = ErrorType::Validation;
        slot.message = NvimString::from_str("Invalid buffer id");
        (slot, Object::Integer(-1))
    });
    match got {
        Err(ApiError::Nvim(slot)) => {
            assert_eq!(slot.kind, ErrorType::Validation);
            assert_eq!(slot.message, NvimString::from_str("Invalid buffer id"));
        },
        other => panic!("{:?}", other),
    }
}

#[test]
fn stub_that_succeeds_is_decoded() {
    let got: Result<i64, ApiError> = call(|slot: ErrorSlot| {
        assert!(!slot.is_err());
        (slot, Object::Integer(41))
    });
    assert_eq!(got, Ok(41));
}

#[test]
fn every_call_gets_a_fresh_slot() {
    let seen = Cell::new(0);
    for _ in 0..3 {
        let _: Result<(), ApiError> = call(|slot: ErrorSlot| {
            assert_eq!(slot, ErrorSlot::new());
            seen.set(seen.get() + 1);
            (failed("again"), Object::Nil)
        });
    }
    assert_eq!(seen.get(), 3);
}

#[test]
fn views_leave_the_owner_in_place() {
    let owner = Object::Array(list(vec![text("a"), Object::Integer(1)]));
    let views: Vec<NonOwning<Object>> = (0..100).map(|_| owner.non_owning()).collect();
    for view in &views {
        assert_eq!(view.get(), &owner);
        assert_eq!(view.clone().into_owned(), owner);
    }
    drop(views);
    assert_eq!(owner, Object::Array(list(vec![text("a"), Object::Integer(1)])));
    let name = NvimString::from_str("n");
    assert_eq!(name.non_owning().get(), &name);
    assert_eq!(name.non_owning().into_owned(), name);
    let d = dict(vec![("k", Object::Nil)]);
    assert_eq!(d.non_owning().into_owned(), d);
    let a = list(vec![Object::Nil]);
    assert_eq!(a.non_owning().into_owned(), a);
}

#[test]
fn current_tab_page_is_what_neovim_says() {
    assert_eq!(TabPage::current(|| 4), TabPage(4));
}

#[test]
fn tab_page_round_trips_through_an_integer() {
    assert_eq!(TabPage(3).to_object(), Ok(Object::Integer(3)));
    assert_eq!(TabPage::from_object(Object::Integer(3)), Ok(TabPage(3)));
    assert_eq!(TabPage::from_object(Object::TabPage(3)), Ok(TabPage(3)));
    assert_eq!(TabPage::from_object(Object::Integer(1 << 33)), Err(Error::FromInt));
    assert_eq!(Window::from_object(Window(-1).to_object().unwrap()), Ok(Window(-1)));
    assert_eq!(Buffer::from_object(Buffer(8).to_object().unwrap()), Ok(Buffer(8)));
    assert_eq!(
        Buffer::from_object(Object::Nil),
        Err(Error::FromWrongType { expected: ObjectKind::Integer, actual: ObjectKind::Nil })
    );
}

#[test]
fn tab_page_is_written_with_its_handle() {
    assert_eq!(TabPage(5).to_text(), "TabPage(5)");
    assert_eq!(TabPage(-5).to_text(), "TabPage(-5)");
    assert_eq!(TabPage(i32::MIN).to_text(), "TabPage(-2147483648)");
}

#[test]
fn tab_page_calls_hand_over_their_arguments() {
    let mut tab = TabPage(2);
    let got = tab.del_var("x", |handle, name, slot| {
        assert_eq!(handle, 2);
        assert_eq!(name.get(), &NvimString::from_str("x"));
        assert!(!slot.is_err());
        slot
    });
    assert_eq!(got, Ok(()));
    assert_eq!(tab.del_var("x", |_, _, _| failed("no")), Err(ApiError::Nvim(failed("no"))));
    assert_eq!(tab.get_number(|_, slot| (slot, 3)), Ok(3));
    assert_eq!(
        tab.get_number(|_, slot| (slot, -1)),
        Err(ApiError::Conversion(Error::FromInt))
    );
    assert_eq!(tab.get_number(|_, _| (failed("no"), 3)), Err(ApiError::Nvim(failed("no"))));
    assert_eq!(tab.get_var::<String, _>("v", |_, _, slot| (slot, text("val"))), Ok("val".to_string()));
    assert_eq!(
        tab.get_var::<String, _>("v", |_, _, slot| (slot, Object::Nil)),
        Err(ApiError::Conversion(Error::FromWrongType {
            expected: ObjectKind::String,
            actual: ObjectKind::Nil
        }))
    );
    assert_eq!(tab.get_win(|_, slot| (slot, 9)), Ok(Window(9)));
    assert_eq!(tab.get_win(|_, _| (failed("no"), 9)), Err(ApiError::Nvim(failed("no"))));
    assert!(tab.is_valid(|handle| handle == 2));
    assert!(!tab.is_valid(|_| false));
    assert_eq!(
        tab.list_wins(|_, slot| (slot, list(vec![Object::Window(1), Object::Integer(2)]))),
        Ok(vec![Window(1), Window(2)])
    );
    assert_eq!(
        tab.list_wins(|_, slot| (slot, list(vec![Object::Window(1), Object::Nil]))),
        Err(ApiError::Conversion(Error::FromWrongType {
            expected: ObjectKind::Integer,
            actual: ObjectKind::Nil
        }))
    );
    let got = tab.set_var("v", 5u8, |_, name, value, slot| {
        assert_eq!(name.get(), &NvimString::from_str("v"));
        assert_eq!(value.get(), &Object::Integer(5));
        slot
    });
    assert_eq!(got, Ok(()));
    let called = Cell::new(false);
    let got = tab.set_var("v", u64::MAX, |_, _, _, slot| {
        called.set(true);
        slot
    });
    assert_eq!(got, Err(ApiError::Conversion(Error::FromInt)));
    assert!(!called.get());
    assert_eq!(tab, TabPage(2));
}

#[test]
fn limits_of_ranges() {
    assert_eq!(range_to_limits(Limit::Unbounded, Limit::Unbounded), (0, -1));
    assert_eq!(range_to_limits(Limit::Included(2), Limit::Excluded(5)), (2, 5));
    assert_eq!(range_to_limits(Limit::Excluded(2), Limit::Included(5)), (3, 6));
    assert_eq!(range_to_limits(Limit::Included(0), Limit::Included(0)), (0, 1));
}

#[test]
fn missing_extmark_is_said_in_words() {
    assert_eq!(no_extmark(12), ApiError::Custom("No extmark with id 12 was found".to_string()));
    assert_eq!(del_extmark_reply(ErrorSlot::new(), true, 12), Ok(()));
    assert_eq!(
        del_extmark_reply(ErrorSlot::new(), false, 0),
        Err(ApiError::Custom("No extmark with id 0 was found".to_string()))
    );
    assert_eq!(del_extmark_reply(failed("no"), true, 12), Err(ApiError::Nvim(failed("no"))));
    assert_eq!(del_extmark_reply(failed("no"), false, 12), Err(ApiError::Nvim(failed("no"))));
}

#[test]
fn position_of_an_extmark_is_read() {
    assert_eq!(
        position_from(list(vec![Object::Integer(1), Object::Integer(2)])),
        Ok((1, 2, None))
    );
    let infos = Object::Dictionary(dict(vec![("right_gravity", Object::Boolean(false))]));
    let got = position_from(list(vec![Object::Integer(1), Object::Integer(2), infos])).unwrap();
    assert_eq!((got.0, got.1), (1, 2));
    assert!(!got.2.unwrap().right_gravity);
    assert_eq!(
        position_from(list(vec![Object::Integer(1)])),
        Err(Error::WrongLength { wanted: 2, found: 1 })
    );
    assert_eq!(
        position_from(list(vec![Object::Integer(-1), Object::Integer(2)])),
        Err(Error::FromInt)
    );
    assert_eq!(
        position_from(list(vec![Object::Integer(1), Object::Integer(2), Object::Nil])),
        Err(Error::FromWrongType { expected: ObjectKind::Dictionary, actual: ObjectKind::Nil })
    );
    assert_eq!(
        extmark_by_id_reply(ErrorSlot::new(), list(vec![]), 5),
        Err(ApiError::Custom("No extmark with id 5 was found".to_string()))
    );
    assert_eq!(
        extmark_by_id_reply(failed("no"), list(vec![]), 5),
        Err(ApiError::Nvim(failed("no")))
    );
    assert_eq!(
        extmark_by_id_reply(ErrorSlot::new(), list(vec![Object::Integer(3), Object::Integer(4)]), 5),
        Ok((3, 4, None))
    );
}

#[test]
fn buffer_calls_hand_over_their_arguments() {
    let mut buf = Buffer(1);
    let got = buf.add_highlight(
        7,
        "Comment",
        3,
        Limit::Included(2),
        Limit::Unbounded,
        |handle, ns, group, line, start, end, slot| {
            assert_eq!((handle, ns, line, start, end), (1, 7, 3, 2, -1));
            assert_eq!(group.get(), &NvimString::from_str("Comment"));
            (slot, 7)
        },
    );
    assert_eq!(got, Ok(7));
    let got = buf.clear_namespace(7, Limit::Unbounded, Limit::Included(4), |handle, ns, start, end, slot| {
        assert_eq!((handle, ns, start, end), (1, 7, 0, 5));
        slot
    });
    assert_eq!(got, Ok(()));
    let got = buf.del_extmark(7, 9, |handle, ns, id, slot| {
        assert_eq!((handle, ns, id), (1, 7, 9));
        (slot, false)
    });
    assert_eq!(got, Err(ApiError::Custom("No extmark with id 9 was found".to_string())));
    assert_eq!(buf.del_extmark(7, 9, |_, _, _, slot| (slot, true)), Ok(()));
    let opts = GetExtmarkByIdOpts { details: Some(true) };
    let got = buf.get_extmark_by_id(7, 9, &opts, |_, ns, id, opts, slot| {
        assert_eq!((ns, id), (7, 9));
        assert_eq!(opts.get(), &dict(vec![("details", Object::Boolean(true))]));
        (slot, list(vec![Object::Integer(0), Object::Integer(5)]))
    });
    assert_eq!(got, Ok((0, 5, None)));
    let opts = GetExtmarksOpts { details: None, limit: Some(10) };
    let got = buf.get_extmarks(
        7,
        ExtmarkPosition::ByTuple((0, 0)),
        ExtmarkPosition::ById(4),
        &opts,
        |_, _, from, to, opts, slot| {
            assert_eq!(from.get(), &Object::Array(list(vec![Object::Integer(0), Object::Integer(0)])));
            assert_eq!(to.get(), &Object::Integer(4));
            assert_eq!(opts.get(), &dict(vec![("limit", Object::Integer(10))]));
            let first = list(vec![Object::Integer(1), Object::Integer(2), Object::Integer(3)]);
            let second = list(vec![Object::Integer(4), Object::Integer(5), Object::Integer(6)]);
            (slot, list(vec![Object::Array(first), Object::Array(second)]))
        },
    );
    assert_eq!(got, Ok(vec![(1, 2, 3, None), (4, 5, 6, None)]));
    let got = buf.get_extmarks(
        7,
        ExtmarkPosition::ById(1),
        ExtmarkPosition::ById(4),
        &opts,
        |_, _, _, _, _, slot| (slot, list(vec![Object::Array(list(vec![Object::Integer(1)]))])),
    );
    assert_eq!(got, Err(ApiError::Conversion(Error::WrongLength { wanted: 3, found: 1 })));
    let called = Cell::new(false);
    let got = buf.get_extmarks(
        7,
        ExtmarkPosition::ByTuple((usize::MAX, 0)),
        ExtmarkPosition::ById(4),
        &opts,
        |_, _, _, _, _, slot| {
            called.set(true);
            (slot, list(vec![]))
        },
    );
    assert_eq!(got, Err(ApiError::Conversion(Error::FromInt)));
    assert!(!called.get());
    let set = dict(vec![("id", Object::Integer(1))]);
    let got = buf.set_extmark(7, 1, 2, &set, |_, ns, line, col, opts, slot| {
        assert_eq!((ns, line, col), (7, 1, 2));
        assert_eq!(opts.get(), &dict(vec![("id", Object::Integer(1))]));
        (slot, 1)
    });
    assert_eq!(got, Ok(1));
    assert_eq!(
        buf.set_extmark(7, 1, 2, &set, |_, _, _, _, _, slot| (slot, -1)),
        Err(ApiError::Conversion(Error::FromInt))
    );
    assert_eq!(buf, Buffer(1));
}

#[test]
fn namespaces_are_created_and_listed() {
    let got = create_namespace("mine", |name| {
        assert_eq!(name.get(), &NvimString::from_str("mine"));
        4
    });
    assert_eq!(got, Ok(4));
    assert_eq!(create_namespace("mine", |_| -4), Err(ApiError::Conversion(Error::FromInt)));
    let got = get_namespaces(|| dict(vec![("a", Object::Integer(1)), ("b", Object::Integer(2))]));
    assert_eq!(got, Ok(vec![("a".to_string(), 1), ("b".to_string(), 2)]));
    let got = get_namespaces(|| dict(vec![("a", Object::Integer(1)), ("b", Object::Integer(-2))]));
    assert_eq!(got, Err(ApiError::Conversion(Error::FromInt)));
    let got = get_namespaces(Dictionary::new);
    assert_eq!(got, Ok(vec![]));
    let opts = dict(vec![("on_win", Object::LuaRef(1))]);
    assert_eq!(set_decoration_provider(3, &opts, |ns, _, slot| {
        assert_eq!(ns, 3);
        slot
    }), Ok(()));
}

#[test]
fn captured_output_is_none_when_empty() {
    assert_eq!(output_reply(ErrorSlot::new(), NvimString::from_str("")), Ok(None));
    assert_eq!(
        output_reply(ErrorSlot::new(), NvimString::from_str("hi")),
        Ok(Some("hi".to_string()))
    );
    assert_eq!(
        output_reply(ErrorSlot::new(), NvimString { bytes: vec![0xff] }),
        Err(ApiError::Conversion(Error::FromUtf8))
    );
    assert_eq!(
        output_reply(failed("no"), NvimString { bytes: vec![0xff] }),
        Err(ApiError::Nvim(failed("no")))
    );
}

#[test]
fn vimscript_calls_hand_over_their_arguments() {
    assert_eq!(LUA_INTERNAL_CALL, (1u64 << 63) + 1);
    let got: Result<i64, ApiError> = call_dict_function(
        "g:dict",
        "f",
        list(vec![Object::Integer(1)]),
        |on, name, args, slot| {
            assert_eq!(on.get(), &text("g:dict"));
            assert_eq!(name.get(), &NvimString::from_str("f"));
            assert_eq!(args.get(), &list(vec![Object::Integer(1)]));
            (slot, Object::Integer(2))
        },
    );
    assert_eq!(got, Ok(2));
    let got: Result<String, ApiError> = call_function("toupper", list(vec![text("a")]), |name, _, slot| {
        assert_eq!(name.get(), &NvimString::from_str("toupper"));
        (slot, text("A"))
    });
    assert_eq!(got, Ok("A".to_string()));
    assert_eq!(command("echo 1", |line, slot| {
        assert_eq!(line.get(), &NvimString::from_str("echo 1"));
        slot
    }), Ok(()));
    assert_eq!(command("x", |_, _| failed("E492")), Err(ApiError::Nvim(failed("E492"))));
    let got: Result<Vec<u8>, ApiError> = eval("[1, 2]", |_, slot| {
        (slot, Object::Array(list(vec![Object::Integer(1), Object::Integer(2)])))
    });
    assert_eq!(got, Ok(vec![1, 2]));
    let got = exec("echo 'a'", true, |channel, src, output, slot| {
        assert_eq!(channel, LUA_INTERNAL_CALL);
        assert_eq!(src.get(), &NvimString::from_str("echo 'a'"));
        assert!(output);
        (slot, NvimString::from_str("a"))
    });
    assert_eq!(got, Ok(Some("a".to_string())));
    assert_eq!(exec("", false, |_, _, _, slot| (slot, NvimString::from_str(""))), Ok(None));
    let infos = dict(vec![("cmd", text("echo"))]);
    let opts = dict(vec![("output", Object::Boolean(true))]);
    let got = cmd(&infos, &opts, |channel, parts, how, slot| {
        assert_eq!(channel, LUA_INTERNAL_CALL);
        assert_eq!(parts.get(), &dict(vec![("cmd", text("echo"))]));
        assert_eq!(how.get(), &dict(vec![("output", Object::Boolean(true))]));
        (slot, NvimString::from_str("out"))
    });
    assert_eq!(got, Ok(Some("out".to_string())));
    let got: Result<ProcInfos, ApiError> = parse_cmd("x", &opts, |_, _, slot| {
        (slot, dict(vec![("pid", Object::Integer(1))]))
    });
    assert_eq!(got, Ok(ProcInfos { name: None, pid: Some(1), ppid: None }));
    let got: Result<Dictionary, ApiError> = parse_expression("1+1", "m", false, |expr, flags, hl, slot| {
        assert_eq!(expr.get(), &NvimString::from_str("1+1"));
        assert_eq!(flags.get(), &NvimString::from_str("m"));
        assert!(!hl);
        (slot, dict(vec![("len", Object::Integer(3))]))
    });
    assert_eq!(got, Ok(dict(vec![("len", Object::Integer(3))])));
}

#[test]
fn api_error_clone_is_equal() {
    for e in [
        ApiError::Nvim(failed("x")),
        ApiError::Conversion(Error::FromInt),
        ApiError::Custom("c".to_string()),
    ] {
        assert_eq!(e.clone(), e);
    }
    let value = 5u8.to_object().unwrap();
    assert_eq!(u8::from_object(value), Ok(5));
}
