use nvim_oxi::bridge::{tagged_from, Absent};
use nvim_oxi::buffer::Buffer;
use nvim_oxi::conversion::{Error, FromObject, ToObject};
use nvim_oxi::function::Function;
use nvim_oxi::object::{Array, Dictionary, NvimString, Object, ObjectKind};
use nvim_oxi::types::command_infos::parse_count;
use nvim_oxi::types::command_modifiers::empty_string_is_none;
use nvim_oxi::types::{
    AutocmdCallbackArgs, CommandAddr, CommandArgs, CommandComplete, CommandInfos,
    CommandModifiers, CommandNArgs, CommandRange, ExtmarkHlMode, ExtmarkInfos,
    ExtmarkPosition, ExtmarkVirtTextPosition, GotMode, HighlightInfos, Mode, ProcInfos,
    SplitModifier, StatuslineHighlightInfos, StatuslineInfos,
};

fn text(s: &str) -> Object {
    Object::String(NvimString::from_str(s))
}

fn list(items: Vec<Object>) -> Object {
    Object::Array(Array { items })
}

fn dict(pairs: Vec<(&str, Object)>) -> Object {
    let mut d = Dictionary::new();
    for (k, v) in pairs {
        d.insert(k, v);
    }
    Object::Dictionary(d)
}

fn in_field(field: &'static str, cause: Error) -> Error {
    Error::InvalidField { field, cause: Box::new(cause) }
}

#[test]
fn struct_is_written_as_a_map_of_its_fields() {
    let infos = ProcInfos { name: Some("a".to_string()), pid: Some(7), ppid: None };
    assert_eq!(infos.to_object(), Ok(dict(vec![("name", text("a")), ("pid", Object::Integer(7))])));
}

#[test]
fn absent_key_of_an_optional_field_is_none() {
    let got = ProcInfos::from_object(dict(vec![("name", text("b"))]));
    assert_eq!(got, Ok(ProcInfos { name: Some("b".to_string()), pid: None, ppid: None }));
}

#[test]
fn struct_round_trip_on_values() {
    for infos in [
        ProcInfos { name: None, pid: None, ppid: None },
        ProcInfos { name: Some("nvim".to_string()), pid: Some(1), ppid: Some(0) },
        ProcInfos { name: None, pid: Some(u32::MAX), ppid: None },
    ] {
        assert_eq!(ProcInfos::from_object(infos.clone().to_object().unwrap()), Ok(infos));
    }
}

#[test]
fn unknown_key_is_ignored() {
    let plain = dict(vec![("name", text("b")), ("pid", Object::Integer(3))]);
    let first = dict(vec![("extra", Object::Boolean(true)), ("name", text("b")), ("pid", Object::Integer(3))]);
    let middle = dict(vec![("name", text("b")), ("extra", list(vec![])), ("pid", Object::Integer(3))]);
    let last = dict(vec![("name", text("b")), ("pid", Object::Integer(3)), ("extra", Object::Nil)]);
    let want = ProcInfos::from_object(plain);
    assert_eq!(want, Ok(ProcInfos { name: Some("b".to_string()), pid: Some(3), ppid: None }));
    assert_eq!(ProcInfos::from_object(first), want);
    assert_eq!(ProcInfos::from_object(middle), want);
    assert_eq!(ProcInfos::from_object(last), want);
}

#[test]
fn key_that_is_no_text_is_ignored() {
    let d = Dictionary {
        pairs: vec![
            (Object::Integer(1), Object::Integer(2)),
            (text("pid"), Object::Integer(3)),
        ],
    };
    assert_eq!(
        ProcInfos::from_object(Object::Dictionary(d)),
        Ok(ProcInfos { name: None, pid: Some(3), ppid: None })
    );
}

#[test]
fn missing_required_key_is_named() {
    assert_eq!(
        GotMode::from_object(dict(vec![("blocking", Object::Boolean(true))])),
        Err(Error::MissingField { field: "mode" })
    );
    assert_eq!(
        GotMode::from_object(dict(vec![("mode", text("n"))])),
        Err(Error::MissingField { field: "blocking" })
    );
    assert_eq!(
        ExtmarkInfos::from_object(dict(vec![("end_col", Object::Integer(1))])),
        Err(Error::MissingField { field: "right_gravity" })
    );
}

#[test]
fn field_of_the_wrong_kind_is_named() {
    assert_eq!(
        GotMode::from_object(dict(vec![("blocking", Object::Integer(1)), ("mode", text("n"))])),
        Err(in_field(
            "blocking",
            Error::FromWrongType { expected: ObjectKind::Boolean, actual: ObjectKind::Integer }
        ))
    );
    assert_eq!(
        ProcInfos::from_object(dict(vec![("pid", Object::Integer(-1))])),
        Err(in_field("pid", Error::FromInt))
    );
    assert_eq!(
        ProcInfos::from_object(dict(vec![("name", Object::Boolean(true)), ("pid", text("x"))])),
        Err(in_field(
            "name",
            Error::FromWrongType { expected: ObjectKind::String, actual: ObjectKind::Boolean }
        ))
    );
}

#[test]
fn nested_field_carries_its_path() {
    let bad = dict(vec![
        ("highlights", list(vec![dict(vec![("group", text("g")), ("start", text("x"))])])),
        ("str", text("s")),
        ("width", Object::Integer(1)),
    ]);
    assert_eq!(
        StatuslineInfos::from_object(bad),
        Err(in_field(
            "highlights",
            in_field(
                "start",
                Error::FromWrongType { expected: ObjectKind::Integer, actual: ObjectKind::String }
            )
        ))
    );
}

#[test]
fn first_of_two_equal_keys_counts() {
    let got = ProcInfos::from_object(dict(vec![
        ("pid", Object::Integer(1)),
        ("pid", Object::Integer(2)),
    ]));
    assert_eq!(got, Ok(ProcInfos { name: None, pid: Some(1), ppid: None }));
}

#[test]
fn struct_is_read_from_a_map_only() {
    assert_eq!(
        ProcInfos::from_object(Object::Integer(1)),
        Err(Error::FromWrongType { expected: ObjectKind::Dictionary, actual: ObjectKind::Integer })
    );
    assert_eq!(
        ProcInfos::from_object(list(vec![Object::Nil])),
        Err(Error::FromWrongType { expected: ObjectKind::Dictionary, actual: ObjectKind::Array })
    );
}

#[test]
fn empty_list_is_an_empty_map() {
    assert_eq!(
        ProcInfos::from_object(list(vec![])),
        Ok(ProcInfos { name: None, pid: None, ppid: None })
    );
    assert_eq!(
        GotMode::from_object(list(vec![])),
        Err(Error::MissingField { field: "blocking" })
    );
}

#[test]
fn unit_variant_is_its_name_as_text() {
    assert_eq!(CommandAddr::LoadedBuffers.to_object(), Ok(text("loaded_buffers")));
    assert_eq!(CommandAddr::from_object(text("loaded_buffers")), Ok(CommandAddr::LoadedBuffers));
    assert_eq!(CommandAddr::from_object(text("tabs")), Ok(CommandAddr::Tabs));
    assert_eq!(
        CommandAddr::from_object(text("LoadedBuffers")),
        Err(Error::UnknownVariant { of: "CommandAddr" })
    );
    assert_eq!(
        CommandAddr::from_object(Object::Integer(1)),
        Err(Error::FromWrongType { expected: ObjectKind::String, actual: ObjectKind::Integer })
    );
}

#[test]
fn every_address_round_trips() {
    for addr in [
        CommandAddr::Lines,
        CommandAddr::Arguments,
        CommandAddr::Buffers,
        CommandAddr::LoadedBuffers,
        CommandAddr::Windows,
        CommandAddr::Tabs,
        CommandAddr::Quickfix,
        CommandAddr::Other,
    ] {
        assert_eq!(CommandAddr::from_object(addr.to_object().unwrap()), Ok(addr));
    }
}

#[test]
fn number_of_arguments_has_its_own_names() {
    let all = [
        (CommandNArgs::Zero, "0"),
        (CommandNArgs::One, "1"),
        (CommandNArgs::ZeroOrOne, "?"),
        (CommandNArgs::OneOrMore, "+"),
        (CommandNArgs::Any, "*"),
    ];
    for (nargs, name) in all {
        assert_eq!(nargs.to_object(), Ok(text(name)));
        assert_eq!(CommandNArgs::from_object(text(name)), Ok(nargs));
        assert_eq!(nargs.as_str(), name);
    }
    assert_eq!(CommandNArgs::default(), CommandNArgs::Zero);
    assert_eq!(
        CommandNArgs::from_object(text("2")),
        Err(Error::UnknownVariant { of: "CommandNArgs" })
    );
}

#[test]
fn variant_with_payload_is_a_map_of_one_entry() {
    let complete = CommandComplete::CustomList(Function::from_ref(9));
    assert_eq!(complete.to_object(), Ok(dict(vec![("custom_list", Object::LuaRef(9))])));
    assert_eq!(CommandComplete::FileInPath.to_object(), Ok(text("file_in_path")));
    assert_eq!(CommandComplete::TagListfiles.to_object(), Ok(text("tag_listfiles")));
    assert_eq!(CommandComplete::Var.to_object(), Ok(text("var")));
    assert_eq!(CommandComplete::Arglist.to_object(), Ok(text("arglist")));
}

#[test]
fn other_enums_are_read_by_name() {
    assert_eq!(Mode::from_object(text("n")), Ok(Mode::Normal));
    assert_eq!(Mode::from_object(text(" ")), Ok(Mode::NormalVisualOperator));
    assert_eq!(Mode::from_object(text("!")), Ok(Mode::InsertCmdLine));
    assert_eq!(Mode::from_object(text("nn")), Err(Error::UnknownVariant { of: "Mode" }));
    assert_eq!(SplitModifier::from_object(text("botright")), Ok(SplitModifier::BotRight));
    assert_eq!(ExtmarkHlMode::from_object(text("blend")), Ok(ExtmarkHlMode::Blend));
    assert_eq!(
        ExtmarkVirtTextPosition::from_object(text("right_align")),
        Ok(ExtmarkVirtTextPosition::RightAlign)
    );
    assert_eq!(ExtmarkVirtTextPosition::Eol.to_object(), Ok(text("eol")));
}

#[test]
fn range_is_a_sign_or_a_count() {
    assert_eq!(CommandRange::from_object(text(".")), Ok(CommandRange::CurrentLine));
    assert_eq!(CommandRange::from_object(text("%")), Ok(CommandRange::WholeFile));
    assert_eq!(CommandRange::from_object(text("12")), Ok(CommandRange::Count(12)));
    assert_eq!(CommandRange::from_object(text("x")), Err(Error::InvalidNumber));
    assert_eq!(CommandRange::from_object(text("")), Err(Error::InvalidNumber));
    assert_eq!(
        CommandRange::from_object(Object::String(NvimString { bytes: vec![0xff] })),
        Err(Error::FromUtf8)
    );
    assert_eq!(
        CommandRange::from_object(Object::Integer(1)),
        Err(Error::FromWrongType { expected: ObjectKind::String, actual: ObjectKind::Integer })
    );
}

#[test]
fn count_is_parsed_from_text() {
    assert_eq!(parse_count(None), Ok(None));
    assert_eq!(parse_count(Some("12".to_string())), Ok(Some(12)));
    assert_eq!(parse_count(Some("".to_string())), Err(Error::InvalidNumber));
    assert_eq!(parse_count(Some("abc".to_string())), Err(Error::InvalidNumber));
}

#[test]
fn empty_split_is_none() {
    assert_eq!(empty_string_is_none(None), Ok(None));
    assert_eq!(empty_string_is_none(Some(NvimString::from_str(""))), Ok(None));
    assert_eq!(
        empty_string_is_none(Some(NvimString::from_str("topleft"))),
        Ok(Some(SplitModifier::TopLeft))
    );
    assert_eq!(
        empty_string_is_none(Some(NvimString::from_str("up"))),
        Err(Error::UnknownVariant { of: "SplitModifier" })
    );
}

fn modifiers_map(split: Object) -> Object {
    let mut pairs: Vec<(&str, Object)> = Vec::new();
    for name in [
        "browse", "confirm", "emsg_silent", "hide", "keepalt", "keepjumps", "keepmarks",
        "keeppatterns", "lockmarks", "noautocmd", "noswapfile", "sandbox", "silent",
    ] {
        pairs.push((name, Object::Boolean(name == "silent")));
    }
    pairs.push(("split", split));
    pairs.push(("tab", Object::Integer(2)));
    pairs.push(("verbose", Object::Integer(-1)));
    pairs.push(("vertical", Object::Boolean(true)));
    dict(pairs)
}

fn modifiers(split: Option<SplitModifier>) -> CommandModifiers {
    let mut m = CommandModifiers::default();
    m.silent = true;
    m.split = split;
    m.tab = 2;
    m.verbose = -1;
    m.vertical = true;
    m
}

#[test]
fn modifiers_are_read_and_written() {
    assert_eq!(CommandModifiers::from_object(modifiers_map(text(""))), Ok(modifiers(None)));
    assert_eq!(CommandModifiers::from_object(modifiers_map(Object::Nil)), Ok(modifiers(None)));
    assert_eq!(
        CommandModifiers::from_object(modifiers_map(text("aboveleft"))),
        Ok(modifiers(Some(SplitModifier::AboveLeft)))
    );
    assert_eq!(
        CommandModifiers::from_object(modifiers_map(text("sideways"))),
        Err(in_field("split", Error::UnknownVariant { of: "SplitModifier" }))
    );
    assert_eq!(
        modifiers(Some(SplitModifier::AboveLeft)).to_object(),
        Ok(modifiers_map(text("aboveleft")))
    );
    assert_eq!(modifiers(None).to_object(), Ok(modifiers_map(Object::Nil)));
    assert_eq!(
        CommandModifiers::from_object(modifiers(None).to_object().unwrap()),
        Ok(modifiers(None))
    );
    assert_eq!(
        CommandModifiers::from_object(dict(vec![("browse", Object::Boolean(true))])),
        Err(Error::MissingField { field: "confirm" })
    );
    let d = CommandModifiers::default();
    assert!(!d.browse && !d.vertical && d.split.is_none() && d.tab == 0 && d.verbose == 0);
}

#[test]
fn late_field_of_a_long_struct_is_reported() {
    let mut pairs: Vec<(&str, Object)> = Vec::new();
    for name in [
        "browse", "confirm", "emsg_silent", "hide", "keepalt", "keepjumps", "keepmarks",
        "keeppatterns", "lockmarks", "noautocmd", "noswapfile", "sandbox", "silent",
    ] {
        pairs.push((name, Object::Boolean(false)));
    }
    pairs.push(("split", text("")));
    pairs.push(("tab", Object::Integer(2)));
    pairs.push(("verbose", Object::Integer(1 << 40)));
    pairs.push(("vertical", Object::Boolean(true)));
    assert_eq!(
        CommandModifiers::from_object(dict(pairs)),
        Err(in_field("verbose", Error::FromInt))
    );
}

#[test]
fn command_infos_are_read() {
    let map = dict(vec![
        ("addr", text("lines")),
        ("bang", Object::Boolean(true)),
        ("bar", Object::Boolean(false)),
        ("callback", Object::LuaRef(5)),
        ("complete", Object::Nil),
        ("count", text("3")),
        ("definition", text("echo")),
        ("keepscript", Object::Boolean(false)),
        ("name", text("Hello")),
        ("nargs", text("*")),
        ("range", text("%")),
        ("register", Object::Boolean(false)),
        ("script_id", Object::Integer(-9)),
    ]);
    let want = CommandInfos {
        addr: Some(CommandAddr::Lines),
        bang: true,
        bar: false,
        callback: Some(Function::from_ref(5)),
        complete: None,
        complete_arg: None,
        count: Some(3),
        definition: Some("echo".to_string()),
        keepscript: false,
        name: "Hello".to_string(),
        nargs: CommandNArgs::Any,
        range: Some(CommandRange::WholeFile),
        register: false,
        script_id: -9,
    };
    assert_eq!(CommandInfos::from_object(map), Ok(want));
}

fn command_infos_with(count: Option<Object>, nargs: Option<Object>) -> Object {
    let mut pairs = vec![
        ("bang", Object::Boolean(true)),
        ("bar", Object::Boolean(false)),
        ("keepscript", Object::Boolean(false)),
        ("name", text("Hello")),
        ("register", Object::Boolean(false)),
        ("script_id", Object::Integer(1)),
    ];
    if let Some(count) = count {
        pairs.push(("count", count));
    }
    if let Some(nargs) = nargs {
        pairs.push(("nargs", nargs));
    }
    dict(pairs)
}

#[test]
fn count_of_a_command_goes_through_its_hook() {
    let got = CommandInfos::from_object(command_infos_with(Some(Object::Nil), None)).unwrap();
    assert_eq!(got.count, None);
    assert_eq!(got.nargs, CommandNArgs::Zero);
    let got = CommandInfos::from_object(command_infos_with(Some(text("10")), Some(text("?")))).unwrap();
    assert_eq!(got.count, Some(10));
    assert_eq!(got.nargs, CommandNArgs::ZeroOrOne);
    assert_eq!(
        CommandInfos::from_object(command_infos_with(Some(text("ten")), None)),
        Err(in_field("count", Error::InvalidNumber))
    );
    assert_eq!(
        CommandInfos::from_object(command_infos_with(None, None)),
        Err(Error::MissingField { field: "count" })
    );
    assert_eq!(
        CommandInfos::from_object(command_infos_with(Some(Object::Integer(3)), None)),
        Err(in_field(
            "count",
            Error::FromWrongType { expected: ObjectKind::String, actual: ObjectKind::Integer }
        ))
    );
}

#[test]
fn extmark_infos_are_read() {
    let map = dict(vec![
        ("right_gravity", Object::Boolean(true)),
        ("end_row", Object::Integer(4)),
        ("hl_mode", text("combine")),
        ("virt_text", list(vec![list(vec![text("a"), text("Comment")])])),
        (
            "virt_lines",
            list(vec![list(vec![list(vec![text("b"), text("Error")])]), list(vec![])]),
        ),
        ("virt_text_pos", text("overlay")),
        ("virt_text_win_col", Object::Integer(-2)),
        ("ns_id", Object::Integer(1)),
    ]);
    let got = ExtmarkInfos::from_object(map).unwrap();
    assert!(got.right_gravity);
    assert_eq!(got.end_row, Some(4));
    assert_eq!(got.end_col, None);
    assert_eq!(got.hl_mode, Some(ExtmarkHlMode::Combine));
    assert_eq!(got.virt_text, Some(vec![("a".to_string(), "Comment".to_string())]));
    assert_eq!(
        got.virt_lines,
        Some(vec![vec![("b".to_string(), "Error".to_string())], vec![]])
    );
    assert_eq!(got.virt_text_pos, Some(ExtmarkVirtTextPosition::Overlay));
    assert_eq!(got.virt_text_win_col, Some(-2));
    assert_eq!(got.priority, None);
}

#[test]
fn late_field_of_extmark_infos_is_reported() {
    let map = dict(vec![
        ("right_gravity", Object::Boolean(true)),
        ("virt_text_win_col", text("x")),
    ]);
    assert_eq!(
        ExtmarkInfos::from_object(map),
        Err(in_field(
            "virt_text_win_col",
            Error::FromWrongType { expected: ObjectKind::Integer, actual: ObjectKind::String }
        ))
    );
}

#[test]
fn highlight_infos_are_read() {
    let got = HighlightInfos::from_object(dict(vec![
        ("foreground", Object::Integer(0xff00ff)),
        ("bold", Object::Boolean(true)),
        ("underlineline", Object::Boolean(false)),
    ]))
    .unwrap();
    assert_eq!(got.foreground, Some(0xff00ff));
    assert_eq!(got.bold, Some(true));
    assert_eq!(got.underlineline, Some(false));
    assert_eq!(got.background, None);
    assert_eq!(got.italic, None);
    assert_eq!(
        HighlightInfos::from_object(dict(vec![("underlineline", Object::Integer(1))])),
        Err(in_field(
            "underlineline",
            Error::FromWrongType { expected: ObjectKind::Boolean, actual: ObjectKind::Integer }
        ))
    );
}

#[test]
fn statusline_infos_default_to_no_highlights() {
    let got = StatuslineInfos::from_object(dict(vec![("str", text("ab")), ("width", Object::Integer(2))]));
    assert_eq!(got, Ok(StatuslineInfos { highlights: vec![], str: "ab".to_string(), width: 2 }));
    let got = StatuslineInfos::from_object(dict(vec![
        ("str", text("ab")),
        ("width", Object::Integer(2)),
        ("highlights", list(vec![dict(vec![("group", text("Normal")), ("start", Object::Integer(0))])])),
    ]));
    assert_eq!(
        got,
        Ok(StatuslineInfos {
            highlights: vec![StatuslineHighlightInfos { group: "Normal".to_string(), start: 0 }],
            str: "ab".to_string(),
            width: 2,
        })
    );
}

#[test]
fn autocmd_callback_args_are_read() {
    let map = dict(vec![
        ("buf", Object::Buffer(3)),
        ("event", text("BufEnter")),
        ("file", text("/tmp/a.txt")),
        ("id", Object::Integer(12)),
        ("match", text("/tmp/a.txt")),
    ]);
    let got = AutocmdCallbackArgs::from_object(map).unwrap();
    assert_eq!(got.buffer, Buffer(3));
    assert_eq!(got.data, Object::Nil);
    assert_eq!(got.event, "BufEnter");
    assert_eq!(got.file, "/tmp/a.txt");
    assert_eq!(got.group, None);
    assert_eq!(got.id, 12);
    assert_eq!(got.amatch, "/tmp/a.txt");
    let map = dict(vec![
        ("buf", Object::Integer(3)),
        ("data", list(vec![Object::Integer(1)])),
        ("event", text("User")),
        ("file", text("")),
        ("group", Object::Integer(5)),
        ("id", Object::Integer(12)),
    ]);
    assert_eq!(AutocmdCallbackArgs::from_object(map), Err(Error::MissingField { field: "match" }));
}

#[test]
fn command_args_are_read() {
    let got = CommandArgs::from_object(dict(vec![
        ("args", text("a b")),
        ("bang", Object::Boolean(false)),
        ("fargs", list(vec![text("a"), text("b")])),
        ("line1", Object::Integer(1)),
        ("line2", Object::Integer(2)),
        ("range", Object::Integer(0)),
        ("reg", text("x")),
    ]))
    .unwrap();
    assert_eq!(got.args, Some("a b".to_string()));
    assert_eq!(got.fargs, vec!["a".to_string(), "b".to_string()]);
    assert_eq!(got.register, Some("x".to_string()));
    assert_eq!(got.count, None);
}

#[test]
fn position_is_a_tuple_or_an_id() {
    assert_eq!(
        ExtmarkPosition::ByTuple((1, 2)).to_object(),
        Ok(list(vec![Object::Integer(1), Object::Integer(2)]))
    );
    assert_eq!(ExtmarkPosition::ById(9).to_object(), Ok(Object::Integer(9)));
    assert_eq!(ExtmarkPosition::ByTuple((usize::MAX, 0)).to_object(), Err(Error::FromInt));
}

#[test]
fn dictionary_finds_the_first_entry() {
    let mut d = Dictionary::new();
    assert!(d.is_empty());
    assert_eq!(d.get("a"), None);
    d.insert("a", Object::Integer(1));
    d.insert("b", Object::Integer(2));
    d.insert("a", Object::Integer(3));
    assert_eq!(d.len(), 3);
    assert_eq!(d.get("a"), Some(&Object::Integer(1)));
    assert_eq!(d.get("b"), Some(&Object::Integer(2)));
    assert_eq!(d.get("c"), None);
    assert_eq!(d.get(""), None);
    assert_eq!(d.required::<u8>("b"), Ok(2));
    assert_eq!(d.required::<u8>("c"), Err(Error::MissingField { field: "c" }));
    assert_eq!(d.optional::<u8>("c"), Ok(None));
    assert_eq!(d.or_default::<u8>("c", 9), Ok(9));
    assert_eq!(d.or_default::<u8>("b", 9), Ok(2));
}

#[test]
fn absent_field_is_omitted_or_nil() {
    let d = Dictionary::new().with_optional::<u8>("a", None, Absent::Omit).unwrap();
    assert!(d.is_empty());
    let d = d.with_optional::<u8>("a", None, Absent::Nil).unwrap();
    assert_eq!(d.get("a"), Some(&Object::Nil));
    let d = d.with_optional("b", Some(5u8), Absent::Nil).unwrap();
    assert_eq!(d.get("b"), Some(&Object::Integer(5)));
    let d = d.with("c", true).unwrap();
    assert_eq!(d.get("c"), Some(&Object::Boolean(true)));
    assert_eq!(
        d.with("d", u64::MAX),
        Err(in_field("d", Error::FromInt))
    );
}

#[test]
fn map_entries_are_written_in_their_order() {
    let entries = vec![("b".to_string(), 2u64), ("a".to_string(), 1)];
    let got = Dictionary::from_entries(entries).unwrap();
    assert_eq!(
        Object::Dictionary(got),
        dict(vec![("b", Object::Integer(2)), ("a", Object::Integer(1))])
    );
    let entries = vec![("b".to_string(), 2u64), ("a".to_string(), u64::MAX)];
    assert_eq!(Dictionary::from_entries(entries), Err(Error::FromInt));
    assert_eq!(Dictionary::from_entries(Vec::<(String, u8)>::new()), Ok(Dictionary::new()));
}

#[test]
fn pairs_become_lists_of_two() {
    let mut d = Dictionary::new();
    d.insert("a", Object::Integer(1));
    d.insert("b", Object::Nil);
    assert_eq!(
        Object::Array(d.into_entries()),
        list(vec![list(vec![text("a"), Object::Integer(1)]), list(vec![text("b"), Object::Nil])])
    );
}

#[test]
fn pairs_are_read_as_entries() {
    let mut d = Dictionary::new();
    d.insert("b", Object::Integer(2));
    d.insert("a", Object::Integer(1));
    assert_eq!(d.read_entries::<u8>(), Ok(vec![("b".to_string(), 2), ("a".to_string(), 1)]));
    let entries = vec![("x".to_string(), 7u16), ("y".to_string(), 8)];
    assert_eq!(
        Dictionary::from_entries(entries.clone()).unwrap().read_entries::<u16>(),
        Ok(entries)
    );
    let d = Dictionary { pairs: vec![(Object::Integer(1), Object::Integer(2))] };
    assert_eq!(
        d.read_entries::<u8>(),
        Err(Error::FromWrongType { expected: ObjectKind::String, actual: ObjectKind::Integer })
    );
}

#[test]
fn variant_is_a_name_or_a_map_of_one_entry() {
    assert_eq!(tagged_from(text("a")), Ok((NvimString::from_str("a"), None)));
    assert_eq!(
        tagged_from(dict(vec![("a", Object::Integer(1))])),
        Ok((NvimString::from_str("a"), Some(Object::Integer(1))))
    );
    assert_eq!(
        tagged_from(dict(vec![("a", Object::Nil), ("b", Object::Nil)])),
        Err(Error::WrongLength { wanted: 1, found: 2 })
    );
    assert_eq!(tagged_from(dict(vec![])), Err(Error::WrongLength { wanted: 1, found: 0 }));
    let d = Dictionary { pairs: vec![(Object::Integer(1), Object::Nil)] };
    assert_eq!(
        tagged_from(Object::Dictionary(d)),
        Err(Error::FromWrongType { expected: ObjectKind::String, actual: ObjectKind::Integer })
    );
    assert_eq!(
        tagged_from(Object::Boolean(true)),
        Err(Error::FromWrongType { expected: ObjectKind::String, actual: ObjectKind::Boolean })
    );
}

#[test]
fn completion_is_read_back() {
    let all = [
        CommandComplete::Arglist,
        CommandComplete::Dir,
        CommandComplete::File,
        CommandComplete::FileInPath,
        CommandComplete::Filetype,
        CommandComplete::Tag,
        CommandComplete::TagListfiles,
        CommandComplete::Var,
        CommandComplete::CustomList(Function::from_ref(3)),
    ];
    for complete in all {
        assert_eq!(
            CommandComplete::from_object(complete.clone().to_object().unwrap()),
            Ok(complete)
        );
    }
    assert_eq!(
        CommandComplete::from_object(text("custom_list")),
        Err(Error::UnknownVariant { of: "CommandComplete" })
    );
    assert_eq!(
        CommandComplete::from_object(dict(vec![("file", Object::LuaRef(1))])),
        Err(Error::UnknownVariant { of: "CommandComplete" })
    );
    assert_eq!(
        CommandComplete::from_object(dict(vec![("custom_list", Object::Integer(1))])),
        Err(in_field(
            "custom_list",
            Error::FromWrongType { expected: ObjectKind::LuaRef, actual: ObjectKind::Integer }
        ))
    );
}
