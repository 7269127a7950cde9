use nvim_oxi::conversion::{Error, FromObject, ToObject};
use nvim_oxi::function::Function;
use nvim_oxi::object::{Array, Dictionary, Float, NvimString, Object, ObjectKind};

fn text(s: &str) -> Object {
    Object::String(NvimString::from_str(s))
}

fn list(items: Vec<Object>) -> Object {
    Object::Array(Array { items })
}

fn one_of_each_kind() -> Vec<Object> {
    vec![
        Object::Nil,
        Object::Boolean(true),
        Object::Integer(7),
        Object::Float(0x4000_0000_0000_0000),
        text("x"),
        list(vec![]),
        Object::Dictionary(Dictionary::new()),
        Object::LuaRef(3),
        Object::Buffer(1),
        Object::Window(2),
        Object::TabPage(3),
    ]
}

#[test]
fn kind_names_each_variant() {
    let kinds: Vec<ObjectKind> = one_of_each_kind().iter().map(|o| o.kind()).collect();
    assert_eq!(
        kinds,
        vec![
            ObjectKind::Nil,
            ObjectKind::Boolean,
            ObjectKind::Integer,
            ObjectKind::Float,
            ObjectKind::String,
            ObjectKind::Array,
            ObjectKind::Dictionary,
            ObjectKind::LuaRef,
            ObjectKind::Buffer,
            ObjectKind::Window,
            ObjectKind::TabPage,
        ]
    );
}

#[test]
fn boolean_as_integer_is_wrong_type() {
    let got = i64::from_object(Object::Boolean(true));
    assert_eq!(
        got,
        Err(Error::FromWrongType { expected: ObjectKind::Integer, actual: ObjectKind::Boolean })
    );
}

#[test]
fn integer_is_read_from_integer_backed_kinds_only() {
    for obj in one_of_each_kind() {
        let kind = obj.kind();
        let got = i64::from_object(obj);
        match kind {
            ObjectKind::Integer => assert_eq!(got, Ok(7)),
            ObjectKind::Buffer => assert_eq!(got, Ok(1)),
            ObjectKind::Window => assert_eq!(got, Ok(2)),
            ObjectKind::TabPage => assert_eq!(got, Ok(3)),
            other => assert_eq!(
                got,
                Err(Error::FromWrongType { expected: ObjectKind::Integer, actual: other })
            ),
        }
    }
}

#[test]
fn integer_out_of_range_for_i32() {
    assert_eq!(i32::from_object(Object::Integer(1 << 40)), Err(Error::FromInt));
    assert_eq!(i32::from_object(Object::Integer(i32::MAX as i64 + 1)), Err(Error::FromInt));
    assert_eq!(i32::from_object(Object::Integer(i32::MAX as i64)), Ok(i32::MAX));
    assert_eq!(i32::from_object(Object::Integer(i32::MIN as i64)), Ok(i32::MIN));
    assert_eq!(i32::from_object(Object::Integer(-5)), Ok(-5));
    assert_eq!(u32::from_object(Object::Integer(-1)), Err(Error::FromInt));
    assert_eq!(u32::from_object(Object::Integer(u32::MAX as i64)), Ok(u32::MAX));
}

#[test]
fn every_width_checks_its_range() {
    assert_eq!(i8::from_object(Object::Integer(127)), Ok(127));
    assert_eq!(i8::from_object(Object::Integer(128)), Err(Error::FromInt));
    assert_eq!(u8::from_object(Object::Integer(255)), Ok(255));
    assert_eq!(u8::from_object(Object::Integer(256)), Err(Error::FromInt));
    assert_eq!(i16::from_object(Object::Integer(-32768)), Ok(-32768));
    assert_eq!(i16::from_object(Object::Integer(-32769)), Err(Error::FromInt));
    assert_eq!(u16::from_object(Object::Integer(65535)), Ok(65535));
    assert_eq!(u16::from_object(Object::Integer(65536)), Err(Error::FromInt));
    assert_eq!(u64::from_object(Object::Integer(-1)), Err(Error::FromInt));
    assert_eq!(u64::from_object(Object::Integer(i64::MAX)), Ok(i64::MAX as u64));
    assert_eq!(u128::from_object(Object::Integer(-1)), Err(Error::FromInt));
    assert_eq!(i128::from_object(Object::Integer(i64::MIN)), Ok(i64::MIN as i128));
    assert_eq!(usize::from_object(Object::Integer(-1)), Err(Error::FromInt));
    assert_eq!(usize::from_object(Object::Integer(12)), Ok(12));
    assert_eq!(isize::from_object(Object::Integer(-12)), Ok(-12));
}

#[test]
fn big_integers_are_written_where_they_fit() {
    assert_eq!(u64::MAX.to_object(), Err(Error::FromInt));
    assert_eq!((i64::MAX as u64).to_object(), Ok(Object::Integer(i64::MAX)));
    assert_eq!((i64::MAX as u64 + 1).to_object(), Err(Error::FromInt));
    assert_eq!(u128::MAX.to_object(), Err(Error::FromInt));
    assert_eq!(7u128.to_object(), Ok(Object::Integer(7)));
    assert_eq!(i128::MIN.to_object(), Err(Error::FromInt));
    assert_eq!((-7i128).to_object(), Ok(Object::Integer(-7)));
    assert_eq!(9usize.to_object(), Ok(Object::Integer(9)));
    assert_eq!((-9isize).to_object(), Ok(Object::Integer(-9)));
    assert_eq!(200u8.to_object(), Ok(Object::Integer(200)));
    assert_eq!((-3i16).to_object(), Ok(Object::Integer(-3)));
}

#[test]
fn unit_is_read_from_nil_only() {
    assert_eq!(<()>::from_object(Object::Nil), Ok(()));
    assert_eq!(
        <()>::from_object(Object::Integer(0)),
        Err(Error::FromWrongType { expected: ObjectKind::Nil, actual: ObjectKind::Integer })
    );
    assert_eq!(().to_object(), Ok(Object::Nil));
}

#[test]
fn boolean_is_read_from_boolean_only() {
    assert_eq!(bool::from_object(Object::Boolean(false)), Ok(false));
    assert_eq!(
        bool::from_object(Object::Integer(1)),
        Err(Error::FromWrongType { expected: ObjectKind::Boolean, actual: ObjectKind::Integer })
    );
}

#[test]
fn containers_are_read_from_their_own_kind() {
    assert_eq!(Array::from_object(list(vec![Object::Nil])), Ok(Array { items: vec![Object::Nil] }));
    assert_eq!(
        Array::from_object(Object::Dictionary(Dictionary::new())),
        Err(Error::FromWrongType { expected: ObjectKind::Array, actual: ObjectKind::Dictionary })
    );
    assert_eq!(
        Dictionary::from_object(list(vec![])),
        Err(Error::FromWrongType { expected: ObjectKind::Dictionary, actual: ObjectKind::Array })
    );
    assert_eq!(
        NvimString::from_object(Object::Nil),
        Err(Error::FromWrongType { expected: ObjectKind::String, actual: ObjectKind::Nil })
    );
    assert_eq!(NvimString::from_object(text("ab")), Ok(NvimString { bytes: vec![b'a', b'b'] }));
}

#[test]
fn function_is_read_from_luaref_only() {
    let f = Function::<(), ()>::from_object(Object::LuaRef(42)).unwrap();
    assert_eq!(f.lua_ref, 42);
    assert_eq!(f.to_object(), Ok(Object::LuaRef(42)));
    assert_eq!(
        Function::<(), ()>::from_object(Object::Integer(42)),
        Err(Error::FromWrongType { expected: ObjectKind::LuaRef, actual: ObjectKind::Integer })
    );
}

#[test]
fn text_must_be_utf8() {
    let bad = Object::String(NvimString { bytes: vec![0xff, 0xfe] });
    assert_eq!(String::from_object(bad), Err(Error::FromUtf8));
    let good = Object::String(NvimString { bytes: "héllo".as_bytes().to_vec() });
    assert_eq!(String::from_object(good), Ok("héllo".to_string()));
    assert_eq!(NvimString { bytes: vec![0xc3] }.into_string(), Err(Error::FromUtf8));
    assert_eq!(NvimString { bytes: vec![] }.into_string(), Ok(String::new()));
}

#[test]
fn text_is_written_as_its_utf8_bytes() {
    assert_eq!(
        "é".to_string().to_object(),
        Ok(Object::String(NvimString { bytes: vec![0xc3, 0xa9] }))
    );
    assert!(NvimString::from_str("abc").is("abc"));
    assert!(!NvimString::from_str("abc").is("abd"));
    assert!(!NvimString::from_str("abc").is("ab"));
}

#[test]
fn nil_is_absent_for_every_type() {
    assert_eq!(Option::<u32>::from_object(Object::Nil), Ok(None));
    assert_eq!(Option::<bool>::from_object(Object::Nil), Ok(None));
    assert_eq!(Option::<String>::from_object(Object::Nil), Ok(None));
    assert_eq!(Option::<Vec<i64>>::from_object(Object::Nil), Ok(None));
    assert_eq!(Option::<Array>::from_object(Object::Nil), Ok(None));
}

#[test]
fn wrong_kind_is_never_absent() {
    assert_eq!(
        Option::<u32>::from_object(Object::Boolean(true)),
        Err(Error::FromWrongType { expected: ObjectKind::Integer, actual: ObjectKind::Boolean })
    );
    assert_eq!(Option::<u8>::from_object(Object::Integer(256)), Err(Error::FromInt));
    assert_eq!(Option::<u32>::from_object(Object::Integer(7)), Ok(Some(7)));
    assert_eq!(Some(7u32).to_object(), Ok(Object::Integer(7)));
    assert_eq!(Option::<u32>::None.to_object(), Ok(Object::Nil));
}

#[test]
fn list_stops_at_first_failure() {
    let items = list(vec![Object::Integer(1), Object::Boolean(false), Object::Integer(300)]);
    assert_eq!(
        Vec::<u8>::from_object(items),
        Err(Error::FromWrongType { expected: ObjectKind::Integer, actual: ObjectKind::Boolean })
    );
    let items = list(vec![Object::Integer(1), Object::Integer(300), Object::Boolean(false)]);
    assert_eq!(Vec::<u8>::from_object(items), Err(Error::FromInt));
    let items = list(vec![Object::Integer(1), Object::Integer(2)]);
    assert_eq!(Vec::<u8>::from_object(items), Ok(vec![1, 2]));
}

#[test]
fn list_is_written_element_by_element() {
    assert_eq!(
        vec![1u64, 2].to_object(),
        Ok(list(vec![Object::Integer(1), Object::Integer(2)]))
    );
    assert_eq!(vec![1u64, u64::MAX, 2].to_object(), Err(Error::FromInt));
    assert_eq!(Vec::<u64>::new().to_object(), Ok(list(vec![])));
}

#[test]
fn empty_dictionary_is_an_empty_list() {
    assert_eq!(Vec::<u8>::from_object(Object::Dictionary(Dictionary::new())), Ok(vec![]));
    let mut dict = Dictionary::new();
    dict.insert("a", Object::Nil);
    assert_eq!(
        Vec::<u8>::from_object(Object::Dictionary(dict)),
        Err(Error::FromWrongType { expected: ObjectKind::Array, actual: ObjectKind::Dictionary })
    );
    assert_eq!(
        Vec::<u8>::from_object(Object::Nil),
        Err(Error::FromWrongType { expected: ObjectKind::Array, actual: ObjectKind::Nil })
    );
}

#[test]
fn pair_is_read_from_a_list_of_two() {
    assert_eq!(
        <(String, u32)>::from_object(list(vec![text("a"), Object::Integer(1)])),
        Ok(("a".to_string(), 1))
    );
    assert_eq!(
        <(String, u32)>::from_object(list(vec![text("a")])),
        Err(Error::WrongLength { wanted: 2, found: 1 })
    );
    assert_eq!(
        <(String, u32)>::from_object(list(vec![Object::Nil, Object::Nil])),
        Err(Error::FromWrongType { expected: ObjectKind::String, actual: ObjectKind::Nil })
    );
    assert_eq!(
        <(String, u32)>::from_object(list(vec![text("a"), Object::Nil])),
        Err(Error::FromWrongType { expected: ObjectKind::Integer, actual: ObjectKind::Nil })
    );
    assert_eq!(
        ("a".to_string(), 1u32).to_object(),
        Ok(list(vec![text("a"), Object::Integer(1)]))
    );
}

#[test]
fn round_trip_on_values() {
    assert_eq!(bool::from_object(true.to_object().unwrap()), Ok(true));
    assert_eq!(i8::from_object((-8i8).to_object().unwrap()), Ok(-8));
    assert_eq!(u32::from_object(u32::MAX.to_object().unwrap()), Ok(u32::MAX));
    assert_eq!(i64::from_object(i64::MIN.to_object().unwrap()), Ok(i64::MIN));
    assert_eq!(u128::from_object(77u128.to_object().unwrap()), Ok(77));
    assert_eq!(
        String::from_object("día".to_string().to_object().unwrap()),
        Ok("día".to_string())
    );
    let nested = vec![vec![Some(1u16), None], vec![], vec![Some(3)]];
    assert_eq!(
        Vec::<Vec<Option<u16>>>::from_object(nested.clone().to_object().unwrap()),
        Ok(nested)
    );
    let pairs = vec![("a".to_string(), "b".to_string())];
    assert_eq!(
        Vec::<(String, String)>::from_object(pairs.clone().to_object().unwrap()),
        Ok(pairs)
    );
}

#[test]
fn object_is_written_back_unchanged() {
    for obj in [Object::Integer(5), Object::Nil, list(vec![Object::Integer(1)])] {
        let again = Option::<Vec<u8>>::from_object(obj.clone());
        if let Ok(value) = again {
            assert_eq!(value.to_object(), Ok(obj));
        }
    }
    assert_eq!(u32::from_object(Object::Integer(5)).unwrap().to_object(), Ok(Object::Integer(5)));
    assert_eq!(i64::from_object(Object::Buffer(5)).unwrap().to_object(), Ok(Object::Integer(5)));
}

#[test]
fn some_of_unit_does_not_come_back() {
    let written = Some(()).to_object().unwrap();
    assert_eq!(written, Object::Nil);
    assert_eq!(Option::<()>::from_object(written), Ok(None));
}

#[test]
fn clone_is_deep() {
    let mut dict = Dictionary::new();
    dict.insert("k", list(vec![text("v"), Object::Integer(1)]));
    let obj = Object::Dictionary(dict);
    let copy = obj.clone();
    assert_eq!(copy, obj);
    drop(obj);
    assert_eq!(copy.kind(), ObjectKind::Dictionary);
}

#[test]
fn messages_name_what_went_wrong() {
    let e = Error::FromWrongType { expected: ObjectKind::Integer, actual: ObjectKind::Boolean };
    assert_eq!(e.message(), "Was expecting a \"integer\" but received a \"boolean\"");
    assert_eq!(Error::FromInt.message(), "out of range integral type conversion attempted");
    assert_eq!(Error::FromUtf8.message(), "invalid utf-8 sequence");
    assert_eq!(Error::MissingField { field: "id" }.message(), "missing field `id`");
    assert_eq!(
        Error::InvalidField { field: "id", cause: Box::new(Error::FromInt) }.message(),
        "id: out of range integral type conversion attempted"
    );
    assert_eq!(Error::UnknownVariant { of: "Mode" }.message(), "unknown variant of `Mode`");
    assert_eq!(Error::InvalidNumber.message(), "invalid number");
    assert_eq!(
        Error::WrongLength { wanted: 2, found: 10 }.message(),
        "invalid length 10, expected 2"
    );
    assert_eq!(e.clone(), e);
}

#[test]
fn kinds_have_names() {
    assert_eq!(ObjectKind::Nil.as_static(), "nil");
    assert_eq!(ObjectKind::Dictionary.as_static(), "dictionary");
    assert_eq!(ObjectKind::LuaRef.as_static(), "luaref");
    assert_eq!(ObjectKind::TabPage.as_static(), "tabpage");
}

#[test]
fn unchecked_accessors_on_the_right_kind() {
    assert!(Object::Boolean(true).as_boolean_unchecked());
    assert_eq!(Object::Integer(5).as_integer_unchecked(), 5);
    assert_eq!(Object::Window(6).as_integer_unchecked(), 6);
    assert_eq!(Object::Float(9).as_float_unchecked(), 9);
    assert_eq!(Object::LuaRef(4).as_luaref_unchecked(), 4);
    assert_eq!(text("a").into_string_unchecked(), NvimString::from_str("a"));
    assert_eq!(list(vec![]).into_array_unchecked(), Array { items: vec![] });
    assert_eq!(
        Object::Dictionary(Dictionary::new()).into_dict_unchecked(),
        Dictionary::new()
    );
}

#[test]
fn float_keeps_its_bits() {
    let bits = 1.5f64.to_bits();
    assert_eq!(Float::from_object(Object::Float(bits)), Ok(Float { bits }));
    assert_eq!(f64::from_bits(Float::from_object(Object::Float(bits)).unwrap().bits), 1.5);
    assert_eq!(Float { bits }.to_object(), Ok(Object::Float(bits)));
    assert_eq!(
        Float::from_object(Object::Integer(1)),
        Err(Error::FromWrongType { expected: ObjectKind::Float, actual: ObjectKind::Integer })
    );
}

#[test]
fn containers_know_their_size() {
    let mut a = Array::new();
    assert!(a.is_empty());
    a.push(Object::Nil);
    a.push(Object::Integer(1));
    assert_eq!(a.len(), 2);
    assert_eq!(a.items, vec![Object::Nil, Object::Integer(1)]);
    let s = NvimString::from_str("abc");
    assert_eq!(s.len(), 3);
    assert!(!s.is_empty());
    assert_eq!(s.as_bytes(), b"abc");
    assert!(NvimString::from_str("").is_empty());
}

#[test]
fn plain_values_always_have_an_object() {
    assert_eq!(Object::from(true), Object::Boolean(true));
    assert_eq!(Object::from(-3i8), Object::Integer(-3));
    assert_eq!(Object::from(200u8), Object::Integer(200));
    assert_eq!(Object::from(-300i16), Object::Integer(-300));
    assert_eq!(Object::from(60000u16), Object::Integer(60000));
    assert_eq!(Object::from(i32::MIN), Object::Integer(i32::MIN as i64));
    assert_eq!(Object::from(u32::MAX), Object::Integer(u32::MAX as i64));
    assert_eq!(Object::from(i64::MAX), Object::Integer(i64::MAX));
    assert_eq!(Object::from(Float { bits: 5 }), Object::Float(5));
    assert_eq!(Object::from(NvimString::from_str("a")), text("a"));
    assert_eq!(Object::from(Array::new()), list(vec![]));
    assert_eq!(Object::from(Dictionary::new()), Object::Dictionary(Dictionary::new()));
    assert_eq!(Ok(Object::from(7u32)), 7u32.to_object());
}
