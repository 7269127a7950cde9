//! What holds of the conversions, for every value.

use crate::bridge::{encoded_entries, entries_of, values_of};
use crate::conversion::{
    decoded_items, encoded_items, is_first_failure, is_first_unwritable, Error, FromObject,
    ToObject,
};
use crate::buffer::Buffer;
use crate::function::Function;
use crate::object::{Array, Dictionary, Float, NvimString, Object, ObjectKind, Value};
use crate::tabpage::TabPage;
use crate::window::Window;
use vstd::prelude::*;
use vstd::std_specs::convert::FromSpec;
use vstd::utf8::{
    decode_utf8_encode_utf8, encode_utf8_decode_utf8, encode_utf8_valid_utf8, valid_utf8,
};

verus! {

/// A value with this model, written as an object and read back, is the
/// same value. It is said only of models that can be written.
pub open spec fn round_trips<T: FromObject + ToObject>(model: T::V) -> bool {
    T::encoded(model) matches Ok(value) ==> T::decoded(value) == Ok::<T::V, Error>(model)
}

/// An object with this model, read as a `T` and written back, is the
/// same object. It is said only of objects that can be read as a `T`.
pub open spec fn writes_back<T: FromObject + ToObject>(value: Value) -> bool {
    T::decoded(value) matches Ok(model) ==> T::encoded(model) == Ok::<Value, Error>(value)
}

/// Every `()` that can be written is read back unchanged.
pub proof fn lemma_round_trip_unit(model: ())
    ensures
        round_trips::<()>(model),
{
}

/// Every `bool` that can be written is read back unchanged.
pub proof fn lemma_round_trip_bool(model: bool)
    ensures
        round_trips::<bool>(model),
{
}

/// Every `i8` that can be written is read back unchanged.
pub proof fn lemma_round_trip_i8(model: i8)
    ensures
        round_trips::<i8>(model),
{
}

/// Every `u8` that can be written is read back unchanged.
pub proof fn lemma_round_trip_u8(model: u8)
    ensures
        round_trips::<u8>(model),
{
}

/// Every `i16` that can be written is read back unchanged.
pub proof fn lemma_round_trip_i16(model: i16)
    ensures
        round_trips::<i16>(model),
{
}

/// Every `u16` that can be written is read back unchanged.
pub proof fn lemma_round_trip_u16(model: u16)
    ensures
        round_trips::<u16>(model),
{
}

/// Every `i32` that can be written is read back unchanged.
pub proof fn lemma_round_trip_i32(model: i32)
    ensures
        round_trips::<i32>(model),
{
}

/// Every `u32` that can be written is read back unchanged.
pub proof fn lemma_round_trip_u32(model: u32)
    ensures
        round_trips::<u32>(model),
{
}

/// Every `i64` that can be written is read back unchanged.
pub proof fn lemma_round_trip_i64(model: i64)
    ensures
        round_trips::<i64>(model),
{
}

/// Every `u64` that can be written is read back unchanged.
pub proof fn lemma_round_trip_u64(model: u64)
    ensures
        round_trips::<u64>(model),
{
}

/// Every `i128` that can be written is read back unchanged.
pub proof fn lemma_round_trip_i128(model: i128)
    ensures
        round_trips::<i128>(model),
{
}

/// Every `u128` that can be written is read back unchanged.
pub proof fn lemma_round_trip_u128(model: u128)
    ensures
        round_trips::<u128>(model),
{
}

/// Every `isize` that can be written is read back unchanged.
pub proof fn lemma_round_trip_isize(model: isize)
    ensures
        round_trips::<isize>(model),
{
}

/// Every `usize` that can be written is read back unchanged.
pub proof fn lemma_round_trip_usize(model: usize)
    ensures
        round_trips::<usize>(model),
{
}

/// An integer object that is read as an integer of any width is
/// written back as the same object. A handle is written back as an
/// `Integer` holding the same number.
pub proof fn lemma_integers_write_back(value: Value)
    requires
        value.is_integer_backed(),
    ensures
        value is Integer ==> {
            &&& writes_back::<i8>(value)
            &&& writes_back::<u8>(value)
            &&& writes_back::<i16>(value)
            &&& writes_back::<u16>(value)
            &&& writes_back::<i32>(value)
            &&& writes_back::<u32>(value)
            &&& writes_back::<i64>(value)
            &&& writes_back::<u64>(value)
            &&& writes_back::<i128>(value)
            &&& writes_back::<u128>(value)
            &&& writes_back::<isize>(value)
            &&& writes_back::<usize>(value)
        },
        i64::encoded(i64::decoded(value)->Ok_0) == Ok::<Value, Error>(
            Value::Integer(value.integer()),
        ),
{
}

/// Every boolean, nil and float object is written back unchanged, and
/// every float is read back unchanged.
pub proof fn lemma_bool_unit_and_float(value: Value, bits: u64)
    ensures
        writes_back::<bool>(value),
        writes_back::<()>(value),
        writes_back::<Float>(value),
        round_trips::<Float>(bits),
{
}

/// Text that is read as it stands, a list, a dictionary and an object
/// go both ways unchanged.
pub proof fn lemma_containers_both_ways(value: Value)
    ensures
        writes_back::<NvimString>(value),
        writes_back::<Array>(value),
        writes_back::<Dictionary>(value),
        writes_back::<Object>(value),
        round_trips::<Object>(value),
        value matches Value::String(bytes) ==> round_trips::<NvimString>(bytes),
        value matches Value::Array(items) ==> round_trips::<Array>(items),
        value matches Value::Dictionary(pairs) ==> round_trips::<Dictionary>(pairs),
{
}

/// Every `String` is read back unchanged.
pub proof fn lemma_round_trip_string(model: Seq<char>)
    ensures
        round_trips::<String>(model),
{
    encode_utf8_valid_utf8(model);
    encode_utf8_decode_utf8(model);
}

/// Every text object that is UTF-8 is written back unchanged.
pub proof fn lemma_string_writes_back(value: Value)
    ensures
        writes_back::<String>(value),
{
    if let Value::String(bytes) = value {
        if valid_utf8(bytes) {
            decode_utf8_encode_utf8(bytes);
        }
    }
}

/// Every function reference goes both ways unchanged.
pub proof fn lemma_function_both_ways<A, R>(lua_ref: i32, value: Value)
    ensures
        round_trips::<Function<A, R>>(lua_ref),
        writes_back::<Function<A, R>>(value),
{
}

/// Nil is read as an absent value, whatever the type.
pub proof fn lemma_nil_is_absent<T: FromObject>()
    ensures
        Option::<T>::decoded(Value::Nil) == Ok::<Option<T::V>, Error>(None),
{
}

/// An object other than nil is read as a present value exactly where it
/// can be read as a `T`; where it cannot, the error is that of `T`. It is
/// never taken for an absent value.
pub proof fn lemma_present_is_read<T: FromObject>(value: Value)
    requires
        !(value is Nil),
    ensures
        Option::<T>::decoded(value) == match T::decoded(value) {
            Ok(x) => Ok::<Option<T::V>, Error>(Some(x)),
            Err(e) => Err(e),
        },
        !(Option::<T>::decoded(value) == Ok::<Option<T::V>, Error>(None)),
{
}

/// An optional value is read back unchanged where the value inside is,
/// unless the value inside is itself written as nil.
pub proof fn lemma_round_trip_option<T: FromObject + ToObject>(model: Option<T::V>)
    requires
        model matches Some(x) ==> round_trips::<T>(x) && T::encoded(x) != Ok::<Value, Error>(
            Value::Nil,
        ),
    ensures
        round_trips::<Option<T>>(model),
{
}

/// An object that is read as an optional value is written back unchanged
/// where it is as a `T`.
pub proof fn lemma_option_writes_back<T: FromObject + ToObject>(value: Value)
    requires
        writes_back::<T>(value),
    ensures
        writes_back::<Option<T>>(value),
{
}

/// A list is read back unchanged where each of its elements is.
pub proof fn lemma_round_trip_vec<T: FromObject + ToObject>(models: Seq<T::V>)
    requires
        forall|i: int| 0 <= i < models.len() ==> round_trips::<T>(#[trigger] models[i]),
    ensures
        round_trips::<Vec<T>>(models),
{
    if let Ok(items) = encoded_items::<T>(models) {
        assert forall|i: int| !is_first_unwritable::<T>(models, i) by {}
        assert forall|i: int| 0 <= i < models.len() implies T::encoded(models[i]) is Ok by {
            if T::encoded(models[i]) is Err {
                lemma_has_first_unwritable::<T>(models, i);
            }
        }
        assert forall|i: int| 0 <= i < items.len() implies T::decoded(items[i]) == Ok::<
            T::V,
            Error,
        >(models[i]) by {
            assert(round_trips::<T>(models[i]));
        }
        assert forall|i: int| !is_first_failure::<T>(items, i) by {}
        assert(decoded_items::<T>(items)->Ok_0 =~= models);
    }
}

/// Where some element cannot be written, there is a first one.
pub proof fn lemma_has_first_unwritable<T: ToObject>(models: Seq<T::V>, i: int)
    requires
        0 <= i < models.len(),
        T::encoded(models[i]) is Err,
    ensures
        exists|k: int| is_first_unwritable::<T>(models, k),
    decreases i,
{
    if exists|j: int| 0 <= j < i && T::encoded(models[j]) is Err {
        let j = choose|j: int| 0 <= j < i && T::encoded(models[j]) is Err;
        lemma_has_first_unwritable::<T>(models, j);
    } else {
        assert(is_first_unwritable::<T>(models, i));
    }
}

/// Where some element cannot be read, there is a first one.
pub proof fn lemma_has_first_failure<T: FromObject>(items: Seq<Value>, i: int)
    requires
        0 <= i < items.len(),
        T::decoded(items[i]) is Err,
    ensures
        exists|k: int| is_first_failure::<T>(items, k),
    decreases i,
{
    if exists|j: int| 0 <= j < i && T::decoded(items[j]) is Err {
        let j = choose|j: int| 0 <= j < i && T::decoded(items[j]) is Err;
        lemma_has_first_failure::<T>(items, j);
    } else {
        assert(is_first_failure::<T>(items, i));
    }
}

/// A list object that is read as a list of `T` is written back unchanged
/// where each of its elements is.
pub proof fn lemma_vec_writes_back<T: FromObject + ToObject>(items: Seq<Value>)
    requires
        forall|i: int| 0 <= i < items.len() ==> writes_back::<T>(#[trigger] items[i]),
    ensures
        writes_back::<Vec<T>>(Value::Array(items)),
{
    if let Ok(models) = decoded_items::<T>(items) {
        assert forall|i: int| !is_first_failure::<T>(items, i) by {}
        assert forall|i: int| 0 <= i < items.len() implies T::decoded(items[i]) is Ok by {
            if T::decoded(items[i]) is Err {
                lemma_has_first_failure::<T>(items, i);
            }
        }
        assert forall|i: int| 0 <= i < models.len() implies T::encoded(models[i]) == Ok::<
            Value,
            Error,
        >(items[i]) by {
            assert(writes_back::<T>(items[i]));
        }
        assert forall|i: int| !is_first_unwritable::<T>(models, i) by {}
        assert(encoded_items::<T>(models)->Ok_0 =~= items);
    }
}

/// An object that is not stored as an integer is not read as one: the
/// error names the kind that was expected and the kind that was found.
pub proof fn lemma_integer_rejects_other_kinds(value: Value)
    requires
        !value.is_integer_backed(),
    ensures
        i64::decoded(value) == Err::<i64, Error>(
            Error::FromWrongType { expected: ObjectKind::Integer, actual: value.kind() },
        ),
        i32::decoded(value) == Err::<i32, Error>(
            Error::FromWrongType { expected: ObjectKind::Integer, actual: value.kind() },
        ),
        u32::decoded(value) == Err::<u32, Error>(
            Error::FromWrongType { expected: ObjectKind::Integer, actual: value.kind() },
        ),
{
}

/// An integer that does not fit in 32 bits is not read as a 32-bit
/// integer, and one that fits is.
pub proof fn lemma_narrowing_checks_range(n: i64)
    ensures
        i32::decoded(Value::Integer(n)) == if i32::MIN <= n <= i32::MAX {
            Ok::<i32, Error>(n as i32)
        } else {
            Err(Error::FromInt)
        },
        u32::decoded(Value::Integer(n)) == if 0 <= n <= u32::MAX {
            Ok::<u32, Error>(n as u32)
        } else {
            Err(Error::FromInt)
        },
{
}

/// A pair is read back unchanged where both of its parts are.
pub proof fn lemma_round_trip_pair<A: FromObject + ToObject, B: FromObject + ToObject>(
    model: (A::V, B::V),
)
    requires
        round_trips::<A>(model.0),
        round_trips::<B>(model.1),
    ensures
        round_trips::<(A, B)>(model),
{
    if let Ok(value) = <(A, B)>::encoded(model) {
        let items = value->Array_0;
        assert(items[0] == A::encoded(model.0)->Ok_0);
        assert(items[1] == B::encoded(model.1)->Ok_0);
    }
}

/// A list of two objects that is read as a pair is written back
/// unchanged where both of its elements are.
pub proof fn lemma_pair_writes_back<A: FromObject + ToObject, B: FromObject + ToObject>(
    items: Seq<Value>,
)
    requires
        items.len() == 2 ==> writes_back::<A>(items[0]) && writes_back::<B>(items[1]),
    ensures
        writes_back::<(A, B)>(Value::Array(items)),
{
    if let Ok(model) = <(A, B)>::decoded(Value::Array(items)) {
        assert(items =~= seq![items[0], items[1]]);
    }
}

/// The handle of a tab page, of a window and of a buffer is read back
/// unchanged, and an integer that is read as a handle is written back
/// unchanged.
pub proof fn lemma_handles_both_ways(handle: i32, value: Value)
    ensures
        round_trips::<TabPage>(handle),
        round_trips::<Window>(handle),
        round_trips::<Buffer>(handle),
        value is Integer ==> writes_back::<TabPage>(value) && writes_back::<Window>(value)
            && writes_back::<Buffer>(value),
{
}

/// The entries of a map that are written as a dictionary and read back
/// are the same entries in the same order, where each value is read
/// back unchanged.
pub proof fn lemma_round_trip_entries<V: FromObject + ToObject>(entries: Seq<(Seq<char>, V::V)>)
    requires
        forall|i: int| 0 <= i < entries.len() ==> round_trips::<V>((#[trigger] entries[i]).1),
    ensures
        encoded_entries::<V>(entries) matches Ok(pairs) ==> decoded_items::<(String, V)>(
            entries_of(pairs),
        ) == Ok::<Seq<(Seq<char>, V::V)>, Error>(entries),
{
    if let Ok(pairs) = encoded_entries::<V>(entries) {
        let values = values_of(entries);
        let items = entries_of(pairs);
        assert forall|i: int| !is_first_unwritable::<V>(values, i) by {}
        assert forall|i: int| 0 <= i < entries.len() implies V::encoded(values[i]) is Ok by {
            if V::encoded(values[i]) is Err {
                lemma_has_first_unwritable::<V>(values, i);
            }
        }
        assert forall|i: int| 0 <= i < items.len() implies <(String, V)>::decoded(items[i]) == Ok::<
            (Seq<char>, V::V),
            Error,
        >(entries[i]) by {
            assert(round_trips::<V>(entries[i].1));
            assert(values[i] == entries[i].1);
            lemma_round_trip_string(entries[i].0);
            let both = seq![pairs[i].0, pairs[i].1];
            assert(both[0] == pairs[i].0);
            assert(both[1] == pairs[i].1);
        }
        assert forall|i: int| !is_first_failure::<(String, V)>(items, i) by {}
        assert(decoded_items::<(String, V)>(items)->Ok_0 =~= entries);
    }
}

/// Making an object from a value that always has one gives the object
/// that writing the value gives.
pub proof fn lemma_constructors_agree(b: bool, n: i64, small: i32, bits: u64)
    ensures
        bool::encoded(b) == Ok::<Value, Error>(Object::from_spec(b)@),
        i64::encoded(n) == Ok::<Value, Error>(Object::from_spec(n)@),
        i32::encoded(small) == Ok::<Value, Error>(Object::from_spec(small)@),
        Float::encoded(bits) == Ok::<Value, Error>(Object::from_spec(Float { bits })@),
{
}

} // verus!
