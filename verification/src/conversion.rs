//! Conversions between [`Object`]s and Rust types.

use crate::decimal::{digits_of, format_u64};
use crate::object::{Array, Dictionary, Float, NvimString, Object, ObjectKind, Value};
use vstd::prelude::*;
use vstd::slice::slice_to_vec;
use vstd::string::StringExecFns;
use vstd::utf8::{decode_utf8, encode_utf8, encode_utf8_decode_utf8, valid_utf8};

verus! {

/// Why a conversion failed.
#[derive(Debug, PartialEq, Eq)]
pub enum Error {
    /// The object is of a kind that the target type is not read from.
    FromWrongType { expected: ObjectKind, actual: ObjectKind },
    /// The integer does not fit in the target type.
    FromInt,
    /// The text is not UTF-8.
    FromUtf8,
    /// A map has no entry for a field that must be present.
    MissingField { field: &'static str },
    /// The value of a field could not be converted.
    InvalidField { field: &'static str, cause: Box<Error> },
    /// The text names no variant of the target enum.
    UnknownVariant { of: &'static str },
    /// The text of a field is not the decimal number it stands for.
    InvalidNumber,
    /// A tuple is read from a list of another length.
    WrongLength { wanted: usize, found: usize },
}

impl Clone for Error {
    fn clone(&self) -> (copy: Self)
        ensures
            copy == *self,
        decreases self,
    {
        match self {
            Error::FromWrongType { expected, actual } => Error::FromWrongType {
                expected: *expected,
                actual: *actual,
            },
            Error::FromInt => Error::FromInt,
            Error::FromUtf8 => Error::FromUtf8,
            Error::MissingField { field } => Error::MissingField { field: *field },
            Error::InvalidField { field, cause } => Error::InvalidField {
                field: *field,
                cause: Box::new((&**cause).clone()),
            },
            Error::UnknownVariant { of } => Error::UnknownVariant { of: *of },
            Error::InvalidNumber => Error::InvalidNumber,
            Error::WrongLength { wanted, found } => Error::WrongLength {
                wanted: *wanted,
                found: *found,
            },
        }
    }
}

impl Error {
    /// The words that say what went wrong.
    pub open spec fn message_of(self) -> Seq<char>
        decreases self,
    {
        match self {
            Error::FromWrongType { expected, actual } => "Was expecting a \""@ + expected.name()@
                + "\" but received a \""@ + actual.name()@ + "\""@,
            Error::FromInt => "out of range integral type conversion attempted"@,
            Error::FromUtf8 => "invalid utf-8 sequence"@,
            Error::MissingField { field } => "missing field `"@ + field@ + "`"@,
            Error::InvalidField { field, cause } => field@ + ": "@ + cause.message_of(),
            Error::UnknownVariant { of } => "unknown variant of `"@ + of@ + "`"@,
            Error::InvalidNumber => "invalid number"@,
            Error::WrongLength { wanted, found } => "invalid length "@ + digits_of(found as nat)
                + ", expected "@ + digits_of(wanted as nat),
        }
    }

    /// The words that say what went wrong.
    pub fn message(&self) -> (text: String)
        ensures
            text@ == self.message_of(),
        decreases self,
    {
        match self {
            Error::FromWrongType { expected, actual } => {
                let mut text = String::from_str("Was expecting a \"");
                text.append(expected.as_static());
                text.append("\" but received a \"");
                text.append(actual.as_static());
                text.append("\"");
                text
            },
            Error::FromInt => String::from_str("out of range integral type conversion attempted"),
            Error::FromUtf8 => String::from_str("invalid utf-8 sequence"),
            Error::MissingField { field } => {
                let mut text = String::from_str("missing field `");
                text.append(field);
                text.append("`");
                text
            },
            Error::InvalidField { field, cause } => {
                let mut text = String::from_str(field);
                text.append(": ");
                text.append(cause.message().as_str());
                text
            },
            Error::UnknownVariant { of } => {
                let mut text = String::from_str("unknown variant of `");
                text.append(of);
                text.append("`");
                text
            },
            Error::InvalidNumber => String::from_str("invalid number"),
            Error::WrongLength { wanted, found } => {
                let mut text = String::from_str("invalid length ");
                text.append(format_u64(*found as u64).as_str());
                text.append(", expected ");
                text.append(format_u64(*wanted as u64).as_str());
                text
            },
        }
    }
}

/// The failure of reading a value of the wrong kind.
pub open spec fn wrong_type<T>(expected: ObjectKind, value: Value) -> Result<T, Error> {
    Err(Error::FromWrongType { expected, actual: value.kind() })
}

/// What a conversion returned, with its value replaced by the value's
/// model.
pub open spec fn modelled<T: DeepView>(r: Result<T, Error>) -> Result<T::V, Error> {
    match r {
        Ok(x) => Ok(x.deep_view()),
        Err(e) => Err(e),
    }
}

/// Types that can be read from an [`Object`].
pub trait FromObject: Sized + DeepView {
    /// What reading `value` yields: the model of the result, or the error.
    spec fn decoded(value: Value) -> Result<Self::V, Error>;

    /// Reads a value of this type from `obj`.
    fn from_object(obj: Object) -> (r: Result<Self, Error>)
        ensures
            modelled(r) == Self::decoded(obj@),
    ;
}

impl FromObject for () {
    open spec fn decoded(value: Value) -> Result<(), Error> {
        match value {
            Value::Nil => Ok(()),
            _ => wrong_type(ObjectKind::Nil, value),
        }
    }

    fn from_object(obj: Object) -> (r: Result<(), Error>) {
        match obj.kind() {
            ObjectKind::Nil => Ok(()),
            other => Err(Error::FromWrongType { expected: ObjectKind::Nil, actual: other }),
        }
    }
}

impl FromObject for bool {
    open spec fn decoded(value: Value) -> Result<bool, Error> {
        match value {
            Value::Boolean(b) => Ok(b),
            _ => wrong_type(ObjectKind::Boolean, value),
        }
    }

    fn from_object(obj: Object) -> (r: Result<bool, Error>) {
        match obj.kind() {
            ObjectKind::Boolean => Ok(obj.as_boolean_unchecked()),
            other => Err(Error::FromWrongType { expected: ObjectKind::Boolean, actual: other }),
        }
    }
}

/// Reads the integer that `obj` stores: that of an `Integer`, or the
/// handle of a `Buffer`, `Window` or `TabPage`.
pub fn integer_from(obj: Object) -> (r: Result<i64, Error>)
    ensures
        r == if obj@.is_integer_backed() {
            Ok::<i64, Error>(obj@.integer())
        } else {
            wrong_type(ObjectKind::Integer, obj@)
        },
{
    match obj.kind() {
        ObjectKind::Integer | ObjectKind::Buffer | ObjectKind::Window | ObjectKind::TabPage => Ok(
            obj.as_integer_unchecked(),
        ),
        other => Err(Error::FromWrongType { expected: ObjectKind::Integer, actual: other }),
    }
}

impl FromObject for i64 {
    open spec fn decoded(value: Value) -> Result<i64, Error> {
        if value.is_integer_backed() {
            Ok(value.integer())
        } else {
            wrong_type(ObjectKind::Integer, value)
        }
    }

    fn from_object(obj: Object) -> (r: Result<i64, Error>) {
        integer_from(obj)
    }
}

/// The integer that an integer-backed `value` holds, where it lies
/// between `min` and `max`.
pub open spec fn integer_within(value: Value, min: int, max: int) -> Result<int, Error> {
    if !value.is_integer_backed() {
        wrong_type(ObjectKind::Integer, value)
    } else if min <= value.integer() <= max {
        Ok(value.integer() as int)
    } else {
        Err(Error::FromInt)
    }
}
impl FromObject for i8 {
    open spec fn decoded(value: Value) -> Result<i8, Error> {
        match integer_within(value, i8::MIN as int, i8::MAX as int) {
            Ok(n) => Ok(n as i8),
            Err(e) => Err(e),
        }
    }

    fn from_object(obj: Object) -> (r: Result<i8, Error>) {
        match integer_from(obj) {
            Ok(n) => match i8::try_from(n) {
                Ok(m) => Ok(m),
                Err(_) => Err(Error::FromInt),
            },
            Err(e) => Err(e),
        }
    }
}

impl FromObject for u8 {
    open spec fn decoded(value: Value) -> Result<u8, Error> {
        match integer_within(value, u8::MIN as int, u8::MAX as int) {
            Ok(n) => Ok(n as u8),
            Err(e) => Err(e),
        }
    }

    fn from_object(obj: Object) -> (r: Result<u8, Error>) {
        match integer_from(obj) {
            Ok(n) => match u8::try_from(n) {
                Ok(m) => Ok(m),
                Err(_) => Err(Error::FromInt),
            },
            Err(e) => Err(e),
        }
    }
}

impl FromObject for i16 {
    open spec fn decoded(value: Value) -> Result<i16, Error> {
        match integer_within(value, i16::MIN as int, i16::MAX as int) {
            Ok(n) => Ok(n as i16),
            Err(e) => Err(e),
        }
    }

    fn from_object(obj: Object) -> (r: Result<i16, Error>) {
        match integer_from(obj) {
            Ok(n) => match i16::try_from(n) {
                Ok(m) => Ok(m),
                Err(_) => Err(Error::FromInt),
            },
            Err(e) => Err(e),
        }
    }
}

impl FromObject for u16 {
    open spec fn decoded(value: Value) -> Result<u16, Error> {
        match integer_within(value, u16::MIN as int, u16::MAX as int) {
            Ok(n) => Ok(n as u16),
            Err(e) => Err(e),
        }
    }

    fn from_object(obj: Object) -> (r: Result<u16, Error>) {
        match integer_from(obj) {
            Ok(n) => match u16::try_from(n) {
                Ok(m) => Ok(m),
                Err(_) => Err(Error::FromInt),
            },
            Err(e) => Err(e),
        }
    }
}

impl FromObject for i32 {
    open spec fn decoded(value: Value) -> Result<i32, Error> {
        match integer_within(value, i32::MIN as int, i32::MAX as int) {
            Ok(n) => Ok(n as i32),
            Err(e) => Err(e),
        }
    }

    fn from_object(obj: Object) -> (r: Result<i32, Error>) {
        match integer_from(obj) {
            Ok(n) => match i32::try_from(n) {
                Ok(m) => Ok(m),
                Err(_) => Err(Error::FromInt),
            },
            Err(e) => Err(e),
        }
    }
}

impl FromObject for u32 {
    open spec fn decoded(value: Value) -> Result<u32, Error> {
        match integer_within(value, u32::MIN as int, u32::MAX as int) {
            Ok(n) => Ok(n as u32),
            Err(e) => Err(e),
        }
    }

    fn from_object(obj: Object) -> (r: Result<u32, Error>) {
        match integer_from(obj) {
            Ok(n) => match u32::try_from(n) {
                Ok(m) => Ok(m),
                Err(_) => Err(Error::FromInt),
            },
            Err(e) => Err(e),
        }
    }
}

impl FromObject for u64 {
    open spec fn decoded(value: Value) -> Result<u64, Error> {
        match integer_within(value, u64::MIN as int, u64::MAX as int) {
            Ok(n) => Ok(n as u64),
            Err(e) => Err(e),
        }
    }

    fn from_object(obj: Object) -> (r: Result<u64, Error>) {
        match integer_from(obj) {
            Ok(n) => match u64::try_from(n) {
                Ok(m) => Ok(m),
                Err(_) => Err(Error::FromInt),
            },
            Err(e) => Err(e),
        }
    }
}

impl FromObject for u128 {
    open spec fn decoded(value: Value) -> Result<u128, Error> {
        match integer_within(value, u128::MIN as int, u128::MAX as int) {
            Ok(n) => Ok(n as u128),
            Err(e) => Err(e),
        }
    }

    fn from_object(obj: Object) -> (r: Result<u128, Error>) {
        match integer_from(obj) {
            Ok(n) => match u128::try_from(n) {
                Ok(m) => Ok(m),
                Err(_) => Err(Error::FromInt),
            },
            Err(e) => Err(e),
        }
    }
}

impl FromObject for isize {
    open spec fn decoded(value: Value) -> Result<isize, Error> {
        match integer_within(value, isize::MIN as int, isize::MAX as int) {
            Ok(n) => Ok(n as isize),
            Err(e) => Err(e),
        }
    }

    fn from_object(obj: Object) -> (r: Result<isize, Error>) {
        match integer_from(obj) {
            Ok(n) => match isize::try_from(n) {
                Ok(m) => Ok(m),
                Err(_) => Err(Error::FromInt),
            },
            Err(e) => Err(e),
        }
    }
}

impl FromObject for usize {
    open spec fn decoded(value: Value) -> Result<usize, Error> {
        match integer_within(value, usize::MIN as int, usize::MAX as int) {
            Ok(n) => Ok(n as usize),
            Err(e) => Err(e),
        }
    }

    fn from_object(obj: Object) -> (r: Result<usize, Error>) {
        match integer_from(obj) {
            Ok(n) => match usize::try_from(n) {
                Ok(m) => Ok(m),
                Err(_) => Err(Error::FromInt),
            },
            Err(e) => Err(e),
        }
    }
}

impl FromObject for i128 {
    open spec fn decoded(value: Value) -> Result<i128, Error> {
        match integer_within(value, i128::MIN as int, i128::MAX as int) {
            Ok(n) => Ok(n as i128),
            Err(e) => Err(e),
        }
    }

    fn from_object(obj: Object) -> (r: Result<i128, Error>) {
        match integer_from(obj) {
            Ok(n) => Ok(i128::from(n)),
            Err(e) => Err(e),
        }
    }
}

/// What reading `value` as an optional `T` yields: nil is an absent
/// value, and anything else is read as a `T`.
pub open spec fn decoded_optional<T: FromObject>(value: Value) -> Result<Option<T::V>, Error> {
    match value {
        Value::Nil => Ok(None),
        _ => match T::decoded(value) {
            Ok(x) => Ok(Some(x)),
            Err(e) => Err(e),
        },
    }
}

/// Reads an optional `T` from `obj`.
pub fn optional_from<T: FromObject>(obj: Object) -> (r: Result<Option<T>, Error>)
    ensures
        modelled(r) == decoded_optional::<T>(obj@),
{
    match obj.kind() {
        ObjectKind::Nil => Ok(None),
        _ => match T::from_object(obj) {
            Ok(x) => Ok(Some(x)),
            Err(e) => Err(e),
        },
    }
}

impl<T: FromObject> FromObject for Option<T> {
    open spec fn decoded(value: Value) -> Result<Option<T::V>, Error> {
        decoded_optional::<T>(value)
    }

    fn from_object(obj: Object) -> (r: Result<Option<T>, Error>) {
        optional_from::<T>(obj)
    }
}

impl DeepView for NvimString {
    type V = Seq<u8>;

    open spec fn deep_view(&self) -> Seq<u8> {
        self@
    }
}

impl DeepView for Array {
    type V = Seq<Value>;

    open spec fn deep_view(&self) -> Seq<Value> {
        self@
    }
}

impl DeepView for Dictionary {
    type V = Seq<(Value, Value)>;

    open spec fn deep_view(&self) -> Seq<(Value, Value)> {
        self@
    }
}

impl DeepView for Object {
    type V = Value;

    open spec fn deep_view(&self) -> Value {
        self@
    }
}

impl DeepView for Float {
    type V = u64;

    open spec fn deep_view(&self) -> u64 {
        self.bits
    }
}

impl FromObject for Float {
    open spec fn decoded(value: Value) -> Result<u64, Error> {
        match value {
            Value::Float(bits) => Ok(bits),
            _ => wrong_type(ObjectKind::Float, value),
        }
    }

    fn from_object(obj: Object) -> (r: Result<Float, Error>) {
        match obj.kind() {
            ObjectKind::Float => Ok(Float { bits: obj.as_float_unchecked() }),
            other => Err(Error::FromWrongType { expected: ObjectKind::Float, actual: other }),
        }
    }
}

impl ToObject for Float {
    open spec fn encoded(model: u64) -> Result<Value, Error> {
        Ok(Value::Float(model))
    }

    fn to_object(self) -> (r: Result<Object, Error>) {
        Ok(Object::Float(self.bits))
    }
}

impl FromObject for Object {
    open spec fn decoded(value: Value) -> Result<Value, Error> {
        Ok(value)
    }

    fn from_object(obj: Object) -> (r: Result<Object, Error>) {
        Ok(obj)
    }
}

/// Reads the text that `obj` holds, as it stands.
pub fn text_from(obj: Object) -> (r: Result<NvimString, Error>)
    ensures
        match r {
            Ok(text) => obj@ == Value::String(text@),
            Err(e) => !(obj@ is String) && e == Error::FromWrongType {
                expected: ObjectKind::String,
                actual: obj@.kind(),
            },
        },
{
    match obj.kind() {
        ObjectKind::String => Ok(obj.into_string_unchecked()),
        other => Err(Error::FromWrongType { expected: ObjectKind::String, actual: other }),
    }
}

impl FromObject for NvimString {
    open spec fn decoded(value: Value) -> Result<Seq<u8>, Error> {
        match value {
            Value::String(bytes) => Ok(bytes),
            _ => wrong_type(ObjectKind::String, value),
        }
    }

    fn from_object(obj: Object) -> (r: Result<NvimString, Error>) {
        text_from(obj)
    }
}

impl FromObject for Array {
    open spec fn decoded(value: Value) -> Result<Seq<Value>, Error> {
        match value {
            Value::Array(items) => Ok(items),
            _ => wrong_type(ObjectKind::Array, value),
        }
    }

    fn from_object(obj: Object) -> (r: Result<Array, Error>) {
        match obj.kind() {
            ObjectKind::Array => Ok(obj.into_array_unchecked()),
            other => Err(Error::FromWrongType { expected: ObjectKind::Array, actual: other }),
        }
    }
}

impl FromObject for Dictionary {
    open spec fn decoded(value: Value) -> Result<Seq<(Value, Value)>, Error> {
        match value {
            Value::Dictionary(pairs) => Ok(pairs),
            _ => wrong_type(ObjectKind::Dictionary, value),
        }
    }

    fn from_object(obj: Object) -> (r: Result<Dictionary, Error>) {
        match obj.kind() {
            ObjectKind::Dictionary => Ok(obj.into_dict_unchecked()),
            other => Err(Error::FromWrongType { expected: ObjectKind::Dictionary, actual: other }),
        }
    }
}

/// `std::string::FromUtf8Error`: why bytes are no `String`. Nothing is
/// read from it.
#[verifier::external_type_specification]
#[verifier::external_body]
pub struct ExFromUtf8Error(std::string::FromUtf8Error);

/// `String::from_utf8`: the bytes become a `String` if and only if they
/// are UTF-8, and the `String` then holds exactly these bytes.
#[verifier::external_body]
fn string_from_utf8(bytes: Vec<u8>) -> (r: Result<String, std::string::FromUtf8Error>)
    ensures
        r is Ok <==> valid_utf8(bytes@),
        r matches Ok(s) ==> encode_utf8(s@) == bytes@,
{
    String::from_utf8(bytes)
}

impl NvimString {
    /// The text as a `String`, if it is UTF-8.
    pub fn into_string(self) -> (r: Result<String, Error>)
        ensures
            valid_utf8(self@) ==> (r matches Ok(s) && s@ == decode_utf8(self@)),
            !valid_utf8(self@) ==> r == Err::<String, Error>(Error::FromUtf8),
    {
        let ghost bytes = self.bytes@;
        match string_from_utf8(self.bytes) {
            Ok(s) => {
                proof {
                    encode_utf8_decode_utf8(s@);
                }
                Ok(s)
            },
            Err(_) => Err(Error::FromUtf8),
        }
    }
}

impl FromObject for String {
    open spec fn decoded(value: Value) -> Result<Seq<char>, Error> {
        match value {
            Value::String(bytes) => if valid_utf8(bytes) {
                Ok(decode_utf8(bytes))
            } else {
                Err(Error::FromUtf8)
            },
            _ => wrong_type(ObjectKind::String, value),
        }
    }

    fn from_object(obj: Object) -> (r: Result<String, Error>) {
        match text_from(obj) {
            Ok(text) => text.into_string(),
            Err(e) => Err(e),
        }
    }
}

/// Whether `i` is the first position of `items` whose element cannot be
/// read as a `T`.
pub open spec fn is_first_failure<T: FromObject>(items: Seq<Value>, i: int) -> bool {
    &&& 0 <= i < items.len()
    &&& T::decoded(items[i]) is Err
    &&& forall|j: int| 0 <= j < i ==> (#[trigger] T::decoded(items[j])) is Ok
}

/// What reading each element of `items` as a `T` yields: every element
/// in order, or the error of the first one that cannot be read.
pub open spec fn decoded_items<T: FromObject>(items: Seq<Value>) -> Result<Seq<T::V>, Error> {
    if exists|i: int| is_first_failure::<T>(items, i) {
        let i = choose|i: int| is_first_failure::<T>(items, i);
        Err(T::decoded(items[i])->Err_0)
    } else {
        Ok(Seq::new(items.len(), |i: int| T::decoded(items[i])->Ok_0))
    }
}

/// At most one position is the first failure.
pub proof fn lemma_first_failure_unique<T: FromObject>(items: Seq<Value>, i: int)
    requires
        is_first_failure::<T>(items, i),
    ensures
        decoded_items::<T>(items) == Err::<Seq<T::V>, Error>(T::decoded(items[i])->Err_0),
{
    let k = choose|k: int| is_first_failure::<T>(items, k);
    assert(is_first_failure::<T>(items, k));
    if k < i {
        assert(T::decoded(items[k]) is Ok);
    }
    if i < k {
        assert(T::decoded(items[i]) is Ok);
    }
}

impl<T: FromObject> FromObject for Vec<T> {
    open spec fn decoded(value: Value) -> Result<Seq<T::V>, Error> {
        match value {
            Value::Array(items) => decoded_items::<T>(items),
            Value::Dictionary(pairs) if pairs.len() == 0 => Ok(Seq::empty()),
            _ => wrong_type(ObjectKind::Array, value),
        }
    }

    fn from_object(obj: Object) -> (r: Result<Vec<T>, Error>) {
        match obj {
            Object::Array(array) => {
                let ghost items = array@;
                let mut out: Vec<T> = Vec::new();
                for item in iter: array.items
                    invariant
                        obj@ == Value::Array(items),
                        iter.seq().len() == items.len(),
                        forall|j: int| 0 <= j < items.len() ==> (#[trigger] iter.seq()[j])@ == items[j],
                        out.len() == iter.index(),
                        forall|j: int|
                            0 <= j < iter.index() ==> (#[trigger] T::decoded(items[j])) == Ok::<
                                T::V,
                                Error,
                            >(out[j].deep_view()),
                {
                    match T::from_object(item) {
                        Ok(x) => {
                            out.push(x);
                        },
                        Err(e) => {
                            proof {
                                lemma_first_failure_unique::<T>(items, iter.index() as int);
                            }
                            return Err(e);
                        },
                    }
                }
                proof {
                    assert forall|i: int| !is_first_failure::<T>(items, i) by {
                        if 0 <= i < items.len() {
                            assert(T::decoded(items[i]) is Ok);
                        }
                    }
                    assert(out.deep_view() =~= Seq::new(
                        items.len(),
                        |i: int| T::decoded(items[i])->Ok_0,
                    ));
                }
                Ok(out)
            },
            Object::Dictionary(dict) => {
                if dict.pairs.len() == 0 {
                    let out: Vec<T> = Vec::new();
                    assert(out.deep_view() =~= Seq::empty());
                    Ok(out)
                } else {
                    Err(
                        Error::FromWrongType {
                            expected: ObjectKind::Array,
                            actual: ObjectKind::Dictionary,
                        },
                    )
                }
            },
            other => Err(
                Error::FromWrongType { expected: ObjectKind::Array, actual: other.kind() },
            ),
        }
    }
}

/// What a conversion to an object returned, with the object replaced by
/// its model.
pub open spec fn viewed(r: Result<Object, Error>) -> Result<Value, Error> {
    match r {
        Ok(obj) => Ok(obj@),
        Err(e) => Err(e),
    }
}

/// Types that can be written as an [`Object`].
pub trait ToObject: Sized + DeepView {
    /// What writing a value with this model yields: the model of the
    /// object, or the error.
    spec fn encoded(model: Self::V) -> Result<Value, Error>;

    /// Writes this value as an object.
    fn to_object(self) -> (r: Result<Object, Error>)
        ensures
            viewed(r) == Self::encoded(self.deep_view()),
    ;
}

impl ToObject for () {
    open spec fn encoded(model: ()) -> Result<Value, Error> {
        Ok(Value::Nil)
    }

    fn to_object(self) -> (r: Result<Object, Error>) {
        Ok(Object::Nil)
    }
}

impl ToObject for bool {
    open spec fn encoded(model: bool) -> Result<Value, Error> {
        Ok(Value::Boolean(model))
    }

    fn to_object(self) -> (r: Result<Object, Error>) {
        Ok(Object::Boolean(self))
    }
}

impl ToObject for i64 {
    open spec fn encoded(model: i64) -> Result<Value, Error> {
        Ok(Value::Integer(model))
    }

    fn to_object(self) -> (r: Result<Object, Error>) {
        Ok(Object::Integer(self))
    }
}

impl ToObject for i8 {
    open spec fn encoded(model: i8) -> Result<Value, Error> {
        Ok(Value::Integer(model as i64))
    }

    fn to_object(self) -> (r: Result<Object, Error>) {
        Ok(Object::Integer(i64::from(self)))
    }
}

impl ToObject for u8 {
    open spec fn encoded(model: u8) -> Result<Value, Error> {
        Ok(Value::Integer(model as i64))
    }

    fn to_object(self) -> (r: Result<Object, Error>) {
        Ok(Object::Integer(self as i64))
    }
}

impl ToObject for i16 {
    open spec fn encoded(model: i16) -> Result<Value, Error> {
        Ok(Value::Integer(model as i64))
    }

    fn to_object(self) -> (r: Result<Object, Error>) {
        Ok(Object::Integer(i64::from(self)))
    }
}

impl ToObject for u16 {
    open spec fn encoded(model: u16) -> Result<Value, Error> {
        Ok(Value::Integer(model as i64))
    }

    fn to_object(self) -> (r: Result<Object, Error>) {
        Ok(Object::Integer(self as i64))
    }
}

impl ToObject for i32 {
    open spec fn encoded(model: i32) -> Result<Value, Error> {
        Ok(Value::Integer(model as i64))
    }

    fn to_object(self) -> (r: Result<Object, Error>) {
        Ok(Object::Integer(i64::from(self)))
    }
}

impl ToObject for u32 {
    open spec fn encoded(model: u32) -> Result<Value, Error> {
        Ok(Value::Integer(model as i64))
    }

    fn to_object(self) -> (r: Result<Object, Error>) {
        Ok(Object::Integer(self as i64))
    }
}

impl ToObject for u64 {
    open spec fn encoded(model: u64) -> Result<Value, Error> {
        if i64::MIN <= model <= i64::MAX {
            Ok(Value::Integer(model as i64))
        } else {
            Err(Error::FromInt)
        }
    }

    fn to_object(self) -> (r: Result<Object, Error>) {
        if self <= 0x7fff_ffff_ffff_ffff {
            Ok(Object::Integer(self as i64))
        } else {
            Err(Error::FromInt)
        }
    }
}

impl ToObject for isize {
    open spec fn encoded(model: isize) -> Result<Value, Error> {
        if i64::MIN <= model <= i64::MAX {
            Ok(Value::Integer(model as i64))
        } else {
            Err(Error::FromInt)
        }
    }

    fn to_object(self) -> (r: Result<Object, Error>) {
        match i64::try_from(self) {
            Ok(n) => Ok(Object::Integer(n)),
            Err(_) => Err(Error::FromInt),
        }
    }
}

impl ToObject for usize {
    open spec fn encoded(model: usize) -> Result<Value, Error> {
        if i64::MIN <= model <= i64::MAX {
            Ok(Value::Integer(model as i64))
        } else {
            Err(Error::FromInt)
        }
    }

    fn to_object(self) -> (r: Result<Object, Error>) {
        match i64::try_from(self) {
            Ok(n) => Ok(Object::Integer(n)),
            Err(_) => Err(Error::FromInt),
        }
    }
}

impl ToObject for i128 {
    open spec fn encoded(model: i128) -> Result<Value, Error> {
        if i64::MIN <= model <= i64::MAX {
            Ok(Value::Integer(model as i64))
        } else {
            Err(Error::FromInt)
        }
    }

    fn to_object(self) -> (r: Result<Object, Error>) {
        match i64::try_from(self) {
            Ok(n) => Ok(Object::Integer(n)),
            Err(_) => Err(Error::FromInt),
        }
    }
}

impl ToObject for u128 {
    open spec fn encoded(model: u128) -> Result<Value, Error> {
        if i64::MIN <= model <= i64::MAX {
            Ok(Value::Integer(model as i64))
        } else {
            Err(Error::FromInt)
        }
    }

    fn to_object(self) -> (r: Result<Object, Error>) {
        match i64::try_from(self) {
            Ok(n) => Ok(Object::Integer(n)),
            Err(_) => Err(Error::FromInt),
        }
    }
}

impl ToObject for Object {
    open spec fn encoded(model: Value) -> Result<Value, Error> {
        Ok(model)
    }

    fn to_object(self) -> (r: Result<Object, Error>) {
        Ok(self)
    }
}

impl ToObject for NvimString {
    open spec fn encoded(model: Seq<u8>) -> Result<Value, Error> {
        Ok(Value::String(model))
    }

    fn to_object(self) -> (r: Result<Object, Error>) {
        Ok(Object::String(self))
    }
}

impl ToObject for Array {
    open spec fn encoded(model: Seq<Value>) -> Result<Value, Error> {
        Ok(Value::Array(model))
    }

    fn to_object(self) -> (r: Result<Object, Error>) {
        Ok(Object::Array(self))
    }
}

impl ToObject for Dictionary {
    open spec fn encoded(model: Seq<(Value, Value)>) -> Result<Value, Error> {
        Ok(Value::Dictionary(model))
    }

    fn to_object(self) -> (r: Result<Object, Error>) {
        Ok(Object::Dictionary(self))
    }
}

impl NvimString {
    /// The UTF-8 bytes of `text`.
    pub fn from_str(text: &str) -> (s: NvimString)
        ensures
            s@ == encode_utf8(text@),
    {
        NvimString { bytes: slice_to_vec(text.as_bytes()) }
    }
}

impl ToObject for String {
    open spec fn encoded(model: Seq<char>) -> Result<Value, Error> {
        Ok(Value::String(encode_utf8(model)))
    }

    fn to_object(self) -> (r: Result<Object, Error>) {
        Ok(Object::String(NvimString::from_str(self.as_str())))
    }
}

impl<T: ToObject> ToObject for Option<T> {
    open spec fn encoded(model: Option<T::V>) -> Result<Value, Error> {
        match model {
            None => Ok(Value::Nil),
            Some(x) => T::encoded(x),
        }
    }

    fn to_object(self) -> (r: Result<Object, Error>) {
        match self {
            None => Ok(Object::Nil),
            Some(x) => x.to_object(),
        }
    }
}

/// Whether `i` is the first position of `models` whose element cannot be
/// written as an object.
pub open spec fn is_first_unwritable<T: ToObject>(models: Seq<T::V>, i: int) -> bool {
    &&& 0 <= i < models.len()
    &&& T::encoded(models[i]) is Err
    &&& forall|j: int| 0 <= j < i ==> (#[trigger] T::encoded(models[j])) is Ok
}

/// What writing each element of `models` yields: every object in order,
/// or the error of the first element that cannot be written.
pub open spec fn encoded_items<T: ToObject>(models: Seq<T::V>) -> Result<Seq<Value>, Error> {
    if exists|i: int| is_first_unwritable::<T>(models, i) {
        let i = choose|i: int| is_first_unwritable::<T>(models, i);
        Err(T::encoded(models[i])->Err_0)
    } else {
        Ok(Seq::new(models.len(), |i: int| T::encoded(models[i])->Ok_0))
    }
}

/// At most one position is the first that cannot be written.
pub proof fn lemma_first_unwritable_unique<T: ToObject>(models: Seq<T::V>, i: int)
    requires
        is_first_unwritable::<T>(models, i),
    ensures
        encoded_items::<T>(models) == Err::<Seq<Value>, Error>(T::encoded(models[i])->Err_0),
{
    let k = choose|k: int| is_first_unwritable::<T>(models, k);
    assert(is_first_unwritable::<T>(models, k));
    if k < i {
        assert(T::encoded(models[k]) is Ok);
    }
    if i < k {
        assert(T::encoded(models[i]) is Ok);
    }
}

impl<T: ToObject> ToObject for Vec<T> {
    open spec fn encoded(model: Seq<T::V>) -> Result<Value, Error> {
        match encoded_items::<T>(model) {
            Ok(items) => Ok(Value::Array(items)),
            Err(e) => Err(e),
        }
    }

    fn to_object(self) -> (r: Result<Object, Error>) {
        let ghost models = self.deep_view();
        let mut items: Vec<Object> = Vec::new();
        for x in iter: self
            invariant
                self.deep_view() == models,
                iter.seq().len() == models.len(),
                forall|j: int| 0 <= j < models.len() ==> (#[trigger] iter.seq()[j]).deep_view() == models[j],
                items.len() == iter.index(),
                forall|j: int|
                    0 <= j < iter.index() ==> (#[trigger] T::encoded(models[j])) == Ok::<Value, Error>(
                        items[j]@,
                    ),
        {
            match x.to_object() {
                Ok(obj) => {
                    items.push(obj);
                },
                Err(e) => {
                    proof {
                        lemma_first_unwritable_unique::<T>(models, iter.index() as int);
                    }
                    return Err(e);
                },
            }
        }
        proof {
            assert forall|i: int| !is_first_unwritable::<T>(models, i) by {
                if 0 <= i < models.len() {
                    assert(T::encoded(models[i]) is Ok);
                }
            }
            assert(crate::object::view_items(items@) =~= Seq::new(
                models.len(),
                |i: int| T::encoded(models[i])->Ok_0,
            ));
        }
        Ok(Object::Array(Array { items }))
    }
}

/// What reading a pair from the elements of a list yields: the list has
/// two elements, and the first is read before the second.
pub open spec fn decoded_pair<A: FromObject, B: FromObject>(items: Seq<Value>) -> Result<
    (A::V, B::V),
    Error,
> {
    if items.len() != 2 {
        Err(Error::WrongLength { wanted: 2, found: items.len() as usize })
    } else {
        match A::decoded(items[0]) {
            Err(e) => Err(e),
            Ok(a) => match B::decoded(items[1]) {
                Err(e) => Err(e),
                Ok(b) => Ok((a, b)),
            },
        }
    }
}

impl<A: FromObject, B: FromObject> FromObject for (A, B) {
    open spec fn decoded(value: Value) -> Result<(A::V, B::V), Error> {
        match value {
            Value::Array(items) => decoded_pair::<A, B>(items),
            _ => wrong_type(ObjectKind::Array, value),
        }
    }

    fn from_object(obj: Object) -> (r: Result<(A, B), Error>) {
        match obj {
            Object::Array(array) => {
                let mut items = array.items;
                let ghost models = crate::object::view_items(items@);
                let found = items.len();
                if found != 2 {
                    return Err(Error::WrongLength { wanted: 2, found });
                }
                let second = items.pop();
                let first = items.pop();
                match (first, second) {
                    (Some(first), Some(second)) => {
                        assert(first@ == models[0]);
                        assert(second@ == models[1]);
                        let a = A::from_object(first)?;
                        let b = B::from_object(second)?;
                        Ok((a, b))
                    },
                    _ => Err(Error::WrongLength { wanted: 2, found }),
                }
            },
            other => Err(
                Error::FromWrongType { expected: ObjectKind::Array, actual: other.kind() },
            ),
        }
    }
}

impl<A: ToObject, B: ToObject> ToObject for (A, B) {
    open spec fn encoded(model: (A::V, B::V)) -> Result<Value, Error> {
        match A::encoded(model.0) {
            Err(e) => Err(e),
            Ok(a) => match B::encoded(model.1) {
                Err(e) => Err(e),
                Ok(b) => Ok(Value::Array(seq![a, b])),
            },
        }
    }

    fn to_object(self) -> (r: Result<Object, Error>) {
        let a = self.0.to_object()?;
        let b = self.1.to_object()?;
        let mut items: Vec<Object> = Vec::new();
        items.push(a);
        items.push(b);
        assert(crate::object::view_items(items@) =~= seq![a@, b@]);
        Ok(Object::Array(Array { items }))
    }
}

} // verus!
