//! Reading structs and enums from objects, and writing them.
//!
//! A struct is a dictionary from the names of its fields to their values.
//! An enum variant without a payload is the text of its name; one with a
//! payload is a dictionary with a single entry, from the name to the
//! payload. Every struct and enum is read and written through the
//! functions of this module, field by field in the order of declaration.

use crate::conversion::{
    decoded_items, decoded_optional, encoded_items, is_first_unwritable,
    lemma_first_unwritable_unique, modelled, optional_from, wrong_type, Error, FromObject, ToObject,
};
use crate::object::{view_items, Array, Dictionary, NvimString, Object, ObjectKind, Value};
use vstd::prelude::*;
use vstd::string::StringSliceAdditionalSpecFns;
use vstd::utf8::{encode_utf8, encode_utf8_decode_utf8};

verus! {

/// The key under which a field or a variant called `name` is stored.
pub open spec fn key_of(name: &str) -> Value {
    Value::String(name.spec_bytes())
}

/// Whether `i` is the position of the first pair of `pairs` with `key`.
pub open spec fn is_first_entry(pairs: Seq<(Value, Value)>, key: Value, i: int) -> bool {
    &&& 0 <= i < pairs.len()
    &&& pairs[i].0 == key
    &&& forall|j: int| 0 <= j < i ==> (#[trigger] pairs[j]).0 != key
}

/// The value of the first pair of `pairs` with `key`, if there is one.
#[verifier::opaque]
pub open spec fn entry(pairs: Seq<(Value, Value)>, key: Value) -> Option<Value> {
    if exists|i: int| is_first_entry(pairs, key, i) {
        Some(pairs[choose|i: int| is_first_entry(pairs, key, i)].1)
    } else {
        None
    }
}

/// The first entry is where `entry` looks.
pub proof fn lemma_entry_at(pairs: Seq<(Value, Value)>, key: Value, i: int)
    requires
        is_first_entry(pairs, key, i),
    ensures
        entry(pairs, key) == Some(pairs[i].1),
{
    reveal(entry);
    let k = choose|k: int| is_first_entry(pairs, key, k);
    assert(is_first_entry(pairs, key, k));
    if k < i {
        assert(pairs[k].0 != key);
    }
    if i < k {
        assert(pairs[i].0 != key);
    }
}

/// Where no pair has `key`, there is no entry.
pub proof fn lemma_entry_absent(pairs: Seq<(Value, Value)>, key: Value)
    requires
        forall|j: int| 0 <= j < pairs.len() ==> (#[trigger] pairs[j]).0 != key,
    ensures
        entry(pairs, key) is None,
{
    reveal(entry);
    assert forall|i: int| !is_first_entry(pairs, key, i) by {}
}

/// Where some pair has `key`, there is a first one.
pub proof fn lemma_has_first_entry(pairs: Seq<(Value, Value)>, key: Value, i: int)
    requires
        0 <= i < pairs.len(),
        pairs[i].0 == key,
    ensures
        exists|k: int| is_first_entry(pairs, key, k) && k <= i,
    decreases i,
{
    if exists|j: int| 0 <= j < i && (#[trigger] pairs[j]).0 == key {
        let j = choose|j: int| 0 <= j < i && (#[trigger] pairs[j]).0 == key;
        lemma_has_first_entry(pairs, key, j);
    } else {
        assert(is_first_entry(pairs, key, i));
    }
}

/// A pair under another key, wherever it is put, changes no entry.
pub proof fn lemma_other_key_is_ignored(
    pairs: Seq<(Value, Value)>,
    at: int,
    extra: (Value, Value),
    key: Value,
)
    requires
        0 <= at <= pairs.len(),
        extra.0 != key,
    ensures
        entry(pairs.insert(at, extra), key) == entry(pairs, key),
{
    reveal(entry);
    let more = pairs.insert(at, extra);
    if exists|i: int| is_first_entry(pairs, key, i) {
        let i = choose|i: int| is_first_entry(pairs, key, i);
        let k = if i < at {
            i
        } else {
            i + 1
        };
        assert forall|j: int| 0 <= j < k implies (#[trigger] more[j]).0 != key by {
            if j < at {
                assert(more[j] == pairs[j]);
            } else if j > at {
                assert(more[j] == pairs[j - 1]);
            }
        }
        assert(more[k] == pairs[i]);
        assert(is_first_entry(more, key, k));
        lemma_entry_at(more, key, k);
        lemma_entry_at(pairs, key, i);
    } else {
        assert forall|j: int| 0 <= j < more.len() implies (#[trigger] more[j]).0 != key by {
            if j < at {
                assert(more[j] == pairs[j]);
                if pairs[j].0 == key {
                    lemma_has_first_entry(pairs, key, j);
                }
            } else if j > at {
                assert(more[j] == pairs[j - 1]);
                if pairs[j - 1].0 == key {
                    lemma_has_first_entry(pairs, key, j - 1);
                }
            }
        }
        lemma_entry_absent(more, key);
    }
}

/// The pairs that a struct is read from: those of a dictionary. An empty
/// list stands for an empty dictionary.
pub open spec fn fields_of(value: Value) -> Result<Seq<(Value, Value)>, Error> {
    match value {
        Value::Dictionary(pairs) => Ok(pairs),
        Value::Array(items) if items.len() == 0 => Ok(Seq::empty()),
        _ => wrong_type(ObjectKind::Dictionary, value),
    }
}

/// The outcome of reading the field `name`: an error is reported as that
/// of the field.
pub open spec fn in_field<V>(name: &'static str, r: Result<V, Error>) -> Result<V, Error> {
    match r {
        Ok(x) => Ok(x),
        Err(e) => Err(Error::InvalidField { field: name, cause: Box::new(e) }),
    }
}

/// A field that must be present.
#[verifier::opaque]
pub open spec fn required<T: FromObject>(pairs: Seq<(Value, Value)>, name: &'static str) -> Result<
    T::V,
    Error,
> {
    match entry(pairs, key_of(name)) {
        Some(value) => in_field(name, T::decoded(value)),
        None => Err(Error::MissingField { field: name }),
    }
}

/// A field that may be absent or nil.
#[verifier::opaque]
pub open spec fn optional<T: FromObject>(pairs: Seq<(Value, Value)>, name: &'static str) -> Result<
    Option<T::V>,
    Error,
> {
    match entry(pairs, key_of(name)) {
        Some(value) => in_field(name, decoded_optional::<T>(value)),
        None => Ok(None),
    }
}

/// A field that stands for `default` where it is absent.
#[verifier::opaque]
pub open spec fn or_default<T: FromObject>(
    pairs: Seq<(Value, Value)>,
    name: &'static str,
    default: T::V,
) -> Result<T::V, Error> {
    match entry(pairs, key_of(name)) {
        Some(value) => in_field(name, T::decoded(value)),
        None => Ok(default),
    }
}

/// Whether two byte strings are equal.
pub fn bytes_equal(a: &[u8], b: &[u8]) -> (same: bool)
    ensures
        same == (a@ == b@),
{
    if a.len() != b.len() {
        return false;
    }
    let mut i: usize = 0;
    while i < a.len()
        invariant
            a.len() == b.len(),
            i <= a.len(),
            forall|j: int| 0 <= j < i ==> a@[j] == b@[j],
        decreases a.len() - i,
    {
        if a[i] != b[i] {
            return false;
        }
        i += 1;
    }
    assert(a@ =~= b@);
    true
}

impl NvimString {
    /// Whether this text is `name`.
    pub fn is(&self, name: &str) -> (same: bool)
        ensures
            same == (self@ == name.spec_bytes()),
    {
        bytes_equal(self.bytes.as_slice(), name.as_bytes())
    }
}

impl Object {
    /// Whether this object is the key of the field or variant `name`.
    pub fn is_key(&self, name: &str) -> (same: bool)
        ensures
            same == (self@ == key_of(name)),
    {
        match self {
            Object::String(text) => text.is(name),
            _ => false,
        }
    }
}

impl Dictionary {
    /// A dictionary without pairs.
    pub fn new() -> (d: Dictionary)
        ensures
            d@ == Seq::<(Value, Value)>::empty(),
    {
        let d = Dictionary { pairs: Vec::new() };
        assert(d@ =~= Seq::empty());
        d
    }

    /// The number of pairs.
    pub fn len(&self) -> (n: usize)
        ensures
            n == self@.len(),
    {
        self.pairs.len()
    }

    /// Whether there is no pair.
    pub fn is_empty(&self) -> (b: bool)
        ensures
            b == (self@.len() == 0),
    {
        self.pairs.len() == 0
    }

    /// The value of the first pair whose key is the text `name`.
    pub fn get(&self, name: &str) -> (found: Option<&Object>)
        ensures
            match found {
                Some(obj) => entry(self@, key_of(name)) == Some(obj@),
                None => entry(self@, key_of(name)) is None,
            },
    {
        let mut i: usize = 0;
        while i < self.pairs.len()
            invariant
                i <= self.pairs.len(),
                forall|j: int| 0 <= j < i ==> (#[trigger] self@[j]).0 != key_of(name),
            decreases self.pairs.len() - i,
        {
            if self.pairs[i].0.is_key(name) {
                proof {
                    lemma_entry_at(self@, key_of(name), i as int);
                }
                return Some(&self.pairs[i].1);
            }
            i += 1;
        }
        proof {
            lemma_entry_absent(self@, key_of(name));
        }
        None
    }

    /// Adds the pair of the key `name` and `value` at the end.
    pub fn insert(&mut self, name: &str, value: Object)
        ensures
            final(self)@ == old(self)@.push((key_of(name), value@)),
    {
        let key = Object::String(NvimString::from_str(name));
        self.pairs.push((key, value));
        assert(final(self)@ =~= old(self)@.push((key_of(name), value@)));
    }

    /// The dictionary that a struct is read from.
    pub fn of_fields(obj: Object) -> (r: Result<Dictionary, Error>)
        ensures
            modelled(r) == fields_of(obj@),
    {
        match obj {
            Object::Dictionary(d) => Ok(d),
            Object::Array(a) => {
                if a.items.len() == 0 {
                    Ok(Dictionary::new())
                } else {
                    Err(
                        Error::FromWrongType {
                            expected: ObjectKind::Dictionary,
                            actual: ObjectKind::Array,
                        },
                    )
                }
            },
            other => Err(
                Error::FromWrongType { expected: ObjectKind::Dictionary, actual: other.kind() },
            ),
        }
    }

    /// Reads the field `name`, which must be present.
    pub fn required<T: FromObject>(&self, name: &'static str) -> (r: Result<T, Error>)
        ensures
            modelled(r) == required::<T>(self@, name),
    {
        reveal(required);
        match self.get(name) {
            Some(obj) => match T::from_object(obj.clone()) {
                Ok(x) => Ok(x),
                Err(e) => Err(Error::InvalidField { field: name, cause: Box::new(e) }),
            },
            None => Err(Error::MissingField { field: name }),
        }
    }

    /// Reads the field `name`, which may be absent or nil.
    pub fn optional<T: FromObject>(&self, name: &'static str) -> (r: Result<Option<T>, Error>)
        ensures
            modelled(r) == optional::<T>(self@, name),
    {
        reveal(optional);
        match self.get(name) {
            Some(obj) => match optional_from::<T>(obj.clone()) {
                Ok(x) => Ok(x),
                Err(e) => Err(Error::InvalidField { field: name, cause: Box::new(e) }),
            },
            None => Ok(None),
        }
    }

    /// Reads the field `name`, which stands for `default` where it is
    /// absent.
    pub fn or_default<T: FromObject>(&self, name: &'static str, default: T) -> (r: Result<T, Error>)
        ensures
            modelled(r) == or_default::<T>(self@, name, default.deep_view()),
    {
        reveal(or_default);
        match self.get(name) {
            Some(obj) => match T::from_object(obj.clone()) {
                Ok(x) => Ok(x),
                Err(e) => Err(Error::InvalidField { field: name, cause: Box::new(e) }),
            },
            None => Ok(default),
        }
    }
}

/// What is written for an optional field that is absent.
#[derive(Clone, Copy, Debug, PartialEq, Eq, Structural)]
pub enum Absent {
    /// No pair at all.
    Omit,
    /// A pair whose value is nil.
    Nil,
}

/// The pairs after the field `name` is written behind `pairs`.
pub open spec fn written<T: ToObject>(
    pairs: Seq<(Value, Value)>,
    name: &'static str,
    model: T::V,
) -> Result<Seq<(Value, Value)>, Error> {
    match T::encoded(model) {
        Ok(value) => Ok(pairs.push((key_of(name), value))),
        Err(e) => Err(Error::InvalidField { field: name, cause: Box::new(e) }),
    }
}

/// The pairs after the optional field `name` is written behind `pairs`.
pub open spec fn written_optional<T: ToObject>(
    pairs: Seq<(Value, Value)>,
    name: &'static str,
    model: Option<T::V>,
    absent: Absent,
) -> Result<Seq<(Value, Value)>, Error> {
    match model {
        Some(x) => written::<T>(pairs, name, x),
        None => match absent {
            Absent::Omit => Ok(pairs),
            Absent::Nil => Ok(pairs.push((key_of(name), Value::Nil))),
        },
    }
}

/// The outcome of writing fields one after the other into `dict`.
pub open spec fn pairs_of(r: Result<Dictionary, Error>) -> Result<Seq<(Value, Value)>, Error> {
    match r {
        Ok(d) => Ok(d@),
        Err(e) => Err(e),
    }
}

/// The dictionary object of the pairs, where they could be written.
pub open spec fn as_dictionary(r: Result<Seq<(Value, Value)>, Error>) -> Result<Value, Error> {
    match r {
        Ok(pairs) => Ok(Value::Dictionary(pairs)),
        Err(e) => Err(e),
    }
}

impl Dictionary {
    /// Writes the field `name` behind the pairs.
    pub fn with<T: ToObject>(self, name: &'static str, value: T) -> (r: Result<Dictionary, Error>)
        ensures
            pairs_of(r) == written::<T>(self@, name, value.deep_view()),
    {
        let mut dict = self;
        match value.to_object() {
            Ok(obj) => {
                dict.insert(name, obj);
                Ok(dict)
            },
            Err(e) => Err(Error::InvalidField { field: name, cause: Box::new(e) }),
        }
    }

    /// Writes the optional field `name` behind the pairs. Where the
    /// value is absent, `absent` says what is written.
    pub fn with_optional<T: ToObject>(
        self,
        name: &'static str,
        value: Option<T>,
        absent: Absent,
    ) -> (r: Result<Dictionary, Error>)
        ensures
            pairs_of(r) == written_optional::<T>(self@, name, value.deep_view(), absent),
    {
        match value {
            Some(x) => self.with(name, x),
            None => match absent {
                Absent::Omit => Ok(self),
                Absent::Nil => {
                    let mut dict = self;
                    dict.insert(name, Object::Nil);
                    Ok(dict)
                },
            },
        }
    }
}

/// The pairs as a list: each pair is the list of its key and its value.
pub open spec fn entries_of(pairs: Seq<(Value, Value)>) -> Seq<Value> {
    Seq::new(pairs.len(), |i: int| Value::Array(seq![pairs[i].0, pairs[i].1]))
}

impl Dictionary {
    /// The pairs as a list: each pair becomes the list of its key and
    /// its value.
    pub fn into_entries(self) -> (list: Array)
        ensures
            list@ == entries_of(self@),
    {
        let ghost pairs = self@;
        let mut items: Vec<Object> = Vec::new();
        for pair in iter: self.pairs
            invariant
                iter.seq().len() == pairs.len(),
                forall|j: int|
                    0 <= j < pairs.len() ==> (#[trigger] iter.seq()[j]).0@ == pairs[j].0
                        && iter.seq()[j].1@ == pairs[j].1,
                items.len() == iter.index(),
                forall|j: int|
                    0 <= j < iter.index() ==> (#[trigger] items[j])@ == Value::Array(
                        seq![pairs[j].0, pairs[j].1],
                    ),
        {
            let (key, value) = pair;
            let mut both: Vec<Object> = Vec::new();
            both.push(key);
            both.push(value);
            assert(view_items(both@) =~= seq![key@, value@]);
            items.push(Object::Array(Array { items: both }));
        }
        let list = Array { items };
        assert(list@ =~= entries_of(pairs));
        list
    }
}

/// The values of the entries, in order.
pub open spec fn values_of<V>(entries: Seq<(Seq<char>, V)>) -> Seq<V> {
    Seq::new(entries.len(), |i: int| entries[i].1)
}

/// What writing the entries of a map yields, in the order in which the
/// map is walked: a pair for each entry, from the text of its key to its
/// value, or the error of the first value that cannot be written.
pub open spec fn encoded_entries<V: ToObject>(entries: Seq<(Seq<char>, V::V)>) -> Result<
    Seq<(Value, Value)>,
    Error,
> {
    match encoded_items::<V>(values_of(entries)) {
        Err(e) => Err(e),
        Ok(values) => Ok(
            Seq::new(
                entries.len(),
                |i: int| (Value::String(encode_utf8(entries[i].0)), values[i]),
            ),
        ),
    }
}

impl Dictionary {
    /// Writes the entries of a map as a dictionary, in the order in which
    /// they come.
    ///
    /// A map that walks its entries in no fixed order gives a dictionary
    /// in that order: this function holds for every order.
    pub fn from_entries<V: ToObject>(entries: Vec<(String, V)>) -> (r: Result<Dictionary, Error>)
        ensures
            pairs_of(r) == encoded_entries::<V>(entries.deep_view()),
    {
        let ghost models = entries.deep_view();
        let ghost values = values_of(models);
        let mut pairs: Vec<(Object, Object)> = Vec::new();
        for entry in iter: entries
            invariant
                entries.deep_view() == models,
                values == values_of(models),
                iter.seq().len() == models.len(),
                forall|j: int|
                    0 <= j < models.len() ==> (#[trigger] iter.seq()[j]).deep_view() == models[j],
                pairs.len() == iter.index(),
                forall|j: int|
                    0 <= j < iter.index() ==> (#[trigger] V::encoded(values[j])) == Ok::<Value, Error>(
                        pairs[j].1@,
                    ) && pairs[j].0@ == Value::String(encode_utf8(models[j].0)),
        {
            let (name, value) = entry;
            match value.to_object() {
                Ok(obj) => {
                    let key = Object::String(NvimString::from_str(name.as_str()));
                    pairs.push((key, obj));
                },
                Err(e) => {
                    proof {
                        lemma_first_unwritable_unique::<V>(values, iter.index() as int);
                    }
                    return Err(e);
                },
            }
        }
        let dict = Dictionary { pairs };
        proof {
            assert forall|i: int| !is_first_unwritable::<V>(values, i) by {
                if 0 <= i < values.len() {
                    assert(V::encoded(values[i]) is Ok);
                }
            }
            let written = encoded_items::<V>(values)->Ok_0;
            assert(dict@ =~= Seq::new(
                models.len(),
                |i: int| (Value::String(encode_utf8(models[i].0)), written[i]),
            ));
        }
        Ok(dict)
    }
}

/// A pair under another key, wherever it is put, changes nothing of what
/// is read for the field `name`, whatever is asked of the field.
pub proof fn lemma_field_ignores_other_key<T: FromObject>(
    pairs: Seq<(Value, Value)>,
    at: int,
    extra: (Value, Value),
    name: &'static str,
)
    requires
        0 <= at <= pairs.len(),
        extra.0 != key_of(name),
    ensures
        required::<T>(pairs.insert(at, extra), name) == required::<T>(pairs, name),
        optional::<T>(pairs.insert(at, extra), name) == optional::<T>(pairs, name),
        forall|default: T::V| #[trigger]
            or_default::<T>(pairs.insert(at, extra), name, default) == or_default::<T>(
                pairs,
                name,
                default,
            ),
{
    reveal(required);
    reveal(optional);
    reveal(or_default);
    lemma_other_key_is_ignored(pairs, at, extra, key_of(name));
}

/// A field that must be present and has no pair is reported by its name,
/// and an optional one is then absent.
pub proof fn lemma_missing_field<T: FromObject>(pairs: Seq<(Value, Value)>, name: &'static str)
    requires
        forall|j: int| 0 <= j < pairs.len() ==> (#[trigger] pairs[j]).0 != key_of(name),
    ensures
        required::<T>(pairs, name) == Err::<T::V, Error>(Error::MissingField { field: name }),
        optional::<T>(pairs, name) == Ok::<Option<T::V>, Error>(None),
        forall|default: T::V| #[trigger]
            or_default::<T>(pairs, name, default) == Ok::<T::V, Error>(default),
{
    reveal(required);
    reveal(optional);
    reveal(or_default);
    lemma_entry_absent(pairs, key_of(name));
}

/// A field that has a pair is read from the value of its first pair, and
/// a failure is reported as that of the field.
pub proof fn lemma_present_field<T: FromObject>(
    pairs: Seq<(Value, Value)>,
    name: &'static str,
    i: int,
)
    requires
        is_first_entry(pairs, key_of(name), i),
    ensures
        required::<T>(pairs, name) == in_field(name, T::decoded(pairs[i].1)),
        optional::<T>(pairs, name) == in_field(name, decoded_optional::<T>(pairs[i].1)),
        forall|default: T::V| #[trigger]
            or_default::<T>(pairs, name, default) == in_field(name, T::decoded(pairs[i].1)),
{
    reveal(required);
    reveal(optional);
    reveal(or_default);
    lemma_entry_at(pairs, key_of(name), i);
}

impl Dictionary {
    /// Reads the pairs as the entries of a map from text to `V`, in
    /// their order: each pair is read as the pair of its key and its
    /// value.
    pub fn read_entries<V: FromObject>(self) -> (r: Result<Vec<(String, V)>, Error>)
        ensures
            modelled(r) == decoded_items::<(String, V)>(entries_of(self@)),
    {
        Vec::<(String, V)>::from_object(Object::Array(self.into_entries()))
    }
}

/// The name of the variant that `value` stands for, and its payload if
/// it has one: a text is the name of a variant without a payload, and a
/// dictionary of a single pair is the name and the payload.
pub open spec fn tagged(value: Value) -> Result<(Seq<u8>, Option<Value>), Error> {
    match value {
        Value::String(name) => Ok((name, None)),
        Value::Dictionary(pairs) => if pairs.len() != 1 {
            Err(Error::WrongLength { wanted: 1, found: pairs.len() as usize })
        } else {
            match pairs[0].0 {
                Value::String(name) => Ok((name, Some(pairs[0].1))),
                other => wrong_type(ObjectKind::String, other),
            }
        },
        _ => wrong_type(ObjectKind::String, value),
    }
}

/// What `tagged_from` returned, with the name and the payload replaced
/// by their models.
pub open spec fn tagged_view(r: Result<(NvimString, Option<Object>), Error>) -> Result<
    (Seq<u8>, Option<Value>),
    Error,
> {
    match r {
        Ok((name, Some(payload))) => Ok((name@, Some(payload@))),
        Ok((name, None)) => Ok((name@, None)),
        Err(e) => Err(e),
    }
}

/// Reads the name of the variant that `obj` stands for, and its payload
/// if it has one.
pub fn tagged_from(obj: Object) -> (r: Result<(NvimString, Option<Object>), Error>)
    ensures
        tagged_view(r) == tagged(obj@),
{
    match obj {
        Object::String(name) => Ok((name, None)),
        Object::Dictionary(dict) => {
            let ghost models = dict@;
            let mut pairs = dict.pairs;
            let found = pairs.len();
            if found != 1 {
                return Err(Error::WrongLength { wanted: 1, found });
            }
            match pairs.pop() {
                Some((key, payload)) => {
                    assert(models[0] == (key@, payload@));
                    match key {
                        Object::String(name) => Ok((name, Some(payload))),
                        other => Err(
                            Error::FromWrongType {
                                expected: ObjectKind::String,
                                actual: other.kind(),
                            },
                        ),
                    }
                },
                None => Err(Error::WrongLength { wanted: 1, found }),
            }
        },
        other => Err(
            Error::FromWrongType { expected: ObjectKind::String, actual: other.kind() },
        ),
    }
}

/// Names that are stored as the same bytes are the same name.
pub proof fn lemma_names_are_their_bytes()
    ensures
        forall|a: &str, b: &str|
            #![trigger a.spec_bytes(), b.spec_bytes()]
            a.spec_bytes() == b.spec_bytes() ==> a@ == b@,
{
    assert forall|a: &str, b: &str| a.spec_bytes() == b.spec_bytes() implies a@ == b@ by {
        encode_utf8_decode_utf8(a@);
        encode_utf8_decode_utf8(b@);
    }
}

/// Two names that differ are stored under keys that differ.
pub proof fn lemma_keys_differ(a: &str, b: &str)
    requires
        a@ != b@,
    ensures
        a.spec_bytes() != b.spec_bytes(),
        key_of(a) != key_of(b),
{
    encode_utf8_decode_utf8(a@);
    encode_utf8_decode_utf8(b@);
}

} // verus!
