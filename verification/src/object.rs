//! The tagged value exchanged with Neovim, and its mathematical model.

use vstd::prelude::*;

verus! {

/// The tag of an [`Object`]: which of the variants is active.
#[derive(Clone, Copy, Debug, PartialEq, Eq, Hash, Structural)]
pub enum ObjectKind {
    Nil,
    Boolean,
    Integer,
    Float,
    String,
    Array,
    Dictionary,
    LuaRef,
    Buffer,
    Window,
    TabPage,
}

impl ObjectKind {
    /// The name of the kind.
    pub open spec fn name(self) -> &'static str {
        match self {
            ObjectKind::Nil => "nil",
            ObjectKind::Boolean => "boolean",
            ObjectKind::Integer => "integer",
            ObjectKind::Float => "float",
            ObjectKind::String => "string",
            ObjectKind::Array => "array",
            ObjectKind::Dictionary => "dictionary",
            ObjectKind::LuaRef => "luaref",
            ObjectKind::Buffer => "buffer",
            ObjectKind::Window => "window",
            ObjectKind::TabPage => "tabpage",
        }
    }

    /// The name of the kind.
    pub fn as_static(&self) -> (name: &'static str)
        ensures
            name == self.name(),
    {
        match self {
            ObjectKind::Nil => "nil",
            ObjectKind::Boolean => "boolean",
            ObjectKind::Integer => "integer",
            ObjectKind::Float => "float",
            ObjectKind::String => "string",
            ObjectKind::Array => "array",
            ObjectKind::Dictionary => "dictionary",
            ObjectKind::LuaRef => "luaref",
            ObjectKind::Buffer => "buffer",
            ObjectKind::Window => "window",
            ObjectKind::TabPage => "tabpage",
        }
    }
}

/// The mathematical model of an [`Object`].
pub enum Value {
    Nil,
    Boolean(bool),
    Integer(i64),
    Float(u64),
    String(Seq<u8>),
    Array(Seq<Value>),
    Dictionary(Seq<(Value, Value)>),
    LuaRef(i32),
    Buffer(i64),
    Window(i64),
    TabPage(i64),
}

/// A floating-point number, held as the bits of its IEEE 754 binary64
/// form. Two floats are equal here when their bits are.
#[derive(Clone, Copy, Debug, PartialEq, Eq, Hash, Structural)]
pub struct Float {
    pub bits: u64,
}

/// An owned byte string. Neovim does not promise that it is UTF-8.
#[derive(Debug, PartialEq, Eq)]
pub struct NvimString {
    pub bytes: Vec<u8>,
}

/// An owned, ordered list of objects.
#[derive(Debug, PartialEq, Eq)]
pub struct Array {
    pub items: Vec<Object>,
}

/// An owned, ordered list of key-value pairs. Keys may repeat.
#[derive(Debug, PartialEq, Eq)]
pub struct Dictionary {
    pub pairs: Vec<(Object, Object)>,
}

/// A value of Neovim's dynamically typed object model.
#[derive(Debug, PartialEq, Eq)]
pub enum Object {
    Nil,
    Boolean(bool),
    Integer(i64),
    Float(u64),
    String(NvimString),
    Array(Array),
    Dictionary(Dictionary),
    LuaRef(i32),
    Buffer(i64),
    Window(i64),
    TabPage(i64),
}

/// The models of a sequence of objects, in order.
pub open spec fn view_items(items: Seq<Object>) -> Seq<Value>
    decreases items, 0nat,
{
    Seq::new(
        items.len(),
        |i: int|
            if 0 <= i < items.len() {
                view_object(items[i])
            } else {
                Value::Nil
            },
    )
}

/// The models of a sequence of pairs, in order.
pub open spec fn view_pairs(pairs: Seq<(Object, Object)>) -> Seq<(Value, Value)>
    decreases pairs, 0nat,
{
    Seq::new(
        pairs.len(),
        |i: int|
            if 0 <= i < pairs.len() {
                (view_object(pairs[i].0), view_object(pairs[i].1))
            } else {
                (Value::Nil, Value::Nil)
            },
    )
}

/// The model of one object.
pub open spec fn view_object(obj: Object) -> Value
    decreases obj, 1nat,
{
    match obj {
        Object::Nil => Value::Nil,
        Object::Boolean(b) => Value::Boolean(b),
        Object::Integer(n) => Value::Integer(n),
        Object::Float(bits) => Value::Float(bits),
        Object::String(s) => Value::String(s.bytes@),
        Object::Array(a) => Value::Array(view_items(a.items@)),
        Object::Dictionary(d) => Value::Dictionary(view_pairs(d.pairs@)),
        Object::LuaRef(r) => Value::LuaRef(r),
        Object::Buffer(h) => Value::Buffer(h),
        Object::Window(h) => Value::Window(h),
        Object::TabPage(h) => Value::TabPage(h),
    }
}

impl View for Object {
    type V = Value;

    open spec fn view(&self) -> Value {
        view_object(*self)
    }
}

impl View for NvimString {
    type V = Seq<u8>;

    open spec fn view(&self) -> Seq<u8> {
        self.bytes@
    }
}

impl View for Array {
    type V = Seq<Value>;

    open spec fn view(&self) -> Seq<Value> {
        view_items(self.items@)
    }
}

impl View for Dictionary {
    type V = Seq<(Value, Value)>;

    open spec fn view(&self) -> Seq<(Value, Value)> {
        view_pairs(self.pairs@)
    }
}

impl NvimString {
    /// The number of bytes.
    pub fn len(&self) -> (n: usize)
        ensures
            n == self@.len(),
    {
        self.bytes.len()
    }

    /// Whether there is no byte.
    pub fn is_empty(&self) -> (b: bool)
        ensures
            b == (self@.len() == 0),
    {
        self.bytes.len() == 0
    }

    /// The bytes.
    pub fn as_bytes(&self) -> (bytes: &[u8])
        ensures
            bytes@ == self@,
    {
        self.bytes.as_slice()
    }
}

impl Array {
    /// A list without elements.
    pub fn new() -> (list: Array)
        ensures
            list@ == Seq::<Value>::empty(),
    {
        let list = Array { items: Vec::new() };
        assert(list@ =~= Seq::empty());
        list
    }

    /// The number of elements.
    pub fn len(&self) -> (n: usize)
        ensures
            n == self@.len(),
    {
        self.items.len()
    }

    /// Whether there is no element.
    pub fn is_empty(&self) -> (b: bool)
        ensures
            b == (self@.len() == 0),
    {
        self.items.len() == 0
    }

    /// Adds `obj` at the end.
    pub fn push(&mut self, obj: Object)
        ensures
            final(self)@ == old(self)@.push(obj@),
    {
        self.items.push(obj);
        assert(final(self)@ =~= old(self)@.push(obj@));
    }
}

/// A deep copy of a list of objects.
fn clone_items(items: &Vec<Object>) -> (copy: Vec<Object>)
    ensures
        view_items(copy@) == view_items(items@),
    decreases items, 0nat,
{
    let mut copy: Vec<Object> = Vec::new();
    let mut i: usize = 0;
    while i < items.len()
        invariant
            i <= items.len(),
            copy.len() == i,
            forall|j: int| 0 <= j < i ==> view_object(#[trigger] copy[j]) == view_object(items[j]),
        decreases items.len() - i,
    {
        copy.push(items[i].clone());
        i += 1;
    }
    assert(view_items(copy@) =~= view_items(items@));
    copy
}

/// A deep copy of a list of pairs.
fn clone_pairs(pairs: &Vec<(Object, Object)>) -> (copy: Vec<(Object, Object)>)
    ensures
        view_pairs(copy@) == view_pairs(pairs@),
    decreases pairs, 0nat,
{
    let mut copy: Vec<(Object, Object)> = Vec::new();
    let mut i: usize = 0;
    while i < pairs.len()
        invariant
            i <= pairs.len(),
            copy.len() == i,
            forall|j: int|
                0 <= j < i ==> view_object((#[trigger] copy[j]).0) == view_object(pairs[j].0)
                    && view_object(copy[j].1) == view_object(pairs[j].1),
        decreases pairs.len() - i,
    {
        let key = pairs[i].0.clone();
        let value = pairs[i].1.clone();
        copy.push((key, value));
        i += 1;
    }
    assert(view_pairs(copy@) =~= view_pairs(pairs@));
    copy
}

impl Clone for NvimString {
    fn clone(&self) -> (copy: Self)
        ensures
            copy@ == self@,
    {
        NvimString { bytes: self.bytes.clone() }
    }
}

impl Clone for Array {
    fn clone(&self) -> (copy: Self)
        ensures
            copy@ == self@,
    {
        Array { items: clone_items(&self.items) }
    }
}

impl Clone for Dictionary {
    fn clone(&self) -> (copy: Self)
        ensures
            copy@ == self@,
    {
        Dictionary { pairs: clone_pairs(&self.pairs) }
    }
}

impl Clone for Object {
    fn clone(&self) -> (copy: Self)
        ensures
            copy@ == self@,
        decreases self, 1nat,
    {
        match self {
            Object::Nil => Object::Nil,
            Object::Boolean(b) => Object::Boolean(*b),
            Object::Integer(n) => Object::Integer(*n),
            Object::Float(bits) => Object::Float(*bits),
            Object::String(s) => Object::String(s.clone()),
            Object::Array(a) => Object::Array(Array { items: clone_items(&a.items) }),
            Object::Dictionary(d) => {
                Object::Dictionary(Dictionary { pairs: clone_pairs(&d.pairs) })
            },
            Object::LuaRef(r) => Object::LuaRef(*r),
            Object::Buffer(h) => Object::Buffer(*h),
            Object::Window(h) => Object::Window(*h),
            Object::TabPage(h) => Object::TabPage(*h),
        }
    }
}

impl Object {
    /// The tag of this object.
    pub fn kind(&self) -> (k: ObjectKind)
        ensures
            k == self@.kind(),
    {
        match self {
            Object::Nil => ObjectKind::Nil,
            Object::Boolean(_) => ObjectKind::Boolean,
            Object::Integer(_) => ObjectKind::Integer,
            Object::Float(_) => ObjectKind::Float,
            Object::String(_) => ObjectKind::String,
            Object::Array(_) => ObjectKind::Array,
            Object::Dictionary(_) => ObjectKind::Dictionary,
            Object::LuaRef(_) => ObjectKind::LuaRef,
            Object::Buffer(_) => ObjectKind::Buffer,
            Object::Window(_) => ObjectKind::Window,
            Object::TabPage(_) => ObjectKind::TabPage,
        }
    }
}

impl Object {
    /// The payload of a `Boolean`.
    ///
    /// The tag decides which accessor may be used: the caller shows that
    /// the object is a `Boolean`.
    pub fn as_boolean_unchecked(&self) -> (b: bool)
        requires
            self@.kind() == ObjectKind::Boolean,
        ensures
            self@ == Value::Boolean(b),
    {
        match self {
            Object::Boolean(b) => *b,
            _ => false,
        }
    }

    /// The payload of an `Integer`, or the handle of a `Buffer`, `Window`
    /// or `TabPage`, all of which are stored as integers.
    pub fn as_integer_unchecked(&self) -> (n: i64)
        requires
            self@.is_integer_backed(),
        ensures
            n == self@.integer(),
    {
        match self {
            Object::Integer(n) => *n,
            Object::Buffer(n) => *n,
            Object::Window(n) => *n,
            Object::TabPage(n) => *n,
            _ => 0,
        }
    }

    /// The bit pattern of a `Float`.
    pub fn as_float_unchecked(&self) -> (bits: u64)
        requires
            self@.kind() == ObjectKind::Float,
        ensures
            self@ == Value::Float(bits),
    {
        match self {
            Object::Float(bits) => *bits,
            _ => 0,
        }
    }

    /// The reference held by a `LuaRef`.
    pub fn as_luaref_unchecked(&self) -> (r: i32)
        requires
            self@.kind() == ObjectKind::LuaRef,
        ensures
            self@ == Value::LuaRef(r),
    {
        match self {
            Object::LuaRef(r) => *r,
            _ => 0,
        }
    }

    /// The text of a `String`, moved out of the object.
    pub fn into_string_unchecked(self) -> (s: NvimString)
        requires
            self@.kind() == ObjectKind::String,
        ensures
            self@ == Value::String(s@),
    {
        match self {
            Object::String(s) => s,
            _ => NvimString { bytes: Vec::new() },
        }
    }

    /// The list of an `Array`, moved out of the object.
    pub fn into_array_unchecked(self) -> (a: Array)
        requires
            self@.kind() == ObjectKind::Array,
        ensures
            self@ == Value::Array(a@),
    {
        match self {
            Object::Array(a) => a,
            _ => Array { items: Vec::new() },
        }
    }

    /// The pairs of a `Dictionary`, moved out of the object.
    pub fn into_dict_unchecked(self) -> (d: Dictionary)
        requires
            self@.kind() == ObjectKind::Dictionary,
        ensures
            self@ == Value::Dictionary(d@),
    {
        match self {
            Object::Dictionary(d) => d,
            _ => Dictionary { pairs: Vec::new() },
        }
    }
}

impl Value {
    /// Whether the payload is stored as an integer: an `Integer`, or one
    /// of the three kinds of handle.
    pub open spec fn is_integer_backed(self) -> bool {
        self is Integer || self is Buffer || self is Window || self is TabPage
    }

    /// The integer stored in an integer-backed value.
    pub open spec fn integer(self) -> i64
        recommends
            self.is_integer_backed(),
    {
        match self {
            Value::Integer(n) => n,
            Value::Buffer(n) => n,
            Value::Window(n) => n,
            Value::TabPage(n) => n,
            _ => 0,
        }
    }

    /// The tag of the object that this value models.
    pub open spec fn kind(self) -> ObjectKind {
        match self {
            Value::Nil => ObjectKind::Nil,
            Value::Boolean(_) => ObjectKind::Boolean,
            Value::Integer(_) => ObjectKind::Integer,
            Value::Float(_) => ObjectKind::Float,
            Value::String(_) => ObjectKind::String,
            Value::Array(_) => ObjectKind::Array,
            Value::Dictionary(_) => ObjectKind::Dictionary,
            Value::LuaRef(_) => ObjectKind::LuaRef,
            Value::Buffer(_) => ObjectKind::Buffer,
            Value::Window(_) => ObjectKind::Window,
            Value::TabPage(_) => ObjectKind::TabPage,
        }
    }
}

} // verus!
