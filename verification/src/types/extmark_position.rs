use crate::conversion::{Error, ToObject};
use crate::object::{view_items, Array, Object, Value};
use vstd::prelude::*;

verus! {

/// A position in a buffer, from which or up to which extmarks are
/// looked for.
#[derive(Clone, Copy, Debug, PartialEq, Eq, Hash)]
pub enum ExtmarkPosition {
    /// The row and the column, both counted from 0.
    ByTuple((usize, usize)),
    /// The position of the extmark with this id.
    ById(u32),
}

impl DeepView for ExtmarkPosition {
    type V = ExtmarkPosition;

    open spec fn deep_view(&self) -> ExtmarkPosition {
        *self
    }
}

impl ToObject for ExtmarkPosition {
    open spec fn encoded(model: ExtmarkPosition) -> Result<Value, Error> {
        match model {
            ExtmarkPosition::ByTuple((row, col)) => if row <= i64::MAX && col <= i64::MAX {
                Ok(Value::Array(seq![Value::Integer(row as i64), Value::Integer(col as i64)]))
            } else {
                Err(Error::FromInt)
            },
            ExtmarkPosition::ById(id) => Ok(Value::Integer(id as i64)),
        }
    }

    fn to_object(self) -> (r: Result<Object, Error>) {
        match self {
            ExtmarkPosition::ByTuple((row, col)) => match (i64::try_from(row), i64::try_from(col)) {
                (Ok(row), Ok(col)) => {
                    let mut items: Vec<Object> = Vec::new();
                    items.push(Object::Integer(row));
                    items.push(Object::Integer(col));
                    assert(view_items(items@) =~= seq![Value::Integer(row), Value::Integer(col)]);
                    Ok(Object::Array(Array { items }))
                },
                _ => Err(Error::FromInt),
            },
            ExtmarkPosition::ById(id) => Ok(Object::Integer(id as i64)),
        }
    }
}

} // verus!
