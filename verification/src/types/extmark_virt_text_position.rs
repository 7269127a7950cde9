use crate::bridge::lemma_names_are_their_bytes;
use crate::conversion::{text_from, wrong_type, Error, FromObject, ToObject};
use crate::object::{NvimString, Object, ObjectKind, Value};
use vstd::prelude::*;
use vstd::string::StringSliceAdditionalSpecFns;

verus! {

/// Where virtual text is shown.
#[derive(Clone, Copy, Debug, PartialEq, Eq, Hash, Structural)]
pub enum ExtmarkVirtTextPosition {
    Eol,
    Overlay,
    RightAlign,
}

impl DeepView for ExtmarkVirtTextPosition {
    type V = ExtmarkVirtTextPosition;

    open spec fn deep_view(&self) -> ExtmarkVirtTextPosition {
        *self
    }
}

impl ExtmarkVirtTextPosition {
    /// The text that stands for this variant.
    pub open spec fn tag(self) -> &'static str {
        match self {
            ExtmarkVirtTextPosition::Eol => "eol",
            ExtmarkVirtTextPosition::Overlay => "overlay",
            ExtmarkVirtTextPosition::RightAlign => "right_align",
        }
    }

    /// The text that stands for this variant.
    pub fn as_str(&self) -> (text: &'static str)
        ensures
            text == self.tag(),
    {
        match self {
            ExtmarkVirtTextPosition::Eol => "eol",
            ExtmarkVirtTextPosition::Overlay => "overlay",
            ExtmarkVirtTextPosition::RightAlign => "right_align",
        }
    }

    /// The variant that `text` stands for.
    pub open spec fn named(text: Seq<u8>) -> Result<ExtmarkVirtTextPosition, Error> {
        if text == "eol".spec_bytes() {
            Ok(ExtmarkVirtTextPosition::Eol)
        } else if text == "overlay".spec_bytes() {
            Ok(ExtmarkVirtTextPosition::Overlay)
        } else if text == "right_align".spec_bytes() {
            Ok(ExtmarkVirtTextPosition::RightAlign)
        } else {
            Err(Error::UnknownVariant { of: "ExtmarkVirtTextPosition" })
        }
    }

    /// Reads the variant that `text` stands for.
    pub fn from_text(text: &NvimString) -> (r: Result<ExtmarkVirtTextPosition, Error>)
        ensures
            r == ExtmarkVirtTextPosition::named(text@),
    {
        if text.is("eol") {
            Ok(ExtmarkVirtTextPosition::Eol)
        } else if text.is("overlay") {
            Ok(ExtmarkVirtTextPosition::Overlay)
        } else if text.is("right_align") {
            Ok(ExtmarkVirtTextPosition::RightAlign)
        } else {
            Err(Error::UnknownVariant { of: "ExtmarkVirtTextPosition" })
        }
    }
}

impl FromObject for ExtmarkVirtTextPosition {
    open spec fn decoded(value: Value) -> Result<ExtmarkVirtTextPosition, Error> {
        match value {
            Value::String(text) => ExtmarkVirtTextPosition::named(text),
            _ => wrong_type(ObjectKind::String, value),
        }
    }

    fn from_object(obj: Object) -> (r: Result<ExtmarkVirtTextPosition, Error>) {
        let text = text_from(obj)?;
        ExtmarkVirtTextPosition::from_text(&text)
    }
}

impl ToObject for ExtmarkVirtTextPosition {
    open spec fn encoded(model: ExtmarkVirtTextPosition) -> Result<Value, Error> {
        Ok(Value::String(model.tag().spec_bytes()))
    }

    fn to_object(self) -> (r: Result<Object, Error>) {
        Ok(Object::String(NvimString::from_str(self.as_str())))
    }
}

impl ExtmarkVirtTextPosition {
    /// Every variant is read back from the text that it is written as.
    pub proof fn lemma_round_trip(v: ExtmarkVirtTextPosition)
        ensures
            ExtmarkVirtTextPosition::named(v.tag().spec_bytes())
                == Ok::<ExtmarkVirtTextPosition, Error>(v),
            ExtmarkVirtTextPosition::decoded(ExtmarkVirtTextPosition::encoded(v)->Ok_0)
                == Ok::<ExtmarkVirtTextPosition, Error>(v),
            v.tag()@.len() > 0,
    {
        reveal_strlit("eol");
        reveal_strlit("overlay");
        reveal_strlit("right_align");
        lemma_names_are_their_bytes();
    }
}

} // verus!
