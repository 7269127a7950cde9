use crate::bridge::lemma_names_are_their_bytes;
use crate::conversion::{text_from, wrong_type, Error, FromObject, ToObject};
use crate::object::{NvimString, Object, ObjectKind, Value};
use vstd::prelude::*;
use vstd::string::StringSliceAdditionalSpecFns;

verus! {

/// How the highlight of virtual text is combined with what lies under it.
#[derive(Clone, Copy, Debug, PartialEq, Eq, Hash, Structural)]
pub enum ExtmarkHlMode {
    Replace,
    Combine,
    Blend,
}

impl DeepView for ExtmarkHlMode {
    type V = ExtmarkHlMode;

    open spec fn deep_view(&self) -> ExtmarkHlMode {
        *self
    }
}

impl ExtmarkHlMode {
    /// The text that stands for this variant.
    pub open spec fn tag(self) -> &'static str {
        match self {
            ExtmarkHlMode::Replace => "replace",
            ExtmarkHlMode::Combine => "combine",
            ExtmarkHlMode::Blend => "blend",
        }
    }

    /// The text that stands for this variant.
    pub fn as_str(&self) -> (text: &'static str)
        ensures
            text == self.tag(),
    {
        match self {
            ExtmarkHlMode::Replace => "replace",
            ExtmarkHlMode::Combine => "combine",
            ExtmarkHlMode::Blend => "blend",
        }
    }

    /// The variant that `text` stands for.
    pub open spec fn named(text: Seq<u8>) -> Result<ExtmarkHlMode, Error> {
        if text == "replace".spec_bytes() {
            Ok(ExtmarkHlMode::Replace)
        } else if text == "combine".spec_bytes() {
            Ok(ExtmarkHlMode::Combine)
        } else if text == "blend".spec_bytes() {
            Ok(ExtmarkHlMode::Blend)
        } else {
            Err(Error::UnknownVariant { of: "ExtmarkHlMode" })
        }
    }

    /// Reads the variant that `text` stands for.
    pub fn from_text(text: &NvimString) -> (r: Result<ExtmarkHlMode, Error>)
        ensures
            r == ExtmarkHlMode::named(text@),
    {
        if text.is("replace") {
            Ok(ExtmarkHlMode::Replace)
        } else if text.is("combine") {
            Ok(ExtmarkHlMode::Combine)
        } else if text.is("blend") {
            Ok(ExtmarkHlMode::Blend)
        } else {
            Err(Error::UnknownVariant { of: "ExtmarkHlMode" })
        }
    }
}

impl FromObject for ExtmarkHlMode {
    open spec fn decoded(value: Value) -> Result<ExtmarkHlMode, Error> {
        match value {
            Value::String(text) => ExtmarkHlMode::named(text),
            _ => wrong_type(ObjectKind::String, value),
        }
    }

    fn from_object(obj: Object) -> (r: Result<ExtmarkHlMode, Error>) {
        let text = text_from(obj)?;
        ExtmarkHlMode::from_text(&text)
    }
}

impl ToObject for ExtmarkHlMode {
    open spec fn encoded(model: ExtmarkHlMode) -> Result<Value, Error> {
        Ok(Value::String(model.tag().spec_bytes()))
    }

    fn to_object(self) -> (r: Result<Object, Error>) {
        Ok(Object::String(NvimString::from_str(self.as_str())))
    }
}

impl ExtmarkHlMode {
    /// Every variant is read back from the text that it is written as.
    pub proof fn lemma_round_trip(v: ExtmarkHlMode)
        ensures
            ExtmarkHlMode::named(v.tag().spec_bytes())
                == Ok::<ExtmarkHlMode, Error>(v),
            ExtmarkHlMode::decoded(ExtmarkHlMode::encoded(v)->Ok_0)
                == Ok::<ExtmarkHlMode, Error>(v),
            v.tag()@.len() > 0,
    {
        reveal_strlit("replace");
        reveal_strlit("combine");
        reveal_strlit("blend");
        assert("replace"@[0] != "combine"@[0]);
        lemma_names_are_their_bytes();
    }
}

} // verus!
