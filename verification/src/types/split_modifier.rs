use crate::bridge::lemma_names_are_their_bytes;
use crate::conversion::{text_from, wrong_type, Error, FromObject, ToObject};
use crate::object::{NvimString, Object, ObjectKind, Value};
use vstd::prelude::*;
use vstd::string::StringSliceAdditionalSpecFns;

verus! {

/// Where a command opens its split.
#[derive(Clone, Copy, Debug, PartialEq, Eq, Hash, Structural)]
pub enum SplitModifier {
    AboveLeft,
    BelowRight,
    TopLeft,
    BotRight,
}

impl DeepView for SplitModifier {
    type V = SplitModifier;

    open spec fn deep_view(&self) -> SplitModifier {
        *self
    }
}

impl SplitModifier {
    /// The text that stands for this variant.
    pub open spec fn tag(self) -> &'static str {
        match self {
            SplitModifier::AboveLeft => "aboveleft",
            SplitModifier::BelowRight => "belowright",
            SplitModifier::TopLeft => "topleft",
            SplitModifier::BotRight => "botright",
        }
    }

    /// The text that stands for this variant.
    pub fn as_str(&self) -> (text: &'static str)
        ensures
            text == self.tag(),
    {
        match self {
            SplitModifier::AboveLeft => "aboveleft",
            SplitModifier::BelowRight => "belowright",
            SplitModifier::TopLeft => "topleft",
            SplitModifier::BotRight => "botright",
        }
    }

    /// The variant that `text` stands for.
    pub open spec fn named(text: Seq<u8>) -> Result<SplitModifier, Error> {
        if text == "aboveleft".spec_bytes() {
            Ok(SplitModifier::AboveLeft)
        } else if text == "belowright".spec_bytes() {
            Ok(SplitModifier::BelowRight)
        } else if text == "topleft".spec_bytes() {
            Ok(SplitModifier::TopLeft)
        } else if text == "botright".spec_bytes() {
            Ok(SplitModifier::BotRight)
        } else {
            Err(Error::UnknownVariant { of: "SplitModifier" })
        }
    }

    /// Reads the variant that `text` stands for.
    pub fn from_text(text: &NvimString) -> (r: Result<SplitModifier, Error>)
        ensures
            r == SplitModifier::named(text@),
    {
        if text.is("aboveleft") {
            Ok(SplitModifier::AboveLeft)
        } else if text.is("belowright") {
            Ok(SplitModifier::BelowRight)
        } else if text.is("topleft") {
            Ok(SplitModifier::TopLeft)
        } else if text.is("botright") {
            Ok(SplitModifier::BotRight)
        } else {
            Err(Error::UnknownVariant { of: "SplitModifier" })
        }
    }
}

impl FromObject for SplitModifier {
    open spec fn decoded(value: Value) -> Result<SplitModifier, Error> {
        match value {
            Value::String(text) => SplitModifier::named(text),
            _ => wrong_type(ObjectKind::String, value),
        }
    }

    fn from_object(obj: Object) -> (r: Result<SplitModifier, Error>) {
        let text = text_from(obj)?;
        SplitModifier::from_text(&text)
    }
}

impl ToObject for SplitModifier {
    open spec fn encoded(model: SplitModifier) -> Result<Value, Error> {
        Ok(Value::String(model.tag().spec_bytes()))
    }

    fn to_object(self) -> (r: Result<Object, Error>) {
        Ok(Object::String(NvimString::from_str(self.as_str())))
    }
}

impl SplitModifier {
    /// Every variant is read back from the text that it is written as.
    pub proof fn lemma_round_trip(v: SplitModifier)
        ensures
            SplitModifier::named(v.tag().spec_bytes())
                == Ok::<SplitModifier, Error>(v),
            SplitModifier::decoded(SplitModifier::encoded(v)->Ok_0)
                == Ok::<SplitModifier, Error>(v),
            v.tag()@.len() > 0,
    {
        reveal_strlit("aboveleft");
        reveal_strlit("belowright");
        reveal_strlit("topleft");
        reveal_strlit("botright");
        lemma_names_are_their_bytes();
    }
}

} // verus!
