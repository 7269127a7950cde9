use crate::bridge::lemma_names_are_their_bytes;
use crate::conversion::{text_from, wrong_type, Error, FromObject, ToObject};
use crate::object::{NvimString, Object, ObjectKind, Value};
use vstd::prelude::*;
use vstd::string::StringSliceAdditionalSpecFns;

verus! {

/// The number of arguments that a command takes.
#[derive(Clone, Copy, Debug, PartialEq, Eq, Hash, Structural)]
pub enum CommandNArgs {
    Zero,
    One,
    ZeroOrOne,
    OneOrMore,
    Any,
}

impl DeepView for CommandNArgs {
    type V = CommandNArgs;

    open spec fn deep_view(&self) -> CommandNArgs {
        *self
    }
}

impl CommandNArgs {
    /// The text that stands for this variant.
    pub open spec fn tag(self) -> &'static str {
        match self {
            CommandNArgs::Zero => "0",
            CommandNArgs::One => "1",
            CommandNArgs::ZeroOrOne => "?",
            CommandNArgs::OneOrMore => "+",
            CommandNArgs::Any => "*",
        }
    }

    /// The text that stands for this variant.
    pub fn as_str(&self) -> (text: &'static str)
        ensures
            text == self.tag(),
    {
        match self {
            CommandNArgs::Zero => "0",
            CommandNArgs::One => "1",
            CommandNArgs::ZeroOrOne => "?",
            CommandNArgs::OneOrMore => "+",
            CommandNArgs::Any => "*",
        }
    }

    /// The variant that `text` stands for.
    pub open spec fn named(text: Seq<u8>) -> Result<CommandNArgs, Error> {
        if text == "0".spec_bytes() {
            Ok(CommandNArgs::Zero)
        } else if text == "1".spec_bytes() {
            Ok(CommandNArgs::One)
        } else if text == "?".spec_bytes() {
            Ok(CommandNArgs::ZeroOrOne)
        } else if text == "+".spec_bytes() {
            Ok(CommandNArgs::OneOrMore)
        } else if text == "*".spec_bytes() {
            Ok(CommandNArgs::Any)
        } else {
            Err(Error::UnknownVariant { of: "CommandNArgs" })
        }
    }

    /// Reads the variant that `text` stands for.
    pub fn from_text(text: &NvimString) -> (r: Result<CommandNArgs, Error>)
        ensures
            r == CommandNArgs::named(text@),
    {
        if text.is("0") {
            Ok(CommandNArgs::Zero)
        } else if text.is("1") {
            Ok(CommandNArgs::One)
        } else if text.is("?") {
            Ok(CommandNArgs::ZeroOrOne)
        } else if text.is("+") {
            Ok(CommandNArgs::OneOrMore)
        } else if text.is("*") {
            Ok(CommandNArgs::Any)
        } else {
            Err(Error::UnknownVariant { of: "CommandNArgs" })
        }
    }
}

impl Default for CommandNArgs {
    fn default() -> (v: CommandNArgs)
        ensures
            v == CommandNArgs::Zero,
    {
        CommandNArgs::Zero
    }
}

impl FromObject for CommandNArgs {
    open spec fn decoded(value: Value) -> Result<CommandNArgs, Error> {
        match value {
            Value::String(text) => CommandNArgs::named(text),
            _ => wrong_type(ObjectKind::String, value),
        }
    }

    fn from_object(obj: Object) -> (r: Result<CommandNArgs, Error>) {
        let text = text_from(obj)?;
        CommandNArgs::from_text(&text)
    }
}

impl ToObject for CommandNArgs {
    open spec fn encoded(model: CommandNArgs) -> Result<Value, Error> {
        Ok(Value::String(model.tag().spec_bytes()))
    }

    fn to_object(self) -> (r: Result<Object, Error>) {
        Ok(Object::String(NvimString::from_str(self.as_str())))
    }
}

impl CommandNArgs {
    /// Every variant is read back from the text that it is written as.
    pub proof fn lemma_round_trip(v: CommandNArgs)
        ensures
            CommandNArgs::named(v.tag().spec_bytes())
                == Ok::<CommandNArgs, Error>(v),
            CommandNArgs::decoded(CommandNArgs::encoded(v)->Ok_0)
                == Ok::<CommandNArgs, Error>(v),
            v.tag()@.len() > 0,
    {
        reveal_strlit("0");
        reveal_strlit("1");
        reveal_strlit("?");
        reveal_strlit("+");
        reveal_strlit("*");
        assert("0"@[0] != "1"@[0]);
        assert("0"@[0] != "?"@[0]);
        assert("1"@[0] != "?"@[0]);
        assert("0"@[0] != "+"@[0]);
        assert("1"@[0] != "+"@[0]);
        assert("?"@[0] != "+"@[0]);
        assert("0"@[0] != "*"@[0]);
        assert("1"@[0] != "*"@[0]);
        assert("?"@[0] != "*"@[0]);
        assert("+"@[0] != "*"@[0]);
        lemma_names_are_their_bytes();
    }
}

} // verus!
