use crate::bridge::lemma_names_are_their_bytes;
use crate::conversion::{text_from, wrong_type, Error, FromObject, ToObject};
use crate::object::{NvimString, Object, ObjectKind, Value};
use vstd::prelude::*;
use vstd::string::StringSliceAdditionalSpecFns;

verus! {

/// What the range of a command counts. See `:h command-addr`.
#[derive(Clone, Copy, Debug, PartialEq, Eq, Hash, Structural)]
pub enum CommandAddr {
    Lines,
    Arguments,
    Buffers,
    LoadedBuffers,
    Windows,
    Tabs,
    Quickfix,
    Other,
}

impl DeepView for CommandAddr {
    type V = CommandAddr;

    open spec fn deep_view(&self) -> CommandAddr {
        *self
    }
}

impl CommandAddr {
    /// The text that stands for this variant.
    pub open spec fn tag(self) -> &'static str {
        match self {
            CommandAddr::Lines => "lines",
            CommandAddr::Arguments => "arguments",
            CommandAddr::Buffers => "buffers",
            CommandAddr::LoadedBuffers => "loaded_buffers",
            CommandAddr::Windows => "windows",
            CommandAddr::Tabs => "tabs",
            CommandAddr::Quickfix => "quickfix",
            CommandAddr::Other => "other",
        }
    }

    /// The text that stands for this variant.
    pub fn as_str(&self) -> (text: &'static str)
        ensures
            text == self.tag(),
    {
        match self {
            CommandAddr::Lines => "lines",
            CommandAddr::Arguments => "arguments",
            CommandAddr::Buffers => "buffers",
            CommandAddr::LoadedBuffers => "loaded_buffers",
            CommandAddr::Windows => "windows",
            CommandAddr::Tabs => "tabs",
            CommandAddr::Quickfix => "quickfix",
            CommandAddr::Other => "other",
        }
    }

    /// The variant that `text` stands for.
    pub open spec fn named(text: Seq<u8>) -> Result<CommandAddr, Error> {
        if text == "lines".spec_bytes() {
            Ok(CommandAddr::Lines)
        } else if text == "arguments".spec_bytes() {
            Ok(CommandAddr::Arguments)
        } else if text == "buffers".spec_bytes() {
            Ok(CommandAddr::Buffers)
        } else if text == "loaded_buffers".spec_bytes() {
            Ok(CommandAddr::LoadedBuffers)
        } else if text == "windows".spec_bytes() {
            Ok(CommandAddr::Windows)
        } else if text == "tabs".spec_bytes() {
            Ok(CommandAddr::Tabs)
        } else if text == "quickfix".spec_bytes() {
            Ok(CommandAddr::Quickfix)
        } else if text == "other".spec_bytes() {
            Ok(CommandAddr::Other)
        } else {
            Err(Error::UnknownVariant { of: "CommandAddr" })
        }
    }

    /// Reads the variant that `text` stands for.
    pub fn from_text(text: &NvimString) -> (r: Result<CommandAddr, Error>)
        ensures
            r == CommandAddr::named(text@),
    {
        if text.is("lines") {
            Ok(CommandAddr::Lines)
        } else if text.is("arguments") {
            Ok(CommandAddr::Arguments)
        } else if text.is("buffers") {
            Ok(CommandAddr::Buffers)
        } else if text.is("loaded_buffers") {
            Ok(CommandAddr::LoadedBuffers)
        } else if text.is("windows") {
            Ok(CommandAddr::Windows)
        } else if text.is("tabs") {
            Ok(CommandAddr::Tabs)
        } else if text.is("quickfix") {
            Ok(CommandAddr::Quickfix)
        } else if text.is("other") {
            Ok(CommandAddr::Other)
        } else {
            Err(Error::UnknownVariant { of: "CommandAddr" })
        }
    }
}

impl FromObject for CommandAddr {
    open spec fn decoded(value: Value) -> Result<CommandAddr, Error> {
        match value {
            Value::String(text) => CommandAddr::named(text),
            _ => wrong_type(ObjectKind::String, value),
        }
    }

    fn from_object(obj: Object) -> (r: Result<CommandAddr, Error>) {
        let text = text_from(obj)?;
        CommandAddr::from_text(&text)
    }
}

impl ToObject for CommandAddr {
    open spec fn encoded(model: CommandAddr) -> Result<Value, Error> {
        Ok(Value::String(model.tag().spec_bytes()))
    }

    fn to_object(self) -> (r: Result<Object, Error>) {
        Ok(Object::String(NvimString::from_str(self.as_str())))
    }
}

impl CommandAddr {
    /// Every variant is read back from the text that it is written as.
    pub proof fn lemma_round_trip(v: CommandAddr)
        ensures
            CommandAddr::named(v.tag().spec_bytes())
                == Ok::<CommandAddr, Error>(v),
            CommandAddr::decoded(CommandAddr::encoded(v)->Ok_0)
                == Ok::<CommandAddr, Error>(v),
            v.tag()@.len() > 0,
    {
        reveal_strlit("lines");
        reveal_strlit("arguments");
        reveal_strlit("buffers");
        reveal_strlit("loaded_buffers");
        reveal_strlit("windows");
        reveal_strlit("tabs");
        reveal_strlit("quickfix");
        reveal_strlit("other");
        assert("buffers"@[0] != "windows"@[0]);
        assert("lines"@[0] != "other"@[0]);
        lemma_names_are_their_bytes();
    }
}

} // verus!
