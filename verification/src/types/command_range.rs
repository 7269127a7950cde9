use crate::conversion::{text_from, wrong_type, Error, FromObject};
use crate::decimal::{parse_u32, parsed_u32};
use crate::object::{NvimString, Object, ObjectKind, Value};
use vstd::prelude::*;
use vstd::string::StringSliceAdditionalSpecFns;
use vstd::utf8::{decode_utf8, valid_utf8};

verus! {

/// The default range of a command. See `:h command-range`.
#[derive(Clone, Copy, Debug, PartialEq, Eq, Hash, Structural)]
pub enum CommandRange {
    /// The current line, written `.`.
    CurrentLine,
    /// The whole file, written `%`.
    WholeFile,
    /// A count, written in digits.
    Count(u32),
}

impl DeepView for CommandRange {
    type V = CommandRange;

    open spec fn deep_view(&self) -> CommandRange {
        *self
    }
}

impl CommandRange {
    /// The range that `text` stands for.
    pub open spec fn named(text: Seq<u8>) -> Result<CommandRange, Error> {
        if text == ".".spec_bytes() {
            Ok(CommandRange::CurrentLine)
        } else if text == "%".spec_bytes() {
            Ok(CommandRange::WholeFile)
        } else if !valid_utf8(text) {
            Err(Error::FromUtf8)
        } else {
            match parsed_u32(decode_utf8(text)) {
                Some(n) => Ok(CommandRange::Count(n)),
                None => Err(Error::InvalidNumber),
            }
        }
    }

    /// Reads the range that `text` stands for.
    pub fn from_text(text: NvimString) -> (r: Result<CommandRange, Error>)
        ensures
            r == CommandRange::named(text@),
    {
        if text.is(".") {
            Ok(CommandRange::CurrentLine)
        } else if text.is("%") {
            Ok(CommandRange::WholeFile)
        } else {
            let digits = text.into_string()?;
            match parse_u32(digits.as_str()) {
                Some(n) => Ok(CommandRange::Count(n)),
                None => Err(Error::InvalidNumber),
            }
        }
    }
}

impl FromObject for CommandRange {
    open spec fn decoded(value: Value) -> Result<CommandRange, Error> {
        match value {
            Value::String(text) => CommandRange::named(text),
            _ => wrong_type(ObjectKind::String, value),
        }
    }

    fn from_object(obj: Object) -> (r: Result<CommandRange, Error>) {
        let text = text_from(obj)?;
        CommandRange::from_text(text)
    }
}

} // verus!
