use crate::bridge::lemma_names_are_their_bytes;
use crate::conversion::{text_from, wrong_type, Error, FromObject, ToObject};
use crate::object::{NvimString, Object, ObjectKind, Value};
use vstd::prelude::*;
use vstd::string::StringSliceAdditionalSpecFns;

verus! {

/// The mode that Neovim is in.
#[derive(Clone, Copy, Debug, PartialEq, Eq, Hash, Structural)]
pub enum Mode {
    CmdLine,
    Insert,
    InsertCmdLine,
    Langmap,
    NormalVisualOperator,
    Normal,
    OperatorPending,
    Select,
    Terminal,
    Visual,
    VisualSelect,
}

impl DeepView for Mode {
    type V = Mode;

    open spec fn deep_view(&self) -> Mode {
        *self
    }
}

impl Mode {
    /// The text that stands for this variant.
    pub open spec fn tag(self) -> &'static str {
        match self {
            Mode::CmdLine => "c",
            Mode::Insert => "i",
            Mode::InsertCmdLine => "!",
            Mode::Langmap => "l",
            Mode::NormalVisualOperator => " ",
            Mode::Normal => "n",
            Mode::OperatorPending => "o",
            Mode::Select => "s",
            Mode::Terminal => "t",
            Mode::Visual => "v",
            Mode::VisualSelect => "x",
        }
    }

    /// The text that stands for this variant.
    pub fn as_str(&self) -> (text: &'static str)
        ensures
            text == self.tag(),
    {
        match self {
            Mode::CmdLine => "c",
            Mode::Insert => "i",
            Mode::InsertCmdLine => "!",
            Mode::Langmap => "l",
            Mode::NormalVisualOperator => " ",
            Mode::Normal => "n",
            Mode::OperatorPending => "o",
            Mode::Select => "s",
            Mode::Terminal => "t",
            Mode::Visual => "v",
            Mode::VisualSelect => "x",
        }
    }

    /// The variant that `text` stands for.
    pub open spec fn named(text: Seq<u8>) -> Result<Mode, Error> {
        if text == "c".spec_bytes() {
            Ok(Mode::CmdLine)
        } else if text == "i".spec_bytes() {
            Ok(Mode::Insert)
        } else if text == "!".spec_bytes() {
            Ok(Mode::InsertCmdLine)
        } else if text == "l".spec_bytes() {
            Ok(Mode::Langmap)
        } else if text == " ".spec_bytes() {
            Ok(Mode::NormalVisualOperator)
        } else if text == "n".spec_bytes() {
            Ok(Mode::Normal)
        } else if text == "o".spec_bytes() {
            Ok(Mode::OperatorPending)
        } else if text == "s".spec_bytes() {
            Ok(Mode::Select)
        } else if text == "t".spec_bytes() {
            Ok(Mode::Terminal)
        } else if text == "v".spec_bytes() {
            Ok(Mode::Visual)
        } else if text == "x".spec_bytes() {
            Ok(Mode::VisualSelect)
        } else {
            Err(Error::UnknownVariant { of: "Mode" })
        }
    }

    /// Reads the variant that `text` stands for.
    pub fn from_text(text: &NvimString) -> (r: Result<Mode, Error>)
        ensures
            r == Mode::named(text@),
    {
        if text.is("c") {
            Ok(Mode::CmdLine)
        } else if text.is("i") {
            Ok(Mode::Insert)
        } else if text.is("!") {
            Ok(Mode::InsertCmdLine)
        } else if text.is("l") {
            Ok(Mode::Langmap)
        } else if text.is(" ") {
            Ok(Mode::NormalVisualOperator)
        } else if text.is("n") {
            Ok(Mode::Normal)
        } else if text.is("o") {
            Ok(Mode::OperatorPending)
        } else if text.is("s") {
            Ok(Mode::Select)
        } else if text.is("t") {
            Ok(Mode::Terminal)
        } else if text.is("v") {
            Ok(Mode::Visual)
        } else if text.is("x") {
            Ok(Mode::VisualSelect)
        } else {
            Err(Error::UnknownVariant { of: "Mode" })
        }
    }
}

impl FromObject for Mode {
    open spec fn decoded(value: Value) -> Result<Mode, Error> {
        match value {
            Value::String(text) => Mode::named(text),
            _ => wrong_type(ObjectKind::String, value),
        }
    }

    fn from_object(obj: Object) -> (r: Result<Mode, Error>) {
        let text = text_from(obj)?;
        Mode::from_text(&text)
    }
}

impl ToObject for Mode {
    open spec fn encoded(model: Mode) -> Result<Value, Error> {
        Ok(Value::String(model.tag().spec_bytes()))
    }

    fn to_object(self) -> (r: Result<Object, Error>) {
        Ok(Object::String(NvimString::from_str(self.as_str())))
    }
}

impl Mode {
    /// Every variant is read back from the text that it is written as.
    pub proof fn lemma_round_trip(v: Mode)
        ensures
            Mode::named(v.tag().spec_bytes())
                == Ok::<Mode, Error>(v),
            Mode::decoded(Mode::encoded(v)->Ok_0)
                == Ok::<Mode, Error>(v),
            v.tag()@.len() > 0,
    {
        reveal_strlit("c");
        reveal_strlit("i");
        reveal_strlit("!");
        reveal_strlit("l");
        reveal_strlit(" ");
        reveal_strlit("n");
        reveal_strlit("o");
        reveal_strlit("s");
        reveal_strlit("t");
        reveal_strlit("v");
        reveal_strlit("x");
        assert("c"@[0] != "i"@[0]);
        assert("c"@[0] != "!"@[0]);
        assert("i"@[0] != "!"@[0]);
        assert("c"@[0] != "l"@[0]);
        assert("i"@[0] != "l"@[0]);
        assert("!"@[0] != "l"@[0]);
        assert("c"@[0] != " "@[0]);
        assert("i"@[0] != " "@[0]);
        assert("!"@[0] != " "@[0]);
        assert("l"@[0] != " "@[0]);
        assert("c"@[0] != "n"@[0]);
        assert("i"@[0] != "n"@[0]);
        assert("!"@[0] != "n"@[0]);
        assert("l"@[0] != "n"@[0]);
        assert(" "@[0] != "n"@[0]);
        assert("c"@[0] != "o"@[0]);
        assert("i"@[0] != "o"@[0]);
        assert("!"@[0] != "o"@[0]);
        assert("l"@[0] != "o"@[0]);
        assert(" "@[0] != "o"@[0]);
        assert("n"@[0] != "o"@[0]);
        assert("c"@[0] != "s"@[0]);
        assert("i"@[0] != "s"@[0]);
        assert("!"@[0] != "s"@[0]);
        assert("l"@[0] != "s"@[0]);
        assert(" "@[0] != "s"@[0]);
        assert("n"@[0] != "s"@[0]);
        assert("o"@[0] != "s"@[0]);
        assert("c"@[0] != "t"@[0]);
        assert("i"@[0] != "t"@[0]);
        assert("!"@[0] != "t"@[0]);
        assert("l"@[0] != "t"@[0]);
        assert(" "@[0] != "t"@[0]);
        assert("n"@[0] != "t"@[0]);
        assert("o"@[0] != "t"@[0]);
        assert("s"@[0] != "t"@[0]);
        assert("c"@[0] != "v"@[0]);
        assert("i"@[0] != "v"@[0]);
        assert("!"@[0] != "v"@[0]);
        assert("l"@[0] != "v"@[0]);
        assert(" "@[0] != "v"@[0]);
        assert("n"@[0] != "v"@[0]);
        assert("o"@[0] != "v"@[0]);
        assert("s"@[0] != "v"@[0]);
        assert("t"@[0] != "v"@[0]);
        assert("c"@[0] != "x"@[0]);
        assert("i"@[0] != "x"@[0]);
        assert("!"@[0] != "x"@[0]);
        assert("l"@[0] != "x"@[0]);
        assert(" "@[0] != "x"@[0]);
        assert("n"@[0] != "x"@[0]);
        assert("o"@[0] != "x"@[0]);
        assert("s"@[0] != "x"@[0]);
        assert("t"@[0] != "x"@[0]);
        assert("v"@[0] != "x"@[0]);
        lemma_names_are_their_bytes();
    }
}

} // verus!
