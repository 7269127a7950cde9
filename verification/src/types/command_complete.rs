use crate::bridge::{in_field, key_of, lemma_names_are_their_bytes, tagged, tagged_from};
use crate::conversion::{modelled, Error, FromObject, ToObject};
use crate::function::{Function, LuaRef};
use crate::object::{Dictionary, NvimString, Object, Value};
use vstd::prelude::*;
use vstd::string::StringSliceAdditionalSpecFns;

verus! {

/// How the arguments of a command are completed. See
/// `:h command-complete`.
#[derive(Clone, Debug, PartialEq, Eq, Hash)]
pub enum CommandComplete {
    Arglist,
    Augroup,
    Buffer,
    Behave,
    Color,
    Command,
    Compiler,
    Cscope,
    Dir,
    Environment,
    Event,
    Expression,
    File,
    FileInPath,
    Filetype,
    Function,
    Help,
    Highlight,
    History,
    Locale,
    Lua,
    Mapclear,
    Mapping,
    Menu,
    Messages,
    Option,
    Packadd,
    Shellcmd,
    Sign,
    Syntax,
    Syntime,
    Tag,
    TagListfiles,
    User,
    Var,
    /// By a function that is given the lead of the argument, the command
    /// line and the position of the cursor, and returns the candidates.
    /// See `:h command-completion-customlist`.
    CustomList(Function<(String, String, usize), Vec<String>>),
}

/// The model of a [`CommandComplete`].
pub enum CommandCompleteView {
    Arglist,
    Augroup,
    Buffer,
    Behave,
    Color,
    Command,
    Compiler,
    Cscope,
    Dir,
    Environment,
    Event,
    Expression,
    File,
    FileInPath,
    Filetype,
    Function,
    Help,
    Highlight,
    History,
    Locale,
    Lua,
    Mapclear,
    Mapping,
    Menu,
    Messages,
    Option,
    Packadd,
    Shellcmd,
    Sign,
    Syntax,
    Syntime,
    Tag,
    TagListfiles,
    User,
    Var,
    CustomList(LuaRef),
}

impl DeepView for CommandComplete {
    type V = CommandCompleteView;

    open spec fn deep_view(&self) -> CommandCompleteView {
        match self {
            CommandComplete::Arglist => CommandCompleteView::Arglist,
            CommandComplete::Augroup => CommandCompleteView::Augroup,
            CommandComplete::Buffer => CommandCompleteView::Buffer,
            CommandComplete::Behave => CommandCompleteView::Behave,
            CommandComplete::Color => CommandCompleteView::Color,
            CommandComplete::Command => CommandCompleteView::Command,
            CommandComplete::Compiler => CommandCompleteView::Compiler,
            CommandComplete::Cscope => CommandCompleteView::Cscope,
            CommandComplete::Dir => CommandCompleteView::Dir,
            CommandComplete::Environment => CommandCompleteView::Environment,
            CommandComplete::Event => CommandCompleteView::Event,
            CommandComplete::Expression => CommandCompleteView::Expression,
            CommandComplete::File => CommandCompleteView::File,
            CommandComplete::FileInPath => CommandCompleteView::FileInPath,
            CommandComplete::Filetype => CommandCompleteView::Filetype,
            CommandComplete::Function => CommandCompleteView::Function,
            CommandComplete::Help => CommandCompleteView::Help,
            CommandComplete::Highlight => CommandCompleteView::Highlight,
            CommandComplete::History => CommandCompleteView::History,
            CommandComplete::Locale => CommandCompleteView::Locale,
            CommandComplete::Lua => CommandCompleteView::Lua,
            CommandComplete::Mapclear => CommandCompleteView::Mapclear,
            CommandComplete::Mapping => CommandCompleteView::Mapping,
            CommandComplete::Menu => CommandCompleteView::Menu,
            CommandComplete::Messages => CommandCompleteView::Messages,
            CommandComplete::Option => CommandCompleteView::Option,
            CommandComplete::Packadd => CommandCompleteView::Packadd,
            CommandComplete::Shellcmd => CommandCompleteView::Shellcmd,
            CommandComplete::Sign => CommandCompleteView::Sign,
            CommandComplete::Syntax => CommandCompleteView::Syntax,
            CommandComplete::Syntime => CommandCompleteView::Syntime,
            CommandComplete::Tag => CommandCompleteView::Tag,
            CommandComplete::TagListfiles => CommandCompleteView::TagListfiles,
            CommandComplete::User => CommandCompleteView::User,
            CommandComplete::Var => CommandCompleteView::Var,
            CommandComplete::CustomList(f) => CommandCompleteView::CustomList(f.lua_ref),
        }
    }
}

impl CommandCompleteView {
    /// The text that stands for this variant.
    pub open spec fn tag(self) -> &'static str {
        match self {
            CommandCompleteView::Arglist => "arglist",
            CommandCompleteView::Augroup => "augroup",
            CommandCompleteView::Buffer => "buffer",
            CommandCompleteView::Behave => "behave",
            CommandCompleteView::Color => "color",
            CommandCompleteView::Command => "command",
            CommandCompleteView::Compiler => "compiler",
            CommandCompleteView::Cscope => "cscope",
            CommandCompleteView::Dir => "dir",
            CommandCompleteView::Environment => "environment",
            CommandCompleteView::Event => "event",
            CommandCompleteView::Expression => "expression",
            CommandCompleteView::File => "file",
            CommandCompleteView::FileInPath => "file_in_path",
            CommandCompleteView::Filetype => "filetype",
            CommandCompleteView::Function => "function",
            CommandCompleteView::Help => "help",
            CommandCompleteView::Highlight => "highlight",
            CommandCompleteView::History => "history",
            CommandCompleteView::Locale => "locale",
            CommandCompleteView::Lua => "lua",
            CommandCompleteView::Mapclear => "mapclear",
            CommandCompleteView::Mapping => "mapping",
            CommandCompleteView::Menu => "menu",
            CommandCompleteView::Messages => "messages",
            CommandCompleteView::Option => "option",
            CommandCompleteView::Packadd => "packadd",
            CommandCompleteView::Shellcmd => "shellcmd",
            CommandCompleteView::Sign => "sign",
            CommandCompleteView::Syntax => "syntax",
            CommandCompleteView::Syntime => "syntime",
            CommandCompleteView::Tag => "tag",
            CommandCompleteView::TagListfiles => "tag_listfiles",
            CommandCompleteView::User => "user",
            CommandCompleteView::Var => "var",
            CommandCompleteView::CustomList(_) => "custom_list",
        }
    }

    /// The variant without a payload that `text` stands for. The names
    /// are tried in the order of the variants.
    pub open spec fn named(text: Seq<u8>) -> Result<CommandCompleteView, Error> {
        if text == "arglist".spec_bytes() {
            Ok(CommandCompleteView::Arglist)
        } else if text == "augroup".spec_bytes() {
            Ok(CommandCompleteView::Augroup)
        } else if text == "buffer".spec_bytes() {
            Ok(CommandCompleteView::Buffer)
        } else if text == "behave".spec_bytes() {
            Ok(CommandCompleteView::Behave)
        } else if text == "color".spec_bytes() {
            Ok(CommandCompleteView::Color)
        } else if text == "command".spec_bytes() {
            Ok(CommandCompleteView::Command)
        } else if text == "compiler".spec_bytes() {
            Ok(CommandCompleteView::Compiler)
        } else if text == "cscope".spec_bytes() {
            Ok(CommandCompleteView::Cscope)
        } else {
            CommandCompleteView::named_from_dir(text)
        }
    }

    /// The variant that `text` stands for, of those from `dir` on.
    pub open spec fn named_from_dir(text: Seq<u8>) -> Result<CommandCompleteView, Error> {
        if text == "dir".spec_bytes() {
            Ok(CommandCompleteView::Dir)
        } else if text == "environment".spec_bytes() {
            Ok(CommandCompleteView::Environment)
        } else if text == "event".spec_bytes() {
            Ok(CommandCompleteView::Event)
        } else if text == "expression".spec_bytes() {
            Ok(CommandCompleteView::Expression)
        } else if text == "file".spec_bytes() {
            Ok(CommandCompleteView::File)
        } else if text == "file_in_path".spec_bytes() {
            Ok(CommandCompleteView::FileInPath)
        } else if text == "filetype".spec_bytes() {
            Ok(CommandCompleteView::Filetype)
        } else if text == "function".spec_bytes() {
            Ok(CommandCompleteView::Function)
        } else {
            CommandCompleteView::named_from_help(text)
        }
    }

    /// The variant that `text` stands for, of those from `help` on.
    pub open spec fn named_from_help(text: Seq<u8>) -> Result<CommandCompleteView, Error> {
        if text == "help".spec_bytes() {
            Ok(CommandCompleteView::Help)
        } else if text == "highlight".spec_bytes() {
            Ok(CommandCompleteView::Highlight)
        } else if text == "history".spec_bytes() {
            Ok(CommandCompleteView::History)
        } else if text == "locale".spec_bytes() {
            Ok(CommandCompleteView::Locale)
        } else if text == "lua".spec_bytes() {
            Ok(CommandCompleteView::Lua)
        } else if text == "mapclear".spec_bytes() {
            Ok(CommandCompleteView::Mapclear)
        } else if text == "mapping".spec_bytes() {
            Ok(CommandCompleteView::Mapping)
        } else if text == "menu".spec_bytes() {
            Ok(CommandCompleteView::Menu)
        } else {
            CommandCompleteView::named_from_messages(text)
        }
    }

    /// The variant that `text` stands for, of those from `messages` on.
    pub open spec fn named_from_messages(text: Seq<u8>) -> Result<CommandCompleteView, Error> {
        if text == "messages".spec_bytes() {
            Ok(CommandCompleteView::Messages)
        } else if text == "option".spec_bytes() {
            Ok(CommandCompleteView::Option)
        } else if text == "packadd".spec_bytes() {
            Ok(CommandCompleteView::Packadd)
        } else if text == "shellcmd".spec_bytes() {
            Ok(CommandCompleteView::Shellcmd)
        } else if text == "sign".spec_bytes() {
            Ok(CommandCompleteView::Sign)
        } else if text == "syntax".spec_bytes() {
            Ok(CommandCompleteView::Syntax)
        } else if text == "syntime".spec_bytes() {
            Ok(CommandCompleteView::Syntime)
        } else if text == "tag".spec_bytes() {
            Ok(CommandCompleteView::Tag)
        } else {
            CommandCompleteView::named_from_tag_listfiles(text)
        }
    }

    /// The variant that `text` stands for, of those from `tag_listfiles` on.
    pub open spec fn named_from_tag_listfiles(text: Seq<u8>) -> Result<CommandCompleteView, Error> {
        if text == "tag_listfiles".spec_bytes() {
            Ok(CommandCompleteView::TagListfiles)
        } else if text == "user".spec_bytes() {
            Ok(CommandCompleteView::User)
        } else if text == "var".spec_bytes() {
            Ok(CommandCompleteView::Var)
        } else {
            Err(Error::UnknownVariant { of: "CommandComplete" })
        }
    }
}

impl CommandComplete {
    /// The text that stands for this variant.
    pub fn as_str(&self) -> (text: &'static str)
        ensures
            text == self.deep_view().tag(),
    {
        match self {
            CommandComplete::Arglist => "arglist",
            CommandComplete::Augroup => "augroup",
            CommandComplete::Buffer => "buffer",
            CommandComplete::Behave => "behave",
            CommandComplete::Color => "color",
            CommandComplete::Command => "command",
            CommandComplete::Compiler => "compiler",
            CommandComplete::Cscope => "cscope",
            CommandComplete::Dir => "dir",
            CommandComplete::Environment => "environment",
            CommandComplete::Event => "event",
            CommandComplete::Expression => "expression",
            CommandComplete::File => "file",
            CommandComplete::FileInPath => "file_in_path",
            CommandComplete::Filetype => "filetype",
            CommandComplete::Function => "function",
            CommandComplete::Help => "help",
            CommandComplete::Highlight => "highlight",
            CommandComplete::History => "history",
            CommandComplete::Locale => "locale",
            CommandComplete::Lua => "lua",
            CommandComplete::Mapclear => "mapclear",
            CommandComplete::Mapping => "mapping",
            CommandComplete::Menu => "menu",
            CommandComplete::Messages => "messages",
            CommandComplete::Option => "option",
            CommandComplete::Packadd => "packadd",
            CommandComplete::Shellcmd => "shellcmd",
            CommandComplete::Sign => "sign",
            CommandComplete::Syntax => "syntax",
            CommandComplete::Syntime => "syntime",
            CommandComplete::Tag => "tag",
            CommandComplete::TagListfiles => "tag_listfiles",
            CommandComplete::User => "user",
            CommandComplete::Var => "var",
            CommandComplete::CustomList(_) => "custom_list",
        }
    }

    /// Reads the variant without a payload that `text` stands for.
    pub fn from_text(text: &NvimString) -> (r: Result<CommandComplete, Error>)
        ensures
            modelled(r) == CommandCompleteView::named(text@),
    {
        if text.is("arglist") {
            Ok(CommandComplete::Arglist)
        } else if text.is("augroup") {
            Ok(CommandComplete::Augroup)
        } else if text.is("buffer") {
            Ok(CommandComplete::Buffer)
        } else if text.is("behave") {
            Ok(CommandComplete::Behave)
        } else if text.is("color") {
            Ok(CommandComplete::Color)
        } else if text.is("command") {
            Ok(CommandComplete::Command)
        } else if text.is("compiler") {
            Ok(CommandComplete::Compiler)
        } else if text.is("cscope") {
            Ok(CommandComplete::Cscope)
        } else {
            CommandComplete::from_text_from_dir(text)
        }
    }

    /// Reads the variant that `text` stands for, of those from
    /// `dir` on.
    fn from_text_from_dir(text: &NvimString) -> (r: Result<CommandComplete, Error>)
        ensures
            modelled(r) == CommandCompleteView::named_from_dir(text@),
    {
        if text.is("dir") {
            Ok(CommandComplete::Dir)
        } else if text.is("environment") {
            Ok(CommandComplete::Environment)
        } else if text.is("event") {
            Ok(CommandComplete::Event)
        } else if text.is("expression") {
            Ok(CommandComplete::Expression)
        } else if text.is("file") {
            Ok(CommandComplete::File)
        } else if text.is("file_in_path") {
            Ok(CommandComplete::FileInPath)
        } else if text.is("filetype") {
            Ok(CommandComplete::Filetype)
        } else if text.is("function") {
            Ok(CommandComplete::Function)
        } else {
            CommandComplete::from_text_from_help(text)
        }
    }

    /// Reads the variant that `text` stands for, of those from
    /// `help` on.
    fn from_text_from_help(text: &NvimString) -> (r: Result<CommandComplete, Error>)
        ensures
            modelled(r) == CommandCompleteView::named_from_help(text@),
    {
        if text.is("help") {
            Ok(CommandComplete::Help)
        } else if text.is("highlight") {
            Ok(CommandComplete::Highlight)
        } else if text.is("history") {
            Ok(CommandComplete::History)
        } else if text.is("locale") {
            Ok(CommandComplete::Locale)
        } else if text.is("lua") {
            Ok(CommandComplete::Lua)
        } else if text.is("mapclear") {
            Ok(CommandComplete::Mapclear)
        } else if text.is("mapping") {
            Ok(CommandComplete::Mapping)
        } else if text.is("menu") {
            Ok(CommandComplete::Menu)
        } else {
            CommandComplete::from_text_from_messages(text)
        }
    }

    /// Reads the variant that `text` stands for, of those from
    /// `messages` on.
    fn from_text_from_messages(text: &NvimString) -> (r: Result<CommandComplete, Error>)
        ensures
            modelled(r) == CommandCompleteView::named_from_messages(text@),
    {
        if text.is("messages") {
            Ok(CommandComplete::Messages)
        } else if text.is("option") {
            Ok(CommandComplete::Option)
        } else if text.is("packadd") {
            Ok(CommandComplete::Packadd)
        } else if text.is("shellcmd") {
            Ok(CommandComplete::Shellcmd)
        } else if text.is("sign") {
            Ok(CommandComplete::Sign)
        } else if text.is("syntax") {
            Ok(CommandComplete::Syntax)
        } else if text.is("syntime") {
            Ok(CommandComplete::Syntime)
        } else if text.is("tag") {
            Ok(CommandComplete::Tag)
        } else {
            CommandComplete::from_text_from_tag_listfiles(text)
        }
    }

    /// Reads the variant that `text` stands for, of those from
    /// `tag_listfiles` on.
    fn from_text_from_tag_listfiles(text: &NvimString) -> (r: Result<CommandComplete, Error>)
        ensures
            modelled(r) == CommandCompleteView::named_from_tag_listfiles(text@),
    {
        if text.is("tag_listfiles") {
            Ok(CommandComplete::TagListfiles)
        } else if text.is("user") {
            Ok(CommandComplete::User)
        } else if text.is("var") {
            Ok(CommandComplete::Var)
        } else {
            Err(Error::UnknownVariant { of: "CommandComplete" })
        }
    }
}

impl FromObject for CommandComplete {
    open spec fn decoded(value: Value) -> Result<CommandCompleteView, Error> {
        match tagged(value) {
            Err(e) => Err(e),
            Ok((name, None)) => CommandCompleteView::named(name),
            Ok((name, Some(payload))) => if name == "custom_list".spec_bytes() {
                match in_field(
                    "custom_list",
                    Function::<(String, String, usize), Vec<String>>::decoded(payload),
                ) {
                    Ok(lua_ref) => Ok(CommandCompleteView::CustomList(lua_ref)),
                    Err(e) => Err(e),
                }
            } else {
                Err(Error::UnknownVariant { of: "CommandComplete" })
            },
        }
    }

    fn from_object(obj: Object) -> (r: Result<CommandComplete, Error>) {
        match tagged_from(obj)? {
            (name, None) => CommandComplete::from_text(&name),
            (name, Some(payload)) => {
                if name.is("custom_list") {
                    match Function::from_object(payload) {
                        Ok(f) => Ok(CommandComplete::CustomList(f)),
                        Err(e) => Err(
                            Error::InvalidField { field: "custom_list", cause: Box::new(e) },
                        ),
                    }
                } else {
                    Err(Error::UnknownVariant { of: "CommandComplete" })
                }
            },
        }
    }
}

impl ToObject for CommandComplete {
    open spec fn encoded(model: CommandCompleteView) -> Result<Value, Error> {
        match model {
            CommandCompleteView::CustomList(lua_ref) => Ok(
                Value::Dictionary(seq![(key_of("custom_list"), Value::LuaRef(lua_ref))]),
            ),
            _ => Ok(Value::String(model.tag().spec_bytes())),
        }
    }

    fn to_object(self) -> (r: Result<Object, Error>) {
        match self {
            CommandComplete::CustomList(f) => {
                let mut dict = Dictionary::new();
                dict.insert("custom_list", Object::LuaRef(f.lua_ref));
                assert(dict@ =~= seq![(key_of("custom_list"), Value::LuaRef(f.lua_ref))]);
                Ok(Object::Dictionary(dict))
            },
            other => Ok(Object::String(NvimString::from_str(other.as_str()))),
        }
    }
}

impl CommandComplete {
    /// Every variant is read back from what it is written as.
    pub proof fn lemma_round_trip(model: CommandCompleteView)
        ensures
            CommandComplete::decoded(CommandComplete::encoded(model)->Ok_0)
                == Ok::<CommandCompleteView, Error>(model),
    {
        CommandComplete::lemma_letters();
        lemma_names_are_their_bytes();
        if let CommandCompleteView::CustomList(lua_ref) = model {
            let pairs = seq![(key_of("custom_list"), Value::LuaRef(lua_ref))];
            assert(pairs[0] == (key_of("custom_list"), Value::LuaRef(lua_ref)));
        }
    }

    /// How long each name is, and the letters by which names of one
    /// length are told apart.
    proof fn lemma_letters()
        ensures
            "arglist"@.len() == 7,
            "arglist"@[0] == 'a',
            "arglist"@[1] == 'r',
            "augroup"@.len() == 7,
            "augroup"@[0] == 'a',
            "augroup"@[1] == 'u',
            "buffer"@.len() == 6,
            "buffer"@[0] == 'b',
            "buffer"@[1] == 'u',
            "behave"@.len() == 6,
            "behave"@[0] == 'b',
            "behave"@[1] == 'e',
            "color"@.len() == 5,
            "color"@[0] == 'c',
            "command"@.len() == 7,
            "command"@[0] == 'c',
            "compiler"@.len() == 8,
            "compiler"@[0] == 'c',
            "cscope"@.len() == 6,
            "cscope"@[0] == 'c',
            "dir"@.len() == 3,
            "dir"@[0] == 'd',
            "environment"@.len() == 11,
            "event"@.len() == 5,
            "event"@[0] == 'e',
            "expression"@.len() == 10,
            "file"@.len() == 4,
            "file"@[0] == 'f',
            "file_in_path"@.len() == 12,
            "filetype"@.len() == 8,
            "filetype"@[0] == 'f',
            "filetype"@[1] == 'i',
            "function"@.len() == 8,
            "function"@[0] == 'f',
            "function"@[1] == 'u',
            "help"@.len() == 4,
            "help"@[0] == 'h',
            "highlight"@.len() == 9,
            "history"@.len() == 7,
            "history"@[0] == 'h',
            "locale"@.len() == 6,
            "locale"@[0] == 'l',
            "lua"@.len() == 3,
            "lua"@[0] == 'l',
            "mapclear"@.len() == 8,
            "mapclear"@[0] == 'm',
            "mapclear"@[1] == 'a',
            "mapping"@.len() == 7,
            "mapping"@[0] == 'm',
            "menu"@.len() == 4,
            "menu"@[0] == 'm',
            "messages"@.len() == 8,
            "messages"@[0] == 'm',
            "messages"@[1] == 'e',
            "option"@.len() == 6,
            "option"@[0] == 'o',
            "packadd"@.len() == 7,
            "packadd"@[0] == 'p',
            "shellcmd"@.len() == 8,
            "shellcmd"@[0] == 's',
            "sign"@.len() == 4,
            "sign"@[0] == 's',
            "syntax"@.len() == 6,
            "syntax"@[0] == 's',
            "syntime"@.len() == 7,
            "syntime"@[0] == 's',
            "tag"@.len() == 3,
            "tag"@[0] == 't',
            "tag_listfiles"@.len() == 13,
            "user"@.len() == 4,
            "user"@[0] == 'u',
            "var"@.len() == 3,
            "var"@[0] == 'v',
    {
        reveal_strlit("arglist");
        reveal_strlit("augroup");
        reveal_strlit("buffer");
        reveal_strlit("behave");
        reveal_strlit("color");
        reveal_strlit("command");
        reveal_strlit("compiler");
        reveal_strlit("cscope");
        reveal_strlit("dir");
        reveal_strlit("environment");
        reveal_strlit("event");
        reveal_strlit("expression");
        reveal_strlit("file");
        reveal_strlit("file_in_path");
        reveal_strlit("filetype");
        reveal_strlit("function");
        reveal_strlit("help");
        reveal_strlit("highlight");
        reveal_strlit("history");
        reveal_strlit("locale");
        reveal_strlit("lua");
        reveal_strlit("mapclear");
        reveal_strlit("mapping");
        reveal_strlit("menu");
        reveal_strlit("messages");
        reveal_strlit("option");
        reveal_strlit("packadd");
        reveal_strlit("shellcmd");
        reveal_strlit("sign");
        reveal_strlit("syntax");
        reveal_strlit("syntime");
        reveal_strlit("tag");
        reveal_strlit("tag_listfiles");
        reveal_strlit("user");
        reveal_strlit("var");
    }
}

} // verus!
