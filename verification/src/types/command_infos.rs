use crate::bridge::{
    fields_of, in_field, key_of, lemma_field_ignores_other_key, optional, or_default, required,
};
use crate::conversion::{Error, FromObject, modelled};
use crate::decimal::{parse_u32, parsed_u32};
use crate::function::{Function, LuaRef};
use crate::object::{Dictionary, Object, Value};
use crate::types::command_addr::CommandAddr;
use crate::types::command_args::CommandArgs;
use crate::types::command_nargs::CommandNArgs;
use crate::types::command_range::CommandRange;
use vstd::prelude::*;

verus! {

/// What is known of a user command.
#[derive(Clone, Debug, PartialEq, Eq, Hash)]
pub struct CommandInfos {
    /// What the range of the command counts.
    pub addr: Option<CommandAddr>,
    /// Whether the command can take a `!` modifier.
    pub bang: bool,
    /// Whether the command can be followed by a `|` and another command.
    pub bar: bool,
    /// The callback that the command calls.
    pub callback: Option<Function<CommandArgs, ()>>,
    /// How the arguments of the command are completed.
    pub complete: Option<String>,
    /// The argument of the completion.
    pub complete_arg: Option<String>,
    /// The default count of the command.
    pub count: Option<u32>,
    /// What the command runs.
    pub definition: Option<String>,
    /// Whether verbose messages name the place of the call rather than
    /// that of the definition.
    pub keepscript: bool,
    /// The name of the command.
    pub name: String,
    /// The number of arguments that the command takes.
    pub nargs: CommandNArgs,
    /// The default range of the command.
    pub range: Option<CommandRange>,
    /// Whether the first argument may be the name of a register.
    pub register: bool,
    /// The id of the script that defined the command.
    pub script_id: i32,
}

/// The model of a [`CommandInfos`].
pub struct CommandInfosView {
    pub addr: Option<CommandAddr>,
    pub bang: bool,
    pub bar: bool,
    pub callback: Option<LuaRef>,
    pub complete: Option<Seq<char>>,
    pub complete_arg: Option<Seq<char>>,
    pub count: Option<u32>,
    pub definition: Option<Seq<char>>,
    pub keepscript: bool,
    pub name: Seq<char>,
    pub nargs: CommandNArgs,
    pub range: Option<CommandRange>,
    pub register: bool,
    pub script_id: i32,
}

impl DeepView for CommandInfos {
    type V = CommandInfosView;

    open spec fn deep_view(&self) -> CommandInfosView {
        CommandInfosView {
            addr: self.addr.deep_view(),
            bang: self.bang.deep_view(),
            bar: self.bar.deep_view(),
            callback: self.callback.deep_view(),
            complete: self.complete.deep_view(),
            complete_arg: self.complete_arg.deep_view(),
            count: self.count.deep_view(),
            definition: self.definition.deep_view(),
            keepscript: self.keepscript.deep_view(),
            name: self.name.deep_view(),
            nargs: self.nargs.deep_view(),
            range: self.range.deep_view(),
            register: self.register.deep_view(),
            script_id: self.script_id.deep_view(),
        }
    }
}

/// The count that the text of a `count` field stands for.
pub open spec fn count_of(text: Option<Seq<char>>) -> Result<Option<u32>, Error> {
    match text {
        Some(digits) => match parsed_u32(digits) {
            Some(n) => Ok(Some(n)),
            None => Err(Error::InvalidNumber),
        },
        None => Ok(None),
    }
}

/// Reads the count that the text of a `count` field stands for.
pub fn parse_count(text: Option<String>) -> (r: Result<Option<u32>, Error>)
    ensures
        r == count_of(text.deep_view()),
{
    match text {
        Some(digits) => match parse_u32(digits.as_str()) {
            Some(n) => Ok(Some(n)),
            None => Err(Error::InvalidNumber),
        },
        None => Ok(None),
    }
}

impl CommandInfos {
    /// What reading the fields from `keepscript` on yields, given those before
    /// it.
    pub open spec fn decoded_from_keepscript(
        pairs: Seq<(Value, Value)>,
        addr: Option<CommandAddr>,
        bang: bool,
        bar: bool,
        callback: Option<LuaRef>,
        complete: Option<Seq<char>>,
        complete_arg: Option<Seq<char>>,
        count: Option<u32>,
        definition: Option<Seq<char>>,
    ) -> Result<CommandInfosView, Error> {
        let keepscript = required::<bool>(pairs, "keepscript");
        let name = required::<String>(pairs, "name");
        let nargs = or_default::<CommandNArgs>(pairs, "nargs", CommandNArgs::Zero);
        let range = optional::<CommandRange>(pairs, "range");
        let register = required::<bool>(pairs, "register");
        let script_id = required::<i32>(pairs, "script_id");
        if keepscript is Err {
            Err(keepscript->Err_0)
        } else if name is Err {
            Err(name->Err_0)
        } else if nargs is Err {
            Err(nargs->Err_0)
        } else if range is Err {
            Err(range->Err_0)
        } else if register is Err {
            Err(register->Err_0)
        } else if script_id is Err {
            Err(script_id->Err_0)
        } else {
            Ok(
                CommandInfosView {
                    addr,
                    bang,
                    bar,
                    callback,
                    complete,
                    complete_arg,
                    count,
                    definition,
                    keepscript: keepscript->Ok_0,
                    name: name->Ok_0,
                    nargs: nargs->Ok_0,
                    range: range->Ok_0,
                    register: register->Ok_0,
                    script_id: script_id->Ok_0,
                },
            )
        }
    }

    /// Reads the fields from `keepscript` on. The struct is read in stages, so
    /// that each stage is proved by itself.
    fn read_from_keepscript(
        dict: &Dictionary,
        addr: Option<CommandAddr>,
        bang: bool,
        bar: bool,
        callback: Option<Function<CommandArgs, ()>>,
        complete: Option<String>,
        complete_arg: Option<String>,
        count: Option<u32>,
        definition: Option<String>,
    ) -> (r: Result<CommandInfos, Error>)
        ensures
            modelled(r) == CommandInfos::decoded_from_keepscript(
                dict@,
                addr.deep_view(),
                bang.deep_view(),
                bar.deep_view(),
                callback.deep_view(),
                complete.deep_view(),
                complete_arg.deep_view(),
                count.deep_view(),
                definition.deep_view(),
            ),
    {
        let keepscript = dict.required::<bool>("keepscript")?;
        let name = dict.required::<String>("name")?;
        let nargs = dict.or_default::<CommandNArgs>("nargs", CommandNArgs::Zero)?;
        let range = dict.optional::<CommandRange>("range")?;
        let register = dict.required::<bool>("register")?;
        let script_id = dict.required::<i32>("script_id")?;
        Ok(
            CommandInfos {
                addr,
                bang,
                bar,
                callback,
                complete,
                complete_arg,
                count,
                definition,
                keepscript,
                name,
                nargs,
                range,
                register,
                script_id,
            },
        )
    }
}

impl FromObject for CommandInfos {
    open spec fn decoded(value: Value) -> Result<CommandInfosView, Error> {
        match fields_of(value) {
            Err(e) => Err(e),
            Ok(pairs) => {
                let addr = optional::<CommandAddr>(pairs, "addr");
                let bang = required::<bool>(pairs, "bang");
                let bar = required::<bool>(pairs, "bar");
                let callback = optional::<Function<CommandArgs, ()>>(pairs, "callback");
                let complete = optional::<String>(pairs, "complete");
                let complete_arg = optional::<String>(pairs, "complete_arg");
                let count = match required::<Option<String>>(pairs, "count") {
                    Err(e) => Err(e),
                    Ok(text) => in_field("count", count_of(text)),
                };
                let definition = optional::<String>(pairs, "definition");
                if addr is Err {
                    Err(addr->Err_0)
                } else if bang is Err {
                    Err(bang->Err_0)
                } else if bar is Err {
                    Err(bar->Err_0)
                } else if callback is Err {
                    Err(callback->Err_0)
                } else if complete is Err {
                    Err(complete->Err_0)
                } else if complete_arg is Err {
                    Err(complete_arg->Err_0)
                } else if count is Err {
                    Err(count->Err_0)
                } else if definition is Err {
                    Err(definition->Err_0)
                } else {
                    CommandInfos::decoded_from_keepscript(
                        pairs,
                        addr->Ok_0,
                        bang->Ok_0,
                        bar->Ok_0,
                        callback->Ok_0,
                        complete->Ok_0,
                        complete_arg->Ok_0,
                        count->Ok_0,
                        definition->Ok_0,
                    )
                }
            },
        }
    }

    fn from_object(obj: Object) -> (r: Result<CommandInfos, Error>) {
        let dict = &Dictionary::of_fields(obj)?;
        let addr = dict.optional::<CommandAddr>("addr")?;
        let bang = dict.required::<bool>("bang")?;
        let bar = dict.required::<bool>("bar")?;
        let callback = dict.optional::<Function<CommandArgs, ()>>("callback")?;
        let complete = dict.optional::<String>("complete")?;
        let complete_arg = dict.optional::<String>("complete_arg")?;
        let count = match parse_count(dict.required::<Option<String>>("count")?) {
            Ok(count) => count,
            Err(e) => return Err(Error::InvalidField { field: "count", cause: Box::new(e) }),
        };
        let definition = dict.optional::<String>("definition")?;
        CommandInfos::read_from_keepscript(
            dict,
            addr,
            bang,
            bar,
            callback,
            complete,
            complete_arg,
            count,
            definition,
        )
    }
}

impl CommandInfos {
    /// A pair under a key that names no field, wherever it is put among
    /// the pairs, changes nothing of what is read.
    pub proof fn lemma_unknown_key_is_ignored(
        pairs: Seq<(Value, Value)>,
        at: int,
        extra: (Value, Value),
    )
        requires
            0 <= at <= pairs.len(),
            extra.0 != key_of("addr"),
            extra.0 != key_of("bang"),
            extra.0 != key_of("bar"),
            extra.0 != key_of("callback"),
            extra.0 != key_of("complete"),
            extra.0 != key_of("complete_arg"),
            extra.0 != key_of("count"),
            extra.0 != key_of("definition"),
            extra.0 != key_of("keepscript"),
            extra.0 != key_of("name"),
            extra.0 != key_of("nargs"),
            extra.0 != key_of("range"),
            extra.0 != key_of("register"),
            extra.0 != key_of("script_id"),
        ensures
            CommandInfos::decoded(Value::Dictionary(pairs.insert(at, extra)))
                == CommandInfos::decoded(Value::Dictionary(pairs)),
    {
        lemma_field_ignores_other_key::<CommandAddr>(pairs, at, extra, "addr");
        lemma_field_ignores_other_key::<bool>(pairs, at, extra, "bang");
        lemma_field_ignores_other_key::<bool>(pairs, at, extra, "bar");
        lemma_field_ignores_other_key::<Function<CommandArgs, ()>>(pairs, at, extra, "callback");
        lemma_field_ignores_other_key::<String>(pairs, at, extra, "complete");
        lemma_field_ignores_other_key::<String>(pairs, at, extra, "complete_arg");
        lemma_field_ignores_other_key::<Option<String>>(pairs, at, extra, "count");
        lemma_field_ignores_other_key::<String>(pairs, at, extra, "definition");
        lemma_field_ignores_other_key::<bool>(pairs, at, extra, "keepscript");
        lemma_field_ignores_other_key::<String>(pairs, at, extra, "name");
        lemma_field_ignores_other_key::<CommandNArgs>(pairs, at, extra, "nargs");
        lemma_field_ignores_other_key::<CommandRange>(pairs, at, extra, "range");
        lemma_field_ignores_other_key::<bool>(pairs, at, extra, "register");
        lemma_field_ignores_other_key::<i32>(pairs, at, extra, "script_id");
    }
}

} // verus!
