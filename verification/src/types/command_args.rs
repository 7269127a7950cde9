use crate::bridge::{
    fields_of, key_of, lemma_field_ignores_other_key, optional, or_default, required,
};
use crate::conversion::{Error, FromObject, modelled};
use crate::object::{Dictionary, Object, Value};
use vstd::prelude::*;

verus! {

/// What the callback of a user command is called with.
#[derive(Clone, Debug, PartialEq, Eq, Hash)]
pub struct CommandArgs {
    /// The arguments of the command, as one text.
    pub args: Option<String>,
    /// Whether the command was called with a `!` modifier.
    pub bang: bool,
    /// The count that was given.
    pub count: Option<u32>,
    /// The arguments of the command, split at white space.
    pub fargs: Vec<String>,
    /// The first line of the range.
    pub line1: usize,
    /// The last line of the range.
    pub line2: usize,
    /// The modifiers of the command, as one text.
    pub mods: Option<String>,
    /// The number of items in the range.
    pub range: u8,
    /// The register that was given.
    pub register: Option<String>,
}

/// The model of a [`CommandArgs`].
pub struct CommandArgsView {
    pub args: Option<Seq<char>>,
    pub bang: bool,
    pub count: Option<u32>,
    pub fargs: Seq<Seq<char>>,
    pub line1: usize,
    pub line2: usize,
    pub mods: Option<Seq<char>>,
    pub range: u8,
    pub register: Option<Seq<char>>,
}

impl DeepView for CommandArgs {
    type V = CommandArgsView;

    open spec fn deep_view(&self) -> CommandArgsView {
        CommandArgsView {
            args: self.args.deep_view(),
            bang: self.bang.deep_view(),
            count: self.count.deep_view(),
            fargs: self.fargs.deep_view(),
            line1: self.line1.deep_view(),
            line2: self.line2.deep_view(),
            mods: self.mods.deep_view(),
            range: self.range.deep_view(),
            register: self.register.deep_view(),
        }
    }
}

impl CommandArgs {
    /// What reading the fields from `register` on yields, given those before
    /// it.
    pub open spec fn decoded_from_register(
        pairs: Seq<(Value, Value)>,
        args: Option<Seq<char>>,
        bang: bool,
        count: Option<u32>,
        fargs: Seq<Seq<char>>,
        line1: usize,
        line2: usize,
        mods: Option<Seq<char>>,
        range: u8,
    ) -> Result<CommandArgsView, Error> {
        let register = optional::<String>(pairs, "reg");
        if register is Err {
            Err(register->Err_0)
        } else {
            Ok(
                CommandArgsView {
                    args,
                    bang,
                    count,
                    fargs,
                    line1,
                    line2,
                    mods,
                    range,
                    register: register->Ok_0,
                },
            )
        }
    }

    /// Reads the fields from `register` on. The struct is read in stages, so
    /// that each stage is proved by itself.
    fn read_from_register(
        dict: &Dictionary,
        args: Option<String>,
        bang: bool,
        count: Option<u32>,
        fargs: Vec<String>,
        line1: usize,
        line2: usize,
        mods: Option<String>,
        range: u8,
    ) -> (r: Result<CommandArgs, Error>)
        ensures
            modelled(r) == CommandArgs::decoded_from_register(
                dict@,
                args.deep_view(),
                bang.deep_view(),
                count.deep_view(),
                fargs.deep_view(),
                line1.deep_view(),
                line2.deep_view(),
                mods.deep_view(),
                range.deep_view(),
            ),
    {
        let register = dict.optional::<String>("reg")?;
        Ok(CommandArgs { args, bang, count, fargs, line1, line2, mods, range, register })
    }
}

impl FromObject for CommandArgs {
    open spec fn decoded(value: Value) -> Result<CommandArgsView, Error> {
        match fields_of(value) {
            Err(e) => Err(e),
            Ok(pairs) => {
                let args = optional::<String>(pairs, "args");
                let bang = required::<bool>(pairs, "bang");
                let count = optional::<u32>(pairs, "count");
                let fargs = or_default::<Vec<String>>(pairs, "fargs", Seq::empty());
                let line1 = required::<usize>(pairs, "line1");
                let line2 = required::<usize>(pairs, "line2");
                let mods = optional::<String>(pairs, "mods");
                let range = required::<u8>(pairs, "range");
                if args is Err {
                    Err(args->Err_0)
                } else if bang is Err {
                    Err(bang->Err_0)
                } else if count is Err {
                    Err(count->Err_0)
                } else if fargs is Err {
                    Err(fargs->Err_0)
                } else if line1 is Err {
                    Err(line1->Err_0)
                } else if line2 is Err {
                    Err(line2->Err_0)
                } else if mods is Err {
                    Err(mods->Err_0)
                } else if range is Err {
                    Err(range->Err_0)
                } else {
                    CommandArgs::decoded_from_register(
                        pairs,
                        args->Ok_0,
                        bang->Ok_0,
                        count->Ok_0,
                        fargs->Ok_0,
                        line1->Ok_0,
                        line2->Ok_0,
                        mods->Ok_0,
                        range->Ok_0,
                    )
                }
            },
        }
    }

    fn from_object(obj: Object) -> (r: Result<CommandArgs, Error>) {
        let dict = &Dictionary::of_fields(obj)?;
        let args = dict.optional::<String>("args")?;
        let bang = dict.required::<bool>("bang")?;
        let count = dict.optional::<u32>("count")?;
        let no_args: Vec<String> = Vec::new();
        assert(no_args.deep_view() =~= Seq::empty());
        let fargs = dict.or_default::<Vec<String>>("fargs", no_args)?;
        let line1 = dict.required::<usize>("line1")?;
        let line2 = dict.required::<usize>("line2")?;
        let mods = dict.optional::<String>("mods")?;
        let range = dict.required::<u8>("range")?;
        CommandArgs::read_from_register(
            dict,
            args,
            bang,
            count,
            fargs,
            line1,
            line2,
            mods,
            range,
        )
    }
}

impl CommandArgs {
    /// A pair under a key that names no field, wherever it is put among
    /// the pairs, changes nothing of what is read.
    pub proof fn lemma_unknown_key_is_ignored(
        pairs: Seq<(Value, Value)>,
        at: int,
        extra: (Value, Value),
    )
        requires
            0 <= at <= pairs.len(),
            extra.0 != key_of("args"),
            extra.0 != key_of("bang"),
            extra.0 != key_of("count"),
            extra.0 != key_of("fargs"),
            extra.0 != key_of("line1"),
            extra.0 != key_of("line2"),
            extra.0 != key_of("mods"),
            extra.0 != key_of("range"),
            extra.0 != key_of("reg"),
        ensures
            CommandArgs::decoded(Value::Dictionary(pairs.insert(at, extra)))
                == CommandArgs::decoded(Value::Dictionary(pairs)),
    {
        lemma_field_ignores_other_key::<String>(pairs, at, extra, "args");
        lemma_field_ignores_other_key::<bool>(pairs, at, extra, "bang");
        lemma_field_ignores_other_key::<u32>(pairs, at, extra, "count");
        lemma_field_ignores_other_key::<Vec<String>>(pairs, at, extra, "fargs");
        lemma_field_ignores_other_key::<usize>(pairs, at, extra, "line1");
        lemma_field_ignores_other_key::<usize>(pairs, at, extra, "line2");
        lemma_field_ignores_other_key::<String>(pairs, at, extra, "mods");
        lemma_field_ignores_other_key::<u8>(pairs, at, extra, "range");
        lemma_field_ignores_other_key::<String>(pairs, at, extra, "reg");
    }
}

} // verus!
