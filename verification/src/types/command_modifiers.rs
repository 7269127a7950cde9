use crate::bridge::{
    fields_of, in_field, is_first_entry, key_of, lemma_field_ignores_other_key, lemma_keys_differ,
    lemma_present_field, required,
};
use crate::conversion::{Error, FromObject, modelled, ToObject};
use crate::object::{Dictionary, NvimString, Object, Value};
use crate::types::split_modifier::SplitModifier;
use vstd::prelude::*;
use vstd::string::StringSliceAdditionalSpecFns;

verus! {

/// The modifiers of a command. See `:h command-modifiers`.
#[derive(Clone, Copy, Debug, PartialEq, Eq, Hash)]
pub struct CommandModifiers {
    pub browse: bool,
    pub confirm: bool,
    pub emsg_silent: bool,
    pub hide: bool,
    pub keepalt: bool,
    pub keepjumps: bool,
    pub keepmarks: bool,
    pub keeppatterns: bool,
    pub lockmarks: bool,
    pub noautocmd: bool,
    pub noswapfile: bool,
    pub sandbox: bool,
    pub silent: bool,
    pub split: Option<SplitModifier>,
    pub tab: i32,
    pub verbose: i32,
    pub vertical: bool,
}

/// The model of a [`CommandModifiers`].
pub struct CommandModifiersView {
    pub browse: bool,
    pub confirm: bool,
    pub emsg_silent: bool,
    pub hide: bool,
    pub keepalt: bool,
    pub keepjumps: bool,
    pub keepmarks: bool,
    pub keeppatterns: bool,
    pub lockmarks: bool,
    pub noautocmd: bool,
    pub noswapfile: bool,
    pub sandbox: bool,
    pub silent: bool,
    pub split: Option<SplitModifier>,
    pub tab: i32,
    pub verbose: i32,
    pub vertical: bool,
}

impl DeepView for CommandModifiers {
    type V = CommandModifiersView;

    open spec fn deep_view(&self) -> CommandModifiersView {
        CommandModifiersView {
            browse: self.browse.deep_view(),
            confirm: self.confirm.deep_view(),
            emsg_silent: self.emsg_silent.deep_view(),
            hide: self.hide.deep_view(),
            keepalt: self.keepalt.deep_view(),
            keepjumps: self.keepjumps.deep_view(),
            keepmarks: self.keepmarks.deep_view(),
            keeppatterns: self.keeppatterns.deep_view(),
            lockmarks: self.lockmarks.deep_view(),
            noautocmd: self.noautocmd.deep_view(),
            noswapfile: self.noswapfile.deep_view(),
            sandbox: self.sandbox.deep_view(),
            silent: self.silent.deep_view(),
            split: self.split.deep_view(),
            tab: self.tab.deep_view(),
            verbose: self.verbose.deep_view(),
            vertical: self.vertical.deep_view(),
        }
    }
}

/// The split that the text of a `split` field stands for: none where the
/// field is nil or empty.
pub open spec fn split_of(text: Option<Seq<u8>>) -> Result<Option<SplitModifier>, Error> {
    match text {
        Some(name) if name.len() > 0 => match SplitModifier::named(name) {
            Ok(split) => Ok(Some(split)),
            Err(e) => Err(e),
        },
        _ => Ok(None),
    }
}

/// Reads the split that the text of a `split` field stands for.
pub fn empty_string_is_none(text: Option<NvimString>) -> (r: Result<Option<SplitModifier>, Error>)
    ensures
        r == split_of(text.deep_view()),
{
    match text {
        Some(name) => {
            if name.bytes.len() == 0 {
                Ok(None)
            } else {
                Ok(Some(SplitModifier::from_text(&name)?))
            }
        },
        None => Ok(None),
    }
}

impl Default for CommandModifiers {
    fn default() -> (m: CommandModifiers)
        ensures
            m == (CommandModifiers {
                browse: false,
                confirm: false,
                emsg_silent: false,
                hide: false,
                keepalt: false,
                keepjumps: false,
                keepmarks: false,
                keeppatterns: false,
                lockmarks: false,
                noautocmd: false,
                noswapfile: false,
                sandbox: false,
                silent: false,
                split: None,
                tab: 0,
                verbose: 0,
                vertical: false,
            }),
    {
        CommandModifiers {
            browse: false,
            confirm: false,
            emsg_silent: false,
            hide: false,
            keepalt: false,
            keepjumps: false,
            keepmarks: false,
            keeppatterns: false,
            lockmarks: false,
            noautocmd: false,
            noswapfile: false,
            sandbox: false,
            silent: false,
            split: None,
            tab: 0,
            verbose: 0,
            vertical: false,
        }
    }
}

impl CommandModifiers {
    /// What reading the fields from `lockmarks` on yields, given those before
    /// it.
    pub open spec fn decoded_from_lockmarks(
        pairs: Seq<(Value, Value)>,
        browse: bool,
        confirm: bool,
        emsg_silent: bool,
        hide: bool,
        keepalt: bool,
        keepjumps: bool,
        keepmarks: bool,
        keeppatterns: bool,
    ) -> Result<CommandModifiersView, Error> {
        let lockmarks = required::<bool>(pairs, "lockmarks");
        let noautocmd = required::<bool>(pairs, "noautocmd");
        let noswapfile = required::<bool>(pairs, "noswapfile");
        let sandbox = required::<bool>(pairs, "sandbox");
        let silent = required::<bool>(pairs, "silent");
        let split = match required::<Option<NvimString>>(pairs, "split") {
                    Err(e) => Err(e),
                    Ok(text) => in_field("split", split_of(text)),
                };
        let tab = required::<i32>(pairs, "tab");
        let verbose = required::<i32>(pairs, "verbose");
        if lockmarks is Err {
            Err(lockmarks->Err_0)
        } else if noautocmd is Err {
            Err(noautocmd->Err_0)
        } else if noswapfile is Err {
            Err(noswapfile->Err_0)
        } else if sandbox is Err {
            Err(sandbox->Err_0)
        } else if silent is Err {
            Err(silent->Err_0)
        } else if split is Err {
            Err(split->Err_0)
        } else if tab is Err {
            Err(tab->Err_0)
        } else if verbose is Err {
            Err(verbose->Err_0)
        } else {
            CommandModifiers::decoded_from_vertical(
                pairs,
                browse,
                confirm,
                emsg_silent,
                hide,
                keepalt,
                keepjumps,
                keepmarks,
                keeppatterns,
                lockmarks->Ok_0,
                noautocmd->Ok_0,
                noswapfile->Ok_0,
                sandbox->Ok_0,
                silent->Ok_0,
                split->Ok_0,
                tab->Ok_0,
                verbose->Ok_0,
            )
        }
    }

    /// Reads the fields from `lockmarks` on. The struct is read in stages, so
    /// that each stage is proved by itself.
    fn read_from_lockmarks(
        dict: &Dictionary,
        browse: bool,
        confirm: bool,
        emsg_silent: bool,
        hide: bool,
        keepalt: bool,
        keepjumps: bool,
        keepmarks: bool,
        keeppatterns: bool,
    ) -> (r: Result<CommandModifiers, Error>)
        ensures
            modelled(r) == CommandModifiers::decoded_from_lockmarks(
                dict@,
                browse.deep_view(),
                confirm.deep_view(),
                emsg_silent.deep_view(),
                hide.deep_view(),
                keepalt.deep_view(),
                keepjumps.deep_view(),
                keepmarks.deep_view(),
                keeppatterns.deep_view(),
            ),
    {
        let lockmarks = dict.required::<bool>("lockmarks")?;
        let noautocmd = dict.required::<bool>("noautocmd")?;
        let noswapfile = dict.required::<bool>("noswapfile")?;
        let sandbox = dict.required::<bool>("sandbox")?;
        let silent = dict.required::<bool>("silent")?;
        let split = match empty_string_is_none(dict.required::<Option<NvimString>>("split")?) {
            Ok(split) => split,
            Err(e) => return Err(Error::InvalidField { field: "split", cause: Box::new(e) }),
        };
        let tab = dict.required::<i32>("tab")?;
        let verbose = dict.required::<i32>("verbose")?;
        CommandModifiers::read_from_vertical(
            dict,
            browse,
            confirm,
            emsg_silent,
            hide,
            keepalt,
            keepjumps,
            keepmarks,
            keeppatterns,
            lockmarks,
            noautocmd,
            noswapfile,
            sandbox,
            silent,
            split,
            tab,
            verbose,
        )
    }

    /// What reading the fields from `vertical` on yields, given those before
    /// it.
    pub open spec fn decoded_from_vertical(
        pairs: Seq<(Value, Value)>,
        browse: bool,
        confirm: bool,
        emsg_silent: bool,
        hide: bool,
        keepalt: bool,
        keepjumps: bool,
        keepmarks: bool,
        keeppatterns: bool,
        lockmarks: bool,
        noautocmd: bool,
        noswapfile: bool,
        sandbox: bool,
        silent: bool,
        split: Option<SplitModifier>,
        tab: i32,
        verbose: i32,
    ) -> Result<CommandModifiersView, Error> {
        let vertical = required::<bool>(pairs, "vertical");
        if vertical is Err {
            Err(vertical->Err_0)
        } else {
            Ok(
                CommandModifiersView {
                    browse,
                    confirm,
                    emsg_silent,
                    hide,
                    keepalt,
                    keepjumps,
                    keepmarks,
                    keeppatterns,
                    lockmarks,
                    noautocmd,
                    noswapfile,
                    sandbox,
                    silent,
                    split,
                    tab,
                    verbose,
                    vertical: vertical->Ok_0,
                },
            )
        }
    }

    /// Reads the fields from `vertical` on. The struct is read in stages, so
    /// that each stage is proved by itself.
    fn read_from_vertical(
        dict: &Dictionary,
        browse: bool,
        confirm: bool,
        emsg_silent: bool,
        hide: bool,
        keepalt: bool,
        keepjumps: bool,
        keepmarks: bool,
        keeppatterns: bool,
        lockmarks: bool,
        noautocmd: bool,
        noswapfile: bool,
        sandbox: bool,
        silent: bool,
        split: Option<SplitModifier>,
        tab: i32,
        verbose: i32,
    ) -> (r: Result<CommandModifiers, Error>)
        ensures
            modelled(r) == CommandModifiers::decoded_from_vertical(
                dict@,
                browse.deep_view(),
                confirm.deep_view(),
                emsg_silent.deep_view(),
                hide.deep_view(),
                keepalt.deep_view(),
                keepjumps.deep_view(),
                keepmarks.deep_view(),
                keeppatterns.deep_view(),
                lockmarks.deep_view(),
                noautocmd.deep_view(),
                noswapfile.deep_view(),
                sandbox.deep_view(),
                silent.deep_view(),
                split.deep_view(),
                tab.deep_view(),
                verbose.deep_view(),
            ),
    {
        let vertical = dict.required::<bool>("vertical")?;
        Ok(
            CommandModifiers {
                browse,
                confirm,
                emsg_silent,
                hide,
                keepalt,
                keepjumps,
                keepmarks,
                keeppatterns,
                lockmarks,
                noautocmd,
                noswapfile,
                sandbox,
                silent,
                split,
                tab,
                verbose,
                vertical,
            },
        )
    }
}

impl FromObject for CommandModifiers {
    open spec fn decoded(value: Value) -> Result<CommandModifiersView, Error> {
        match fields_of(value) {
            Err(e) => Err(e),
            Ok(pairs) => {
                let browse = required::<bool>(pairs, "browse");
                let confirm = required::<bool>(pairs, "confirm");
                let emsg_silent = required::<bool>(pairs, "emsg_silent");
                let hide = required::<bool>(pairs, "hide");
                let keepalt = required::<bool>(pairs, "keepalt");
                let keepjumps = required::<bool>(pairs, "keepjumps");
                let keepmarks = required::<bool>(pairs, "keepmarks");
                let keeppatterns = required::<bool>(pairs, "keeppatterns");
                if browse is Err {
                    Err(browse->Err_0)
                } else if confirm is Err {
                    Err(confirm->Err_0)
                } else if emsg_silent is Err {
                    Err(emsg_silent->Err_0)
                } else if hide is Err {
                    Err(hide->Err_0)
                } else if keepalt is Err {
                    Err(keepalt->Err_0)
                } else if keepjumps is Err {
                    Err(keepjumps->Err_0)
                } else if keepmarks is Err {
                    Err(keepmarks->Err_0)
                } else if keeppatterns is Err {
                    Err(keeppatterns->Err_0)
                } else {
                    CommandModifiers::decoded_from_lockmarks(
                        pairs,
                        browse->Ok_0,
                        confirm->Ok_0,
                        emsg_silent->Ok_0,
                        hide->Ok_0,
                        keepalt->Ok_0,
                        keepjumps->Ok_0,
                        keepmarks->Ok_0,
                        keeppatterns->Ok_0,
                    )
                }
            },
        }
    }

    fn from_object(obj: Object) -> (r: Result<CommandModifiers, Error>) {
        let dict = &Dictionary::of_fields(obj)?;
        let browse = dict.required::<bool>("browse")?;
        let confirm = dict.required::<bool>("confirm")?;
        let emsg_silent = dict.required::<bool>("emsg_silent")?;
        let hide = dict.required::<bool>("hide")?;
        let keepalt = dict.required::<bool>("keepalt")?;
        let keepjumps = dict.required::<bool>("keepjumps")?;
        let keepmarks = dict.required::<bool>("keepmarks")?;
        let keeppatterns = dict.required::<bool>("keeppatterns")?;
        CommandModifiers::read_from_lockmarks(
            dict,
            browse,
            confirm,
            emsg_silent,
            hide,
            keepalt,
            keepjumps,
            keepmarks,
            keeppatterns,
        )
    }
}

impl CommandModifiers {
    /// A pair under a key that names no field, wherever it is put among
    /// the pairs, changes nothing of what is read.
    pub proof fn lemma_unknown_key_is_ignored(
        pairs: Seq<(Value, Value)>,
        at: int,
        extra: (Value, Value),
    )
        requires
            0 <= at <= pairs.len(),
            extra.0 != key_of("browse"),
            extra.0 != key_of("confirm"),
            extra.0 != key_of("emsg_silent"),
            extra.0 != key_of("hide"),
            extra.0 != key_of("keepalt"),
            extra.0 != key_of("keepjumps"),
            extra.0 != key_of("keepmarks"),
            extra.0 != key_of("keeppatterns"),
            extra.0 != key_of("lockmarks"),
            extra.0 != key_of("noautocmd"),
            extra.0 != key_of("noswapfile"),
            extra.0 != key_of("sandbox"),
            extra.0 != key_of("silent"),
            extra.0 != key_of("split"),
            extra.0 != key_of("tab"),
            extra.0 != key_of("verbose"),
            extra.0 != key_of("vertical"),
        ensures
            CommandModifiers::decoded(Value::Dictionary(pairs.insert(at, extra)))
                == CommandModifiers::decoded(Value::Dictionary(pairs)),
    {
        lemma_field_ignores_other_key::<bool>(pairs, at, extra, "browse");
        lemma_field_ignores_other_key::<bool>(pairs, at, extra, "confirm");
        lemma_field_ignores_other_key::<bool>(pairs, at, extra, "emsg_silent");
        lemma_field_ignores_other_key::<bool>(pairs, at, extra, "hide");
        lemma_field_ignores_other_key::<bool>(pairs, at, extra, "keepalt");
        lemma_field_ignores_other_key::<bool>(pairs, at, extra, "keepjumps");
        lemma_field_ignores_other_key::<bool>(pairs, at, extra, "keepmarks");
        lemma_field_ignores_other_key::<bool>(pairs, at, extra, "keeppatterns");
        lemma_field_ignores_other_key::<bool>(pairs, at, extra, "lockmarks");
        lemma_field_ignores_other_key::<bool>(pairs, at, extra, "noautocmd");
        lemma_field_ignores_other_key::<bool>(pairs, at, extra, "noswapfile");
        lemma_field_ignores_other_key::<bool>(pairs, at, extra, "sandbox");
        lemma_field_ignores_other_key::<bool>(pairs, at, extra, "silent");
        lemma_field_ignores_other_key::<Option<NvimString>>(pairs, at, extra, "split");
        lemma_field_ignores_other_key::<i32>(pairs, at, extra, "tab");
        lemma_field_ignores_other_key::<i32>(pairs, at, extra, "verbose");
        lemma_field_ignores_other_key::<bool>(pairs, at, extra, "vertical");
    }
}

/// What is written for a split: the text of its name, or nil where
/// there is none.
pub open spec fn split_value(split: Option<SplitModifier>) -> Value {
    match split {
        Some(split) => Value::String(split.tag().spec_bytes()),
        None => Value::Nil,
    }
}

/// The pairs that the modifiers are written as, in the order of the
/// fields.
#[verifier::opaque]
pub open spec fn written_modifiers(model: CommandModifiersView) -> Seq<(Value, Value)> {
    Seq::empty()
        .push((key_of("browse"), Value::Boolean(model.browse)))
        .push((key_of("confirm"), Value::Boolean(model.confirm)))
        .push((key_of("emsg_silent"), Value::Boolean(model.emsg_silent)))
        .push((key_of("hide"), Value::Boolean(model.hide)))
        .push((key_of("keepalt"), Value::Boolean(model.keepalt)))
        .push((key_of("keepjumps"), Value::Boolean(model.keepjumps)))
        .push((key_of("keepmarks"), Value::Boolean(model.keepmarks)))
        .push((key_of("keeppatterns"), Value::Boolean(model.keeppatterns)))
        .push((key_of("lockmarks"), Value::Boolean(model.lockmarks)))
        .push((key_of("noautocmd"), Value::Boolean(model.noautocmd)))
        .push((key_of("noswapfile"), Value::Boolean(model.noswapfile)))
        .push((key_of("sandbox"), Value::Boolean(model.sandbox)))
        .push((key_of("silent"), Value::Boolean(model.silent)))
        .push((key_of("split"), split_value(model.split)))
        .push((key_of("tab"), Value::Integer(model.tab as i64)))
        .push((key_of("verbose"), Value::Integer(model.verbose as i64)))
        .push((key_of("vertical"), Value::Boolean(model.vertical)))
}

impl ToObject for CommandModifiers {
    open spec fn encoded(model: CommandModifiersView) -> Result<Value, Error> {
        Ok(Value::Dictionary(written_modifiers(model)))
    }

    fn to_object(self) -> (r: Result<Object, Error>) {
        reveal(written_modifiers);
        let split = match self.split {
            Some(split) => Object::String(NvimString::from_str(split.as_str())),
            None => Object::Nil,
        };
        let mut dict = Dictionary::new();
        dict.insert("browse", Object::Boolean(self.browse));
        dict.insert("confirm", Object::Boolean(self.confirm));
        dict.insert("emsg_silent", Object::Boolean(self.emsg_silent));
        dict.insert("hide", Object::Boolean(self.hide));
        dict.insert("keepalt", Object::Boolean(self.keepalt));
        dict.insert("keepjumps", Object::Boolean(self.keepjumps));
        dict.insert("keepmarks", Object::Boolean(self.keepmarks));
        dict.insert("keeppatterns", Object::Boolean(self.keeppatterns));
        dict.insert("lockmarks", Object::Boolean(self.lockmarks));
        dict.insert("noautocmd", Object::Boolean(self.noautocmd));
        dict.insert("noswapfile", Object::Boolean(self.noswapfile));
        dict.insert("sandbox", Object::Boolean(self.sandbox));
        dict.insert("silent", Object::Boolean(self.silent));
        dict.insert("split", split);
        dict.insert("tab", Object::Integer(self.tab as i64));
        dict.insert("verbose", Object::Integer(self.verbose as i64));
        dict.insert("vertical", Object::Boolean(self.vertical));
        Ok(Object::Dictionary(dict))
    }
}

impl CommandModifiers {
    /// Each field is written at its own place, under its own name.
    proof fn lemma_written_at_their_places(model: CommandModifiersView)
        ensures
            is_first_entry(written_modifiers(model), key_of("browse"), 0),
            written_modifiers(model)[0].1 == Value::Boolean(model.browse),
            is_first_entry(written_modifiers(model), key_of("confirm"), 1),
            written_modifiers(model)[1].1 == Value::Boolean(model.confirm),
            is_first_entry(written_modifiers(model), key_of("emsg_silent"), 2),
            written_modifiers(model)[2].1 == Value::Boolean(model.emsg_silent),
            is_first_entry(written_modifiers(model), key_of("hide"), 3),
            written_modifiers(model)[3].1 == Value::Boolean(model.hide),
            is_first_entry(written_modifiers(model), key_of("keepalt"), 4),
            written_modifiers(model)[4].1 == Value::Boolean(model.keepalt),
            is_first_entry(written_modifiers(model), key_of("keepjumps"), 5),
            written_modifiers(model)[5].1 == Value::Boolean(model.keepjumps),
            is_first_entry(written_modifiers(model), key_of("keepmarks"), 6),
            written_modifiers(model)[6].1 == Value::Boolean(model.keepmarks),
            is_first_entry(written_modifiers(model), key_of("keeppatterns"), 7),
            written_modifiers(model)[7].1 == Value::Boolean(model.keeppatterns),
            is_first_entry(written_modifiers(model), key_of("lockmarks"), 8),
            written_modifiers(model)[8].1 == Value::Boolean(model.lockmarks),
            is_first_entry(written_modifiers(model), key_of("noautocmd"), 9),
            written_modifiers(model)[9].1 == Value::Boolean(model.noautocmd),
            is_first_entry(written_modifiers(model), key_of("noswapfile"), 10),
            written_modifiers(model)[10].1 == Value::Boolean(model.noswapfile),
            is_first_entry(written_modifiers(model), key_of("sandbox"), 11),
            written_modifiers(model)[11].1 == Value::Boolean(model.sandbox),
            is_first_entry(written_modifiers(model), key_of("silent"), 12),
            written_modifiers(model)[12].1 == Value::Boolean(model.silent),
            is_first_entry(written_modifiers(model), key_of("split"), 13),
            written_modifiers(model)[13].1 == split_value(model.split),
            is_first_entry(written_modifiers(model), key_of("tab"), 14),
            written_modifiers(model)[14].1 == Value::Integer(model.tab as i64),
            is_first_entry(written_modifiers(model), key_of("verbose"), 15),
            written_modifiers(model)[15].1 == Value::Integer(model.verbose as i64),
            is_first_entry(written_modifiers(model), key_of("vertical"), 16),
            written_modifiers(model)[16].1 == Value::Boolean(model.vertical),
    {
        reveal(written_modifiers);
        reveal_strlit("browse");
        reveal_strlit("confirm");
        reveal_strlit("emsg_silent");
        reveal_strlit("hide");
        reveal_strlit("keepalt");
        reveal_strlit("keepjumps");
        reveal_strlit("keepmarks");
        reveal_strlit("keeppatterns");
        reveal_strlit("lockmarks");
        reveal_strlit("noautocmd");
        reveal_strlit("noswapfile");
        reveal_strlit("sandbox");
        reveal_strlit("silent");
        reveal_strlit("split");
        reveal_strlit("tab");
        reveal_strlit("verbose");
        reveal_strlit("vertical");
        lemma_keys_differ("browse", "confirm");
        lemma_keys_differ("browse", "emsg_silent");
        lemma_keys_differ("confirm", "emsg_silent");
        lemma_keys_differ("browse", "hide");
        lemma_keys_differ("confirm", "hide");
        lemma_keys_differ("emsg_silent", "hide");
        lemma_keys_differ("browse", "keepalt");
        assert("confirm"@[0] != "keepalt"@[0]);
        lemma_keys_differ("confirm", "keepalt");
        lemma_keys_differ("emsg_silent", "keepalt");
        lemma_keys_differ("hide", "keepalt");
        lemma_keys_differ("browse", "keepjumps");
        lemma_keys_differ("confirm", "keepjumps");
        lemma_keys_differ("emsg_silent", "keepjumps");
        lemma_keys_differ("hide", "keepjumps");
        lemma_keys_differ("keepalt", "keepjumps");
        lemma_keys_differ("browse", "keepmarks");
        lemma_keys_differ("confirm", "keepmarks");
        lemma_keys_differ("emsg_silent", "keepmarks");
        lemma_keys_differ("hide", "keepmarks");
        lemma_keys_differ("keepalt", "keepmarks");
        assert("keepjumps"@[4] != "keepmarks"@[4]);
        lemma_keys_differ("keepjumps", "keepmarks");
        lemma_keys_differ("browse", "keeppatterns");
        lemma_keys_differ("confirm", "keeppatterns");
        lemma_keys_differ("emsg_silent", "keeppatterns");
        lemma_keys_differ("hide", "keeppatterns");
        lemma_keys_differ("keepalt", "keeppatterns");
        lemma_keys_differ("keepjumps", "keeppatterns");
        lemma_keys_differ("keepmarks", "keeppatterns");
        lemma_keys_differ("browse", "lockmarks");
        lemma_keys_differ("confirm", "lockmarks");
        lemma_keys_differ("emsg_silent", "lockmarks");
        lemma_keys_differ("hide", "lockmarks");
        lemma_keys_differ("keepalt", "lockmarks");
        assert("keepjumps"@[0] != "lockmarks"@[0]);
        lemma_keys_differ("keepjumps", "lockmarks");
        assert("keepmarks"@[0] != "lockmarks"@[0]);
        lemma_keys_differ("keepmarks", "lockmarks");
        lemma_keys_differ("keeppatterns", "lockmarks");
        lemma_keys_differ("browse", "noautocmd");
        lemma_keys_differ("confirm", "noautocmd");
        lemma_keys_differ("emsg_silent", "noautocmd");
        lemma_keys_differ("hide", "noautocmd");
        lemma_keys_differ("keepalt", "noautocmd");
        assert("keepjumps"@[0] != "noautocmd"@[0]);
        lemma_keys_differ("keepjumps", "noautocmd");
        assert("keepmarks"@[0] != "noautocmd"@[0]);
        lemma_keys_differ("keepmarks", "noautocmd");
        lemma_keys_differ("keeppatterns", "noautocmd");
        assert("lockmarks"@[0] != "noautocmd"@[0]);
        lemma_keys_differ("lockmarks", "noautocmd");
        lemma_keys_differ("browse", "noswapfile");
        lemma_keys_differ("confirm", "noswapfile");
        lemma_keys_differ("emsg_silent", "noswapfile");
        lemma_keys_differ("hide", "noswapfile");
        lemma_keys_differ("keepalt", "noswapfile");
        lemma_keys_differ("keepjumps", "noswapfile");
        lemma_keys_differ("keepmarks", "noswapfile");
        lemma_keys_differ("keeppatterns", "noswapfile");
        lemma_keys_differ("lockmarks", "noswapfile");
        lemma_keys_differ("noautocmd", "noswapfile");
        lemma_keys_differ("browse", "sandbox");
        assert("confirm"@[0] != "sandbox"@[0]);
        lemma_keys_differ("confirm", "sandbox");
        lemma_keys_differ("emsg_silent", "sandbox");
        lemma_keys_differ("hide", "sandbox");
        assert("keepalt"@[0] != "sandbox"@[0]);
        lemma_keys_differ("keepalt", "sandbox");
        lemma_keys_differ("keepjumps", "sandbox");
        lemma_keys_differ("keepmarks", "sandbox");
        lemma_keys_differ("keeppatterns", "sandbox");
        lemma_keys_differ("lockmarks", "sandbox");
        lemma_keys_differ("noautocmd", "sandbox");
        lemma_keys_differ("noswapfile", "sandbox");
        assert("browse"@[0] != "silent"@[0]);
        lemma_keys_differ("browse", "silent");
        lemma_keys_differ("confirm", "silent");
        lemma_keys_differ("emsg_silent", "silent");
        lemma_keys_differ("hide", "silent");
        lemma_keys_differ("keepalt", "silent");
        lemma_keys_differ("keepjumps", "silent");
        lemma_keys_differ("keepmarks", "silent");
        lemma_keys_differ("keeppatterns", "silent");
        lemma_keys_differ("lockmarks", "silent");
        lemma_keys_differ("noautocmd", "silent");
        lemma_keys_differ("noswapfile", "silent");
        lemma_keys_differ("sandbox", "silent");
        lemma_keys_differ("browse", "split");
        lemma_keys_differ("confirm", "split");
        lemma_keys_differ("emsg_silent", "split");
        lemma_keys_differ("hide", "split");
        lemma_keys_differ("keepalt", "split");
        lemma_keys_differ("keepjumps", "split");
        lemma_keys_differ("keepmarks", "split");
        lemma_keys_differ("keeppatterns", "split");
        lemma_keys_differ("lockmarks", "split");
        lemma_keys_differ("noautocmd", "split");
        lemma_keys_differ("noswapfile", "split");
        lemma_keys_differ("sandbox", "split");
        lemma_keys_differ("silent", "split");
        lemma_keys_differ("browse", "tab");
        lemma_keys_differ("confirm", "tab");
        lemma_keys_differ("emsg_silent", "tab");
        lemma_keys_differ("hide", "tab");
        lemma_keys_differ("keepalt", "tab");
        lemma_keys_differ("keepjumps", "tab");
        lemma_keys_differ("keepmarks", "tab");
        lemma_keys_differ("keeppatterns", "tab");
        lemma_keys_differ("lockmarks", "tab");
        lemma_keys_differ("noautocmd", "tab");
        lemma_keys_differ("noswapfile", "tab");
        lemma_keys_differ("sandbox", "tab");
        lemma_keys_differ("silent", "tab");
        lemma_keys_differ("split", "tab");
        lemma_keys_differ("browse", "verbose");
        assert("confirm"@[0] != "verbose"@[0]);
        lemma_keys_differ("confirm", "verbose");
        lemma_keys_differ("emsg_silent", "verbose");
        lemma_keys_differ("hide", "verbose");
        assert("keepalt"@[0] != "verbose"@[0]);
        lemma_keys_differ("keepalt", "verbose");
        lemma_keys_differ("keepjumps", "verbose");
        lemma_keys_differ("keepmarks", "verbose");
        lemma_keys_differ("keeppatterns", "verbose");
        lemma_keys_differ("lockmarks", "verbose");
        lemma_keys_differ("noautocmd", "verbose");
        lemma_keys_differ("noswapfile", "verbose");
        assert("sandbox"@[0] != "verbose"@[0]);
        lemma_keys_differ("sandbox", "verbose");
        lemma_keys_differ("silent", "verbose");
        lemma_keys_differ("split", "verbose");
        lemma_keys_differ("tab", "verbose");
        lemma_keys_differ("browse", "vertical");
        lemma_keys_differ("confirm", "vertical");
        lemma_keys_differ("emsg_silent", "vertical");
        lemma_keys_differ("hide", "vertical");
        lemma_keys_differ("keepalt", "vertical");
        lemma_keys_differ("keepjumps", "vertical");
        lemma_keys_differ("keepmarks", "vertical");
        lemma_keys_differ("keeppatterns", "vertical");
        lemma_keys_differ("lockmarks", "vertical");
        lemma_keys_differ("noautocmd", "vertical");
        lemma_keys_differ("noswapfile", "vertical");
        lemma_keys_differ("sandbox", "vertical");
        lemma_keys_differ("silent", "vertical");
        lemma_keys_differ("split", "vertical");
        lemma_keys_differ("tab", "vertical");
        lemma_keys_differ("verbose", "vertical");
    }

    /// Each field is read back from what it was written as.
    proof fn lemma_fields_read_back(model: CommandModifiersView)
        ensures
            required::<bool>(written_modifiers(model), "browse")
                == Ok::<bool, Error>(model.browse),
            required::<bool>(written_modifiers(model), "confirm")
                == Ok::<bool, Error>(model.confirm),
            required::<bool>(written_modifiers(model), "emsg_silent")
                == Ok::<bool, Error>(model.emsg_silent),
            required::<bool>(written_modifiers(model), "hide")
                == Ok::<bool, Error>(model.hide),
            required::<bool>(written_modifiers(model), "keepalt")
                == Ok::<bool, Error>(model.keepalt),
            required::<bool>(written_modifiers(model), "keepjumps")
                == Ok::<bool, Error>(model.keepjumps),
            required::<bool>(written_modifiers(model), "keepmarks")
                == Ok::<bool, Error>(model.keepmarks),
            required::<bool>(written_modifiers(model), "keeppatterns")
                == Ok::<bool, Error>(model.keeppatterns),
            required::<bool>(written_modifiers(model), "lockmarks")
                == Ok::<bool, Error>(model.lockmarks),
            required::<bool>(written_modifiers(model), "noautocmd")
                == Ok::<bool, Error>(model.noautocmd),
            required::<bool>(written_modifiers(model), "noswapfile")
                == Ok::<bool, Error>(model.noswapfile),
            required::<bool>(written_modifiers(model), "sandbox")
                == Ok::<bool, Error>(model.sandbox),
            required::<bool>(written_modifiers(model), "silent")
                == Ok::<bool, Error>(model.silent),
            required::<Option<NvimString>>(written_modifiers(model), "split") is Ok,
            split_of(required::<Option<NvimString>>(written_modifiers(model), "split")->Ok_0)
                == Ok::<Option<SplitModifier>, Error>(model.split),
            required::<i32>(written_modifiers(model), "tab")
                == Ok::<i32, Error>(model.tab),
            required::<i32>(written_modifiers(model), "verbose")
                == Ok::<i32, Error>(model.verbose),
            required::<bool>(written_modifiers(model), "vertical")
                == Ok::<bool, Error>(model.vertical),
    {
        let pairs = written_modifiers(model);
        CommandModifiers::lemma_written_at_their_places(model);
        if let Some(split) = model.split {
            SplitModifier::lemma_round_trip(split);
        }
        lemma_present_field::<bool>(pairs, "browse", 0);
        lemma_present_field::<bool>(pairs, "confirm", 1);
        lemma_present_field::<bool>(pairs, "emsg_silent", 2);
        lemma_present_field::<bool>(pairs, "hide", 3);
        lemma_present_field::<bool>(pairs, "keepalt", 4);
        lemma_present_field::<bool>(pairs, "keepjumps", 5);
        lemma_present_field::<bool>(pairs, "keepmarks", 6);
        lemma_present_field::<bool>(pairs, "keeppatterns", 7);
        lemma_present_field::<bool>(pairs, "lockmarks", 8);
        lemma_present_field::<bool>(pairs, "noautocmd", 9);
        lemma_present_field::<bool>(pairs, "noswapfile", 10);
        lemma_present_field::<bool>(pairs, "sandbox", 11);
        lemma_present_field::<bool>(pairs, "silent", 12);
        lemma_present_field::<Option<NvimString>>(pairs, "split", 13);
        lemma_present_field::<i32>(pairs, "tab", 14);
        lemma_present_field::<i32>(pairs, "verbose", 15);
        lemma_present_field::<bool>(pairs, "vertical", 16);
    }

    /// Modifiers that are written as an object and read back are the same
    /// modifiers.
    pub proof fn lemma_round_trip(model: CommandModifiersView)
        ensures
            CommandModifiers::decoded(CommandModifiers::encoded(model)->Ok_0) == Ok::<
                CommandModifiersView,
                Error,
            >(model),
    {
        CommandModifiers::lemma_fields_read_back(model);
    }
}

} // verus!
