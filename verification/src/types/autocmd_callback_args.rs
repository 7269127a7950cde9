use crate::bridge::{
    fields_of, key_of, lemma_field_ignores_other_key, optional, or_default, required,
};
use crate::buffer::{BufHandle, Buffer};
use crate::conversion::{Error, FromObject};
use crate::object::{Dictionary, Object, Value};
use vstd::prelude::*;

verus! {

/// What the callback of an autocommand is called with.
#[derive(Clone, Debug, PartialEq)]
pub struct AutocmdCallbackArgs {
    /// The buffer of `<abuf>`.
    pub buffer: Buffer,
    /// What was handed to the autocommand when it was executed.
    pub data: Object,
    /// The name of the event that set the autocommand off.
    pub event: String,
    /// The expanded value of `<afile>`.
    pub file: String,
    /// The id of the group of the autocommand, if it has one.
    pub group: Option<u32>,
    /// The id of the autocommand.
    pub id: u32,
    /// The expanded value of `<amatch>`.
    pub amatch: String,
}

/// The model of a [`AutocmdCallbackArgs`].
pub struct AutocmdCallbackArgsView {
    pub buffer: BufHandle,
    pub data: Value,
    pub event: Seq<char>,
    pub file: Seq<char>,
    pub group: Option<u32>,
    pub id: u32,
    pub amatch: Seq<char>,
}

impl DeepView for AutocmdCallbackArgs {
    type V = AutocmdCallbackArgsView;

    open spec fn deep_view(&self) -> AutocmdCallbackArgsView {
        AutocmdCallbackArgsView {
            buffer: self.buffer.deep_view(),
            data: self.data.deep_view(),
            event: self.event.deep_view(),
            file: self.file.deep_view(),
            group: self.group.deep_view(),
            id: self.id.deep_view(),
            amatch: self.amatch.deep_view(),
        }
    }
}

impl FromObject for AutocmdCallbackArgs {
    open spec fn decoded(value: Value) -> Result<AutocmdCallbackArgsView, Error> {
        match fields_of(value) {
            Err(e) => Err(e),
            Ok(pairs) => {
                let buffer = required::<Buffer>(pairs, "buf");
                let data = or_default::<Object>(pairs, "data", Value::Nil);
                let event = required::<String>(pairs, "event");
                let file = required::<String>(pairs, "file");
                let group = optional::<u32>(pairs, "group");
                let id = required::<u32>(pairs, "id");
                let amatch = required::<String>(pairs, "match");
                if buffer is Err {
                    Err(buffer->Err_0)
                } else if data is Err {
                    Err(data->Err_0)
                } else if event is Err {
                    Err(event->Err_0)
                } else if file is Err {
                    Err(file->Err_0)
                } else if group is Err {
                    Err(group->Err_0)
                } else if id is Err {
                    Err(id->Err_0)
                } else if amatch is Err {
                    Err(amatch->Err_0)
                } else {
                    Ok(
                        AutocmdCallbackArgsView {
                            buffer: buffer->Ok_0,
                            data: data->Ok_0,
                            event: event->Ok_0,
                            file: file->Ok_0,
                            group: group->Ok_0,
                            id: id->Ok_0,
                            amatch: amatch->Ok_0,
                        },
                    )
                }
            },
        }
    }

    fn from_object(obj: Object) -> (r: Result<AutocmdCallbackArgs, Error>) {
        let dict = &Dictionary::of_fields(obj)?;
        let buffer = dict.required::<Buffer>("buf")?;
        let data = dict.or_default::<Object>("data", Object::Nil)?;
        let event = dict.required::<String>("event")?;
        let file = dict.required::<String>("file")?;
        let group = dict.optional::<u32>("group")?;
        let id = dict.required::<u32>("id")?;
        let amatch = dict.required::<String>("match")?;
        Ok(AutocmdCallbackArgs { buffer, data, event, file, group, id, amatch })
    }
}

impl AutocmdCallbackArgs {
    /// A pair under a key that names no field, wherever it is put among
    /// the pairs, changes nothing of what is read.
    pub proof fn lemma_unknown_key_is_ignored(
        pairs: Seq<(Value, Value)>,
        at: int,
        extra: (Value, Value),
    )
        requires
            0 <= at <= pairs.len(),
            extra.0 != key_of("buf"),
            extra.0 != key_of("data"),
            extra.0 != key_of("event"),
            extra.0 != key_of("file"),
            extra.0 != key_of("group"),
            extra.0 != key_of("id"),
            extra.0 != key_of("match"),
        ensures
            AutocmdCallbackArgs::decoded(Value::Dictionary(pairs.insert(at, extra)))
                == AutocmdCallbackArgs::decoded(Value::Dictionary(pairs)),
    {
        lemma_field_ignores_other_key::<Buffer>(pairs, at, extra, "buf");
        lemma_field_ignores_other_key::<Object>(pairs, at, extra, "data");
        lemma_field_ignores_other_key::<String>(pairs, at, extra, "event");
        lemma_field_ignores_other_key::<String>(pairs, at, extra, "file");
        lemma_field_ignores_other_key::<u32>(pairs, at, extra, "group");
        lemma_field_ignores_other_key::<u32>(pairs, at, extra, "id");
        lemma_field_ignores_other_key::<String>(pairs, at, extra, "match");
    }
}

} // verus!
