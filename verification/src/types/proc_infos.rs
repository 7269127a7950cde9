use crate::bridge::{
    Absent, as_dictionary, fields_of, key_of, lemma_field_ignores_other_key, lemma_keys_differ,
    lemma_missing_field, lemma_present_field, optional, written_optional,
};
use crate::conversion::{Error, FromObject, ToObject};
use crate::object::{Dictionary, Object, Value};
use vstd::prelude::*;
use vstd::utf8::{encode_utf8_decode_utf8, encode_utf8_valid_utf8};

verus! {

/// What is known of a process.
#[derive(Clone, Debug, PartialEq, Eq, Hash)]
pub struct ProcInfos {
    pub name: Option<String>,
    pub pid: Option<u32>,
    pub ppid: Option<u32>,
}

/// The model of a [`ProcInfos`].
pub struct ProcInfosView {
    pub name: Option<Seq<char>>,
    pub pid: Option<u32>,
    pub ppid: Option<u32>,
}

impl DeepView for ProcInfos {
    type V = ProcInfosView;

    open spec fn deep_view(&self) -> ProcInfosView {
        ProcInfosView {
            name: self.name.deep_view(),
            pid: self.pid.deep_view(),
            ppid: self.ppid.deep_view(),
        }
    }
}

impl FromObject for ProcInfos {
    open spec fn decoded(value: Value) -> Result<ProcInfosView, Error> {
        match fields_of(value) {
            Err(e) => Err(e),
            Ok(pairs) => {
                let name = optional::<String>(pairs, "name");
                let pid = optional::<u32>(pairs, "pid");
                let ppid = optional::<u32>(pairs, "ppid");
                if name is Err {
                    Err(name->Err_0)
                } else if pid is Err {
                    Err(pid->Err_0)
                } else if ppid is Err {
                    Err(ppid->Err_0)
                } else {
                    Ok(
                        ProcInfosView {
                            name: name->Ok_0,
                            pid: pid->Ok_0,
                            ppid: ppid->Ok_0,
                        },
                    )
                }
            },
        }
    }

    fn from_object(obj: Object) -> (r: Result<ProcInfos, Error>) {
        let dict = &Dictionary::of_fields(obj)?;
        let name = dict.optional::<String>("name")?;
        let pid = dict.optional::<u32>("pid")?;
        let ppid = dict.optional::<u32>("ppid")?;
        Ok(ProcInfos { name, pid, ppid })
    }
}

impl ProcInfos {
    /// A pair under a key that names no field, wherever it is put among
    /// the pairs, changes nothing of what is read.
    pub proof fn lemma_unknown_key_is_ignored(
        pairs: Seq<(Value, Value)>,
        at: int,
        extra: (Value, Value),
    )
        requires
            0 <= at <= pairs.len(),
            extra.0 != key_of("name"),
            extra.0 != key_of("pid"),
            extra.0 != key_of("ppid"),
        ensures
            ProcInfos::decoded(Value::Dictionary(pairs.insert(at, extra)))
                == ProcInfos::decoded(Value::Dictionary(pairs)),
    {
        lemma_field_ignores_other_key::<String>(pairs, at, extra, "name");
        lemma_field_ignores_other_key::<u32>(pairs, at, extra, "pid");
        lemma_field_ignores_other_key::<u32>(pairs, at, extra, "ppid");
    }
}

impl ToObject for ProcInfos {
    open spec fn encoded(model: ProcInfosView) -> Result<Value, Error> {
        as_dictionary(
            match written_optional::<String>(Seq::empty(), "name", model.name, Absent::Omit) {
                Err(e) => Err(e),
                Ok(pairs) => match written_optional::<u32>(pairs, "pid", model.pid, Absent::Omit) {
                    Err(e) => Err(e),
                    Ok(pairs) => written_optional::<u32>(pairs, "ppid", model.ppid, Absent::Omit),
                },
            },
        )
    }

    fn to_object(self) -> (r: Result<Object, Error>) {
        let dict = Dictionary::new();
        let dict = dict.with_optional("name", self.name, Absent::Omit)?;
        let dict = dict.with_optional("pid", self.pid, Absent::Omit)?;
        let dict = dict.with_optional("ppid", self.ppid, Absent::Omit)?;
        Ok(Object::Dictionary(dict))
    }
}

impl ProcInfos {
    /// Infos that are written as an object and read back are the same
    /// infos.
    pub proof fn lemma_round_trip(model: ProcInfosView)
        ensures
            ProcInfos::encoded(model) is Ok,
            ProcInfos::decoded(ProcInfos::encoded(model)->Ok_0)
                == Ok::<ProcInfosView, Error>(model),
    {
        reveal_strlit("name");
        reveal_strlit("pid");
        reveal_strlit("ppid");
        lemma_keys_differ("name", "pid");
        lemma_keys_differ("name", "ppid");
        lemma_keys_differ("pid", "ppid");
        let pairs = ProcInfos::encoded(model)->Ok_0->Dictionary_0;
        let pid_at: int = if model.name is Some {
            1
        } else {
            0
        };
        let ppid_at: int = if model.pid is Some {
            pid_at + 1
        } else {
            pid_at
        };
        if let Some(name) = model.name {
            encode_utf8_valid_utf8(name);
            encode_utf8_decode_utf8(name);
            lemma_present_field::<Option<String>>(pairs, "name", 0);
            lemma_present_field::<String>(pairs, "name", 0);
        } else {
            lemma_missing_field::<String>(pairs, "name");
        }
        if model.pid is Some {
            lemma_present_field::<u32>(pairs, "pid", pid_at);
        } else {
            lemma_missing_field::<u32>(pairs, "pid");
        }
        if model.ppid is Some {
            lemma_present_field::<u32>(pairs, "ppid", ppid_at);
        } else {
            lemma_missing_field::<u32>(pairs, "ppid");
        }
    }
}

} // verus!
