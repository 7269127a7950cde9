use crate::bridge::{fields_of, key_of, lemma_field_ignores_other_key, required};
use crate::conversion::{Error, FromObject};
use crate::object::{Dictionary, Object, Value};
use vstd::prelude::*;

verus! {

/// A highlight group of a statusline and where it starts.
#[derive(Clone, Debug, PartialEq, Eq, Hash)]
pub struct StatuslineHighlightInfos {
    pub group: String,
    pub start: usize,
}

/// The model of a [`StatuslineHighlightInfos`].
pub struct StatuslineHighlightInfosView {
    pub group: Seq<char>,
    pub start: usize,
}

impl DeepView for StatuslineHighlightInfos {
    type V = StatuslineHighlightInfosView;

    open spec fn deep_view(&self) -> StatuslineHighlightInfosView {
        StatuslineHighlightInfosView {
            group: self.group.deep_view(),
            start: self.start.deep_view(),
        }
    }
}

impl FromObject for StatuslineHighlightInfos {
    open spec fn decoded(value: Value) -> Result<StatuslineHighlightInfosView, Error> {
        match fields_of(value) {
            Err(e) => Err(e),
            Ok(pairs) => {
                let group = required::<String>(pairs, "group");
                let start = required::<usize>(pairs, "start");
                if group is Err {
                    Err(group->Err_0)
                } else if start is Err {
                    Err(start->Err_0)
                } else {
                    Ok(
                        StatuslineHighlightInfosView {
                            group: group->Ok_0,
                            start: start->Ok_0,
                        },
                    )
                }
            },
        }
    }

    fn from_object(obj: Object) -> (r: Result<StatuslineHighlightInfos, Error>) {
        let dict = &Dictionary::of_fields(obj)?;
        let group = dict.required::<String>("group")?;
        let start = dict.required::<usize>("start")?;
        Ok(StatuslineHighlightInfos { group, start })
    }
}

impl StatuslineHighlightInfos {
    /// A pair under a key that names no field, wherever it is put among
    /// the pairs, changes nothing of what is read.
    pub proof fn lemma_unknown_key_is_ignored(
        pairs: Seq<(Value, Value)>,
        at: int,
        extra: (Value, Value),
    )
        requires
            0 <= at <= pairs.len(),
            extra.0 != key_of("group"),
            extra.0 != key_of("start"),
        ensures
            StatuslineHighlightInfos::decoded(Value::Dictionary(pairs.insert(at, extra)))
                == StatuslineHighlightInfos::decoded(Value::Dictionary(pairs)),
    {
        lemma_field_ignores_other_key::<String>(pairs, at, extra, "group");
        lemma_field_ignores_other_key::<usize>(pairs, at, extra, "start");
    }
}

} // verus!
