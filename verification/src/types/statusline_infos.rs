use crate::bridge::{fields_of, key_of, lemma_field_ignores_other_key, or_default, required};
use crate::conversion::{Error, FromObject};
use crate::object::{Dictionary, Object, Value};
use crate::types::statusline_highlight_infos::{
    StatuslineHighlightInfos, StatuslineHighlightInfosView,
};
use vstd::prelude::*;

verus! {

/// An evaluated statusline.
#[derive(Clone, Debug, PartialEq, Eq, Hash)]
pub struct StatuslineInfos {
    /// The highlight groups of the statusline, where they were asked for.
    pub highlights: Vec<StatuslineHighlightInfos>,
    /// The characters shown in the statusline.
    pub str: String,
    /// The display width of the statusline.
    pub width: u32,
}

/// The model of a [`StatuslineInfos`].
pub struct StatuslineInfosView {
    pub highlights: Seq<StatuslineHighlightInfosView>,
    pub str: Seq<char>,
    pub width: u32,
}

impl DeepView for StatuslineInfos {
    type V = StatuslineInfosView;

    open spec fn deep_view(&self) -> StatuslineInfosView {
        StatuslineInfosView {
            highlights: self.highlights.deep_view(),
            str: self.str.deep_view(),
            width: self.width.deep_view(),
        }
    }
}

impl FromObject for StatuslineInfos {
    open spec fn decoded(value: Value) -> Result<StatuslineInfosView, Error> {
        match fields_of(value) {
            Err(e) => Err(e),
            Ok(pairs) => {
                let highlights = or_default::<Vec<StatuslineHighlightInfos>>(pairs, "highlights", Seq::empty());
                let str = required::<String>(pairs, "str");
                let width = required::<u32>(pairs, "width");
                if highlights is Err {
                    Err(highlights->Err_0)
                } else if str is Err {
                    Err(str->Err_0)
                } else if width is Err {
                    Err(width->Err_0)
                } else {
                    Ok(
                        StatuslineInfosView {
                            highlights: highlights->Ok_0,
                            str: str->Ok_0,
                            width: width->Ok_0,
                        },
                    )
                }
            },
        }
    }

    fn from_object(obj: Object) -> (r: Result<StatuslineInfos, Error>) {
        let dict = &Dictionary::of_fields(obj)?;
        let none: Vec<StatuslineHighlightInfos> = Vec::new();
        assert(none.deep_view() =~= Seq::empty());
        let highlights = dict.or_default::<Vec<StatuslineHighlightInfos>>("highlights", none)?;
        let str = dict.required::<String>("str")?;
        let width = dict.required::<u32>("width")?;
        Ok(StatuslineInfos { highlights, str, width })
    }
}

impl StatuslineInfos {
    /// A pair under a key that names no field, wherever it is put among
    /// the pairs, changes nothing of what is read.
    pub proof fn lemma_unknown_key_is_ignored(
        pairs: Seq<(Value, Value)>,
        at: int,
        extra: (Value, Value),
    )
        requires
            0 <= at <= pairs.len(),
            extra.0 != key_of("highlights"),
            extra.0 != key_of("str"),
            extra.0 != key_of("width"),
        ensures
            StatuslineInfos::decoded(Value::Dictionary(pairs.insert(at, extra)))
                == StatuslineInfos::decoded(Value::Dictionary(pairs)),
    {
        lemma_field_ignores_other_key::<Vec<StatuslineHighlightInfos>>(
            pairs,
            at,
            extra,
            "highlights",
        );
        lemma_field_ignores_other_key::<String>(pairs, at, extra, "str");
        lemma_field_ignores_other_key::<u32>(pairs, at, extra, "width");
    }
}

} // verus!
