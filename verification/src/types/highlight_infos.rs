use crate::bridge::{fields_of, key_of, lemma_field_ignores_other_key, optional};
use crate::conversion::{Error, FromObject, modelled};
use crate::object::{Dictionary, Object, Value};
use vstd::prelude::*;

verus! {

/// The attributes of a highlight group.
#[derive(Clone, Debug, PartialEq, Eq)]
pub struct HighlightInfos {
    pub background: Option<u32>,
    pub bg_indexed: Option<bool>,
    pub blend: Option<u32>,
    pub bold: Option<bool>,
    pub fg_indexed: Option<bool>,
    pub foreground: Option<u32>,
    pub italic: Option<bool>,
    pub reverse: Option<bool>,
    pub special: Option<u32>,
    pub standout: Option<bool>,
    pub strikethrough: Option<bool>,
    pub undercurl: Option<bool>,
    pub underdash: Option<bool>,
    pub underdot: Option<bool>,
    pub underline: Option<bool>,
    pub underlineline: Option<bool>,
}

/// The model of a [`HighlightInfos`].
pub struct HighlightInfosView {
    pub background: Option<u32>,
    pub bg_indexed: Option<bool>,
    pub blend: Option<u32>,
    pub bold: Option<bool>,
    pub fg_indexed: Option<bool>,
    pub foreground: Option<u32>,
    pub italic: Option<bool>,
    pub reverse: Option<bool>,
    pub special: Option<u32>,
    pub standout: Option<bool>,
    pub strikethrough: Option<bool>,
    pub undercurl: Option<bool>,
    pub underdash: Option<bool>,
    pub underdot: Option<bool>,
    pub underline: Option<bool>,
    pub underlineline: Option<bool>,
}

impl DeepView for HighlightInfos {
    type V = HighlightInfosView;

    open spec fn deep_view(&self) -> HighlightInfosView {
        HighlightInfosView {
            background: self.background.deep_view(),
            bg_indexed: self.bg_indexed.deep_view(),
            blend: self.blend.deep_view(),
            bold: self.bold.deep_view(),
            fg_indexed: self.fg_indexed.deep_view(),
            foreground: self.foreground.deep_view(),
            italic: self.italic.deep_view(),
            reverse: self.reverse.deep_view(),
            special: self.special.deep_view(),
            standout: self.standout.deep_view(),
            strikethrough: self.strikethrough.deep_view(),
            undercurl: self.undercurl.deep_view(),
            underdash: self.underdash.deep_view(),
            underdot: self.underdot.deep_view(),
            underline: self.underline.deep_view(),
            underlineline: self.underlineline.deep_view(),
        }
    }
}

impl HighlightInfos {
    /// What reading the fields from `special` on yields, given those before
    /// it.
    pub open spec fn decoded_from_special(
        pairs: Seq<(Value, Value)>,
        background: Option<u32>,
        bg_indexed: Option<bool>,
        blend: Option<u32>,
        bold: Option<bool>,
        fg_indexed: Option<bool>,
        foreground: Option<u32>,
        italic: Option<bool>,
        reverse: Option<bool>,
    ) -> Result<HighlightInfosView, Error> {
        let special = optional::<u32>(pairs, "special");
        let standout = optional::<bool>(pairs, "standout");
        let strikethrough = optional::<bool>(pairs, "strikethrough");
        let undercurl = optional::<bool>(pairs, "undercurl");
        let underdash = optional::<bool>(pairs, "underdash");
        let underdot = optional::<bool>(pairs, "underdot");
        let underline = optional::<bool>(pairs, "underline");
        let underlineline = optional::<bool>(pairs, "underlineline");
        if special is Err {
            Err(special->Err_0)
        } else if standout is Err {
            Err(standout->Err_0)
        } else if strikethrough is Err {
            Err(strikethrough->Err_0)
        } else if undercurl is Err {
            Err(undercurl->Err_0)
        } else if underdash is Err {
            Err(underdash->Err_0)
        } else if underdot is Err {
            Err(underdot->Err_0)
        } else if underline is Err {
            Err(underline->Err_0)
        } else if underlineline is Err {
            Err(underlineline->Err_0)
        } else {
            Ok(
                HighlightInfosView {
                    background,
                    bg_indexed,
                    blend,
                    bold,
                    fg_indexed,
                    foreground,
                    italic,
                    reverse,
                    special: special->Ok_0,
                    standout: standout->Ok_0,
                    strikethrough: strikethrough->Ok_0,
                    undercurl: undercurl->Ok_0,
                    underdash: underdash->Ok_0,
                    underdot: underdot->Ok_0,
                    underline: underline->Ok_0,
                    underlineline: underlineline->Ok_0,
                },
            )
        }
    }

    /// Reads the fields from `special` on. The struct is read in stages, so
    /// that each stage is proved by itself.
    fn read_from_special(
        dict: &Dictionary,
        background: Option<u32>,
        bg_indexed: Option<bool>,
        blend: Option<u32>,
        bold: Option<bool>,
        fg_indexed: Option<bool>,
        foreground: Option<u32>,
        italic: Option<bool>,
        reverse: Option<bool>,
    ) -> (r: Result<HighlightInfos, Error>)
        ensures
            modelled(r) == HighlightInfos::decoded_from_special(
                dict@,
                background.deep_view(),
                bg_indexed.deep_view(),
                blend.deep_view(),
                bold.deep_view(),
                fg_indexed.deep_view(),
                foreground.deep_view(),
                italic.deep_view(),
                reverse.deep_view(),
            ),
    {
        let special = dict.optional::<u32>("special")?;
        let standout = dict.optional::<bool>("standout")?;
        let strikethrough = dict.optional::<bool>("strikethrough")?;
        let undercurl = dict.optional::<bool>("undercurl")?;
        let underdash = dict.optional::<bool>("underdash")?;
        let underdot = dict.optional::<bool>("underdot")?;
        let underline = dict.optional::<bool>("underline")?;
        let underlineline = dict.optional::<bool>("underlineline")?;
        Ok(
            HighlightInfos {
                background,
                bg_indexed,
                blend,
                bold,
                fg_indexed,
                foreground,
                italic,
                reverse,
                special,
                standout,
                strikethrough,
                undercurl,
                underdash,
                underdot,
                underline,
                underlineline,
            },
        )
    }
}

impl FromObject for HighlightInfos {
    open spec fn decoded(value: Value) -> Result<HighlightInfosView, Error> {
        match fields_of(value) {
            Err(e) => Err(e),
            Ok(pairs) => {
                let background = optional::<u32>(pairs, "background");
                let bg_indexed = optional::<bool>(pairs, "bg_indexed");
                let blend = optional::<u32>(pairs, "blend");
                let bold = optional::<bool>(pairs, "bold");
                let fg_indexed = optional::<bool>(pairs, "fg_indexed");
                let foreground = optional::<u32>(pairs, "foreground");
                let italic = optional::<bool>(pairs, "italic");
                let reverse = optional::<bool>(pairs, "reverse");
                if background is Err {
                    Err(background->Err_0)
                } else if bg_indexed is Err {
                    Err(bg_indexed->Err_0)
                } else if blend is Err {
                    Err(blend->Err_0)
                } else if bold is Err {
                    Err(bold->Err_0)
                } else if fg_indexed is Err {
                    Err(fg_indexed->Err_0)
                } else if foreground is Err {
                    Err(foreground->Err_0)
                } else if italic is Err {
                    Err(italic->Err_0)
                } else if reverse is Err {
                    Err(reverse->Err_0)
                } else {
                    HighlightInfos::decoded_from_special(
                        pairs,
                        background->Ok_0,
                        bg_indexed->Ok_0,
                        blend->Ok_0,
                        bold->Ok_0,
                        fg_indexed->Ok_0,
                        foreground->Ok_0,
                        italic->Ok_0,
                        reverse->Ok_0,
                    )
                }
            },
        }
    }

    fn from_object(obj: Object) -> (r: Result<HighlightInfos, Error>) {
        let dict = &Dictionary::of_fields(obj)?;
        let background = dict.optional::<u32>("background")?;
        let bg_indexed = dict.optional::<bool>("bg_indexed")?;
        let blend = dict.optional::<u32>("blend")?;
        let bold = dict.optional::<bool>("bold")?;
        let fg_indexed = dict.optional::<bool>("fg_indexed")?;
        let foreground = dict.optional::<u32>("foreground")?;
        let italic = dict.optional::<bool>("italic")?;
        let reverse = dict.optional::<bool>("reverse")?;
        HighlightInfos::read_from_special(
            dict,
            background,
            bg_indexed,
            blend,
            bold,
            fg_indexed,
            foreground,
            italic,
            reverse,
        )
    }
}

impl HighlightInfos {
    /// A pair under a key that names no field, wherever it is put among
    /// the pairs, changes nothing of what is read.
    pub proof fn lemma_unknown_key_is_ignored(
        pairs: Seq<(Value, Value)>,
        at: int,
        extra: (Value, Value),
    )
        requires
            0 <= at <= pairs.len(),
            extra.0 != key_of("background"),
            extra.0 != key_of("bg_indexed"),
            extra.0 != key_of("blend"),
            extra.0 != key_of("bold"),
            extra.0 != key_of("fg_indexed"),
            extra.0 != key_of("foreground"),
            extra.0 != key_of("italic"),
            extra.0 != key_of("reverse"),
            extra.0 != key_of("special"),
            extra.0 != key_of("standout"),
            extra.0 != key_of("strikethrough"),
            extra.0 != key_of("undercurl"),
            extra.0 != key_of("underdash"),
            extra.0 != key_of("underdot"),
            extra.0 != key_of("underline"),
            extra.0 != key_of("underlineline"),
        ensures
            HighlightInfos::decoded(Value::Dictionary(pairs.insert(at, extra)))
                == HighlightInfos::decoded(Value::Dictionary(pairs)),
    {
        lemma_field_ignores_other_key::<u32>(pairs, at, extra, "background");
        lemma_field_ignores_other_key::<bool>(pairs, at, extra, "bg_indexed");
        lemma_field_ignores_other_key::<u32>(pairs, at, extra, "blend");
        lemma_field_ignores_other_key::<bool>(pairs, at, extra, "bold");
        lemma_field_ignores_other_key::<bool>(pairs, at, extra, "fg_indexed");
        lemma_field_ignores_other_key::<u32>(pairs, at, extra, "foreground");
        lemma_field_ignores_other_key::<bool>(pairs, at, extra, "italic");
        lemma_field_ignores_other_key::<bool>(pairs, at, extra, "reverse");
        lemma_field_ignores_other_key::<u32>(pairs, at, extra, "special");
        lemma_field_ignores_other_key::<bool>(pairs, at, extra, "standout");
        lemma_field_ignores_other_key::<bool>(pairs, at, extra, "strikethrough");
        lemma_field_ignores_other_key::<bool>(pairs, at, extra, "undercurl");
        lemma_field_ignores_other_key::<bool>(pairs, at, extra, "underdash");
        lemma_field_ignores_other_key::<bool>(pairs, at, extra, "underdot");
        lemma_field_ignores_other_key::<bool>(pairs, at, extra, "underline");
        lemma_field_ignores_other_key::<bool>(pairs, at, extra, "underlineline");
    }
}

} // verus!
