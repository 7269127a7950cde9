use crate::bridge::{fields_of, key_of, lemma_field_ignores_other_key, optional, required};
use crate::conversion::{Error, FromObject, modelled};
use crate::object::{Dictionary, Object, Value};
use crate::types::extmark_hl_mode::ExtmarkHlMode;
use crate::types::extmark_virt_text_position::ExtmarkVirtTextPosition;
use vstd::prelude::*;

verus! {

/// The details of an extmark.
#[derive(Clone, Debug, PartialEq, Eq, Hash)]
pub struct ExtmarkInfos {
    pub end_col: Option<usize>,
    pub end_right_gravity: Option<bool>,
    pub end_row: Option<usize>,
    pub hl_eol: Option<bool>,
    pub hl_group: Option<String>,
    pub hl_mode: Option<ExtmarkHlMode>,
    pub priority: Option<u32>,
    pub right_gravity: bool,
    pub ui_watched: Option<bool>,
    pub virt_lines: Option<Vec<Vec<(String, String)>>>,
    pub virt_lines_above: Option<bool>,
    pub virt_lines_leftcol: Option<bool>,
    pub virt_text: Option<Vec<(String, String)>>,
    pub virt_text_hide: Option<bool>,
    pub virt_text_pos: Option<ExtmarkVirtTextPosition>,
    pub virt_text_win_col: Option<i64>,
}

/// The model of a [`ExtmarkInfos`].
pub struct ExtmarkInfosView {
    pub end_col: Option<usize>,
    pub end_right_gravity: Option<bool>,
    pub end_row: Option<usize>,
    pub hl_eol: Option<bool>,
    pub hl_group: Option<Seq<char>>,
    pub hl_mode: Option<ExtmarkHlMode>,
    pub priority: Option<u32>,
    pub right_gravity: bool,
    pub ui_watched: Option<bool>,
    pub virt_lines: Option<Seq<Seq<(Seq<char>, Seq<char>)>>>,
    pub virt_lines_above: Option<bool>,
    pub virt_lines_leftcol: Option<bool>,
    pub virt_text: Option<Seq<(Seq<char>, Seq<char>)>>,
    pub virt_text_hide: Option<bool>,
    pub virt_text_pos: Option<ExtmarkVirtTextPosition>,
    pub virt_text_win_col: Option<i64>,
}

impl DeepView for ExtmarkInfos {
    type V = ExtmarkInfosView;

    open spec fn deep_view(&self) -> ExtmarkInfosView {
        ExtmarkInfosView {
            end_col: self.end_col.deep_view(),
            end_right_gravity: self.end_right_gravity.deep_view(),
            end_row: self.end_row.deep_view(),
            hl_eol: self.hl_eol.deep_view(),
            hl_group: self.hl_group.deep_view(),
            hl_mode: self.hl_mode.deep_view(),
            priority: self.priority.deep_view(),
            right_gravity: self.right_gravity.deep_view(),
            ui_watched: self.ui_watched.deep_view(),
            virt_lines: self.virt_lines.deep_view(),
            virt_lines_above: self.virt_lines_above.deep_view(),
            virt_lines_leftcol: self.virt_lines_leftcol.deep_view(),
            virt_text: self.virt_text.deep_view(),
            virt_text_hide: self.virt_text_hide.deep_view(),
            virt_text_pos: self.virt_text_pos.deep_view(),
            virt_text_win_col: self.virt_text_win_col.deep_view(),
        }
    }
}

impl ExtmarkInfos {
    /// What reading the fields from `ui_watched` on yields, given those before
    /// it.
    pub open spec fn decoded_from_ui_watched(
        pairs: Seq<(Value, Value)>,
        end_col: Option<usize>,
        end_right_gravity: Option<bool>,
        end_row: Option<usize>,
        hl_eol: Option<bool>,
        hl_group: Option<Seq<char>>,
        hl_mode: Option<ExtmarkHlMode>,
        priority: Option<u32>,
        right_gravity: bool,
    ) -> Result<ExtmarkInfosView, Error> {
        let ui_watched = optional::<bool>(pairs, "ui_watched");
        let virt_lines = optional::<Vec<Vec<(String, String)>>>(pairs, "virt_lines");
        let virt_lines_above = optional::<bool>(pairs, "virt_lines_above");
        let virt_lines_leftcol = optional::<bool>(pairs, "virt_lines_leftcol");
        let virt_text = optional::<Vec<(String, String)>>(pairs, "virt_text");
        let virt_text_hide = optional::<bool>(pairs, "virt_text_hide");
        let virt_text_pos = optional::<ExtmarkVirtTextPosition>(pairs, "virt_text_pos");
        let virt_text_win_col = optional::<i64>(pairs, "virt_text_win_col");
        if ui_watched is Err {
            Err(ui_watched->Err_0)
        } else if virt_lines is Err {
            Err(virt_lines->Err_0)
        } else if virt_lines_above is Err {
            Err(virt_lines_above->Err_0)
        } else if virt_lines_leftcol is Err {
            Err(virt_lines_leftcol->Err_0)
        } else if virt_text is Err {
            Err(virt_text->Err_0)
        } else if virt_text_hide is Err {
            Err(virt_text_hide->Err_0)
        } else if virt_text_pos is Err {
            Err(virt_text_pos->Err_0)
        } else if virt_text_win_col is Err {
            Err(virt_text_win_col->Err_0)
        } else {
            Ok(
                ExtmarkInfosView {
                    end_col,
                    end_right_gravity,
                    end_row,
                    hl_eol,
                    hl_group,
                    hl_mode,
                    priority,
                    right_gravity,
                    ui_watched: ui_watched->Ok_0,
                    virt_lines: virt_lines->Ok_0,
                    virt_lines_above: virt_lines_above->Ok_0,
                    virt_lines_leftcol: virt_lines_leftcol->Ok_0,
                    virt_text: virt_text->Ok_0,
                    virt_text_hide: virt_text_hide->Ok_0,
                    virt_text_pos: virt_text_pos->Ok_0,
                    virt_text_win_col: virt_text_win_col->Ok_0,
                },
            )
        }
    }

    /// Reads the fields from `ui_watched` on. The struct is read in stages, so
    /// that each stage is proved by itself.
    fn read_from_ui_watched(
        dict: &Dictionary,
        end_col: Option<usize>,
        end_right_gravity: Option<bool>,
        end_row: Option<usize>,
        hl_eol: Option<bool>,
        hl_group: Option<String>,
        hl_mode: Option<ExtmarkHlMode>,
        priority: Option<u32>,
        right_gravity: bool,
    ) -> (r: Result<ExtmarkInfos, Error>)
        ensures
            modelled(r) == ExtmarkInfos::decoded_from_ui_watched(
                dict@,
                end_col.deep_view(),
                end_right_gravity.deep_view(),
                end_row.deep_view(),
                hl_eol.deep_view(),
                hl_group.deep_view(),
                hl_mode.deep_view(),
                priority.deep_view(),
                right_gravity.deep_view(),
            ),
    {
        let ui_watched = dict.optional::<bool>("ui_watched")?;
        let virt_lines = dict.optional::<Vec<Vec<(String, String)>>>("virt_lines")?;
        let virt_lines_above = dict.optional::<bool>("virt_lines_above")?;
        let virt_lines_leftcol = dict.optional::<bool>("virt_lines_leftcol")?;
        let virt_text = dict.optional::<Vec<(String, String)>>("virt_text")?;
        let virt_text_hide = dict.optional::<bool>("virt_text_hide")?;
        let virt_text_pos = dict.optional::<ExtmarkVirtTextPosition>("virt_text_pos")?;
        let virt_text_win_col = dict.optional::<i64>("virt_text_win_col")?;
        Ok(
            ExtmarkInfos {
                end_col,
                end_right_gravity,
                end_row,
                hl_eol,
                hl_group,
                hl_mode,
                priority,
                right_gravity,
                ui_watched,
                virt_lines,
                virt_lines_above,
                virt_lines_leftcol,
                virt_text,
                virt_text_hide,
                virt_text_pos,
                virt_text_win_col,
            },
        )
    }
}

impl FromObject for ExtmarkInfos {
    open spec fn decoded(value: Value) -> Result<ExtmarkInfosView, Error> {
        match fields_of(value) {
            Err(e) => Err(e),
            Ok(pairs) => {
                let end_col = optional::<usize>(pairs, "end_col");
                let end_right_gravity = optional::<bool>(pairs, "end_right_gravity");
                let end_row = optional::<usize>(pairs, "end_row");
                let hl_eol = optional::<bool>(pairs, "hl_eol");
                let hl_group = optional::<String>(pairs, "hl_group");
                let hl_mode = optional::<ExtmarkHlMode>(pairs, "hl_mode");
                let priority = optional::<u32>(pairs, "priority");
                let right_gravity = required::<bool>(pairs, "right_gravity");
                if end_col is Err {
                    Err(end_col->Err_0)
                } else if end_right_gravity is Err {
                    Err(end_right_gravity->Err_0)
                } else if end_row is Err {
                    Err(end_row->Err_0)
                } else if hl_eol is Err {
                    Err(hl_eol->Err_0)
                } else if hl_group is Err {
                    Err(hl_group->Err_0)
                } else if hl_mode is Err {
                    Err(hl_mode->Err_0)
                } else if priority is Err {
                    Err(priority->Err_0)
                } else if right_gravity is Err {
                    Err(right_gravity->Err_0)
                } else {
                    ExtmarkInfos::decoded_from_ui_watched(
                        pairs,
                        end_col->Ok_0,
                        end_right_gravity->Ok_0,
                        end_row->Ok_0,
                        hl_eol->Ok_0,
                        hl_group->Ok_0,
                        hl_mode->Ok_0,
                        priority->Ok_0,
                        right_gravity->Ok_0,
                    )
                }
            },
        }
    }

    fn from_object(obj: Object) -> (r: Result<ExtmarkInfos, Error>) {
        let dict = &Dictionary::of_fields(obj)?;
        let end_col = dict.optional::<usize>("end_col")?;
        let end_right_gravity = dict.optional::<bool>("end_right_gravity")?;
        let end_row = dict.optional::<usize>("end_row")?;
        let hl_eol = dict.optional::<bool>("hl_eol")?;
        let hl_group = dict.optional::<String>("hl_group")?;
        let hl_mode = dict.optional::<ExtmarkHlMode>("hl_mode")?;
        let priority = dict.optional::<u32>("priority")?;
        let right_gravity = dict.required::<bool>("right_gravity")?;
        ExtmarkInfos::read_from_ui_watched(
            dict,
            end_col,
            end_right_gravity,
            end_row,
            hl_eol,
            hl_group,
            hl_mode,
            priority,
            right_gravity,
        )
    }
}

impl ExtmarkInfos {
    /// A pair under a key that names no field, wherever it is put among
    /// the pairs, changes nothing of what is read.
    pub proof fn lemma_unknown_key_is_ignored(
        pairs: Seq<(Value, Value)>,
        at: int,
        extra: (Value, Value),
    )
        requires
            0 <= at <= pairs.len(),
            extra.0 != key_of("end_col"),
            extra.0 != key_of("end_right_gravity"),
            extra.0 != key_of("end_row"),
            extra.0 != key_of("hl_eol"),
            extra.0 != key_of("hl_group"),
            extra.0 != key_of("hl_mode"),
            extra.0 != key_of("priority"),
            extra.0 != key_of("right_gravity"),
            extra.0 != key_of("ui_watched"),
            extra.0 != key_of("virt_lines"),
            extra.0 != key_of("virt_lines_above"),
            extra.0 != key_of("virt_lines_leftcol"),
            extra.0 != key_of("virt_text"),
            extra.0 != key_of("virt_text_hide"),
            extra.0 != key_of("virt_text_pos"),
            extra.0 != key_of("virt_text_win_col"),
        ensures
            ExtmarkInfos::decoded(Value::Dictionary(pairs.insert(at, extra)))
                == ExtmarkInfos::decoded(Value::Dictionary(pairs)),
    {
        lemma_field_ignores_other_key::<usize>(pairs, at, extra, "end_col");
        lemma_field_ignores_other_key::<bool>(pairs, at, extra, "end_right_gravity");
        lemma_field_ignores_other_key::<usize>(pairs, at, extra, "end_row");
        lemma_field_ignores_other_key::<bool>(pairs, at, extra, "hl_eol");
        lemma_field_ignores_other_key::<String>(pairs, at, extra, "hl_group");
        lemma_field_ignores_other_key::<ExtmarkHlMode>(pairs, at, extra, "hl_mode");
        lemma_field_ignores_other_key::<u32>(pairs, at, extra, "priority");
        lemma_field_ignores_other_key::<bool>(pairs, at, extra, "right_gravity");
        lemma_field_ignores_other_key::<bool>(pairs, at, extra, "ui_watched");
        lemma_field_ignores_other_key::<Vec<Vec<(String, String)>>>(pairs, at, extra, "virt_lines");
        lemma_field_ignores_other_key::<bool>(pairs, at, extra, "virt_lines_above");
        lemma_field_ignores_other_key::<bool>(pairs, at, extra, "virt_lines_leftcol");
        lemma_field_ignores_other_key::<Vec<(String, String)>>(pairs, at, extra, "virt_text");
        lemma_field_ignores_other_key::<bool>(pairs, at, extra, "virt_text_hide");
        lemma_field_ignores_other_key::<ExtmarkVirtTextPosition>(pairs, at, extra, "virt_text_pos");
        lemma_field_ignores_other_key::<i64>(pairs, at, extra, "virt_text_win_col");
    }
}

} // verus!
