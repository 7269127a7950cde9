use crate::bridge::{fields_of, key_of, lemma_field_ignores_other_key, required};
use crate::conversion::{Error, FromObject};
use crate::object::{Dictionary, Object, Value};
use crate::types::mode::Mode;
use vstd::prelude::*;

verus! {

/// The mode that Neovim is in, and whether it waits for input.
#[derive(Clone, Debug, PartialEq, Eq, Hash)]
pub struct GotMode {
    pub blocking: bool,
    pub mode: Mode,
}

/// The model of a [`GotMode`].
pub struct GotModeView {
    pub blocking: bool,
    pub mode: Mode,
}

impl DeepView for GotMode {
    type V = GotModeView;

    open spec fn deep_view(&self) -> GotModeView {
        GotModeView {
            blocking: self.blocking.deep_view(),
            mode: self.mode.deep_view(),
        }
    }
}

impl FromObject for GotMode {
    open spec fn decoded(value: Value) -> Result<GotModeView, Error> {
        match fields_of(value) {
            Err(e) => Err(e),
            Ok(pairs) => {
                let blocking = required::<bool>(pairs, "blocking");
                let mode = required::<Mode>(pairs, "mode");
                if blocking is Err {
                    Err(blocking->Err_0)
                } else if mode is Err {
                    Err(mode->Err_0)
                } else {
                    Ok(
                        GotModeView {
                            blocking: blocking->Ok_0,
                            mode: mode->Ok_0,
                        },
                    )
                }
            },
        }
    }

    fn from_object(obj: Object) -> (r: Result<GotMode, Error>) {
        let dict = &Dictionary::of_fields(obj)?;
        let blocking = dict.required::<bool>("blocking")?;
        let mode = dict.required::<Mode>("mode")?;
        Ok(GotMode { blocking, mode })
    }
}

impl GotMode {
    /// A pair under a key that names no field, wherever it is put among
    /// the pairs, changes nothing of what is read.
    pub proof fn lemma_unknown_key_is_ignored(
        pairs: Seq<(Value, Value)>,
        at: int,
        extra: (Value, Value),
    )
        requires
            0 <= at <= pairs.len(),
            extra.0 != key_of("blocking"),
            extra.0 != key_of("mode"),
        ensures
            GotMode::decoded(Value::Dictionary(pairs.insert(at, extra)))
                == GotMode::decoded(Value::Dictionary(pairs)),
    {
        lemma_field_ignores_other_key::<bool>(pairs, at, extra, "blocking");
        lemma_field_ignores_other_key::<Mode>(pairs, at, extra, "mode");
    }
}

} // verus!
