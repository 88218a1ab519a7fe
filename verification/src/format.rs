use vstd::prelude::*;

use crate::errors::{EmitError, EmitErrorV};
use crate::keymap::{KeyMap, KeyMapV};
use crate::text::{append_str, chars_string, eq_str, str_chars};

verus! {

/// A code emitter: a pure, deterministic transform from a keymap to one
/// backend's complete source text.
///
/// Each backend fixes its output as a function of the keymap model
/// alone, so emitting the same keymap twice yields byte-identical text.
/// A backend that cannot express a construct fails with an emission
/// error instead of producing partial output.
pub trait Format {
    /// The backend's output (or its emission failure) as a function of
    /// the keymap model.
    spec fn spec_format(km: KeyMapV) -> Result<Seq<char>, EmitErrorV>;

    /// Renders the keymap to this backend's source text.
    fn format(keymap: &KeyMap) -> (r: Result<String, EmitError>)
        ensures
            match r {
                Ok(s) => Self::spec_format(keymap@) == Ok::<Seq<char>, EmitErrorV>(s@),
                Err(e) => Self::spec_format(keymap@) == Err::<Seq<char>, EmitErrorV>(e@),
            },
    ;
}

/// The backend selected for one run.
#[derive(Debug, Clone, Copy, PartialEq, Eq, Structural)]
pub enum Target {
    QMK,
    ZMK,
}

/// The backend a target name selects: `qmk` or `zmk`, exactly.
pub open spec fn target_name(s: Seq<char>) -> Option<Target> {
    if s == "qmk"@ {
        Some(Target::QMK)
    } else if s == "zmk"@ {
        Some(Target::ZMK)
    } else {
        None
    }
}

/// The output the selected backend produces for a keymap.
pub open spec fn target_format_spec(t: Target, km: KeyMapV) -> Result<Seq<char>, EmitErrorV> {
    match t {
        Target::QMK => <crate::qmk::QMK as Format>::spec_format(km),
        Target::ZMK => <crate::zmk::ZMK as Format>::spec_format(km),
    }
}

impl Target {
    /// Selects a backend by name.
    pub fn of_name(s: &str) -> (r: Option<Target>)
        ensures
            r == target_name(s@),
    {
        let cs = str_chars(s);
        if eq_str(&cs, "qmk") {
            Some(Target::QMK)
        } else if eq_str(&cs, "zmk") {
            Some(Target::ZMK)
        } else {
            None
        }
    }

    /// Renders the keymap with the selected backend.
    pub fn format(&self, keymap: &KeyMap) -> (r: Result<String, EmitError>)
        ensures
            match r {
                Ok(s) => target_format_spec(*self, keymap@) == Ok::<Seq<char>, EmitErrorV>(s@),
                Err(e) => target_format_spec(*self, keymap@) == Err::<Seq<char>, EmitErrorV>(e@),
            },
    {
        match self {
            Target::QMK => crate::qmk::QMK::format(keymap),
            Target::ZMK => crate::zmk::ZMK::format(keymap),
        }
    }
}

impl core::str::FromStr for Target {
    type Err = String;

    fn from_str(s: &str) -> Result<Target, String> {
        match Target::of_name(s) {
            Some(t) => Ok(t),
            None => {
                let mut msg = str_chars("Invalid target: ");
                append_str(&mut msg, s);
                Err(chars_string(&msg))
            },
        }
    }
}

} // verus!
