//! Objective direction and the presets for the engine's module families.

use vstd::prelude::*;

verus! {

/// How hard a family of engine modules (presolving, separating, heuristics)
/// is to work.
#[derive(Clone, Copy, Debug, PartialEq, Eq, Structural)]
pub enum ParamSetting {
    /// The engine's default values.
    Default,
    /// Values that make the family work harder.
    Aggressive,
    /// Values that make the family finish quickly.
    Fast,
    /// The family is switched off.
    Off,
}

impl ParamSetting {
    /// The engine's integer for this preset.
    pub open spec fn spec_code(self) -> u32 {
        match self {
            ParamSetting::Default => 0,
            ParamSetting::Aggressive => 1,
            ParamSetting::Fast => 2,
            ParamSetting::Off => 3,
        }
    }

    /// Whether `code` is a preset the engine defines.
    pub open spec fn known(code: u32) -> bool {
        code <= 3
    }

    /// The preset that a known code stands for.
    pub open spec fn spec_from_code(code: u32) -> ParamSetting {
        if code == 0 {
            ParamSetting::Default
        } else if code == 1 {
            ParamSetting::Aggressive
        } else if code == 2 {
            ParamSetting::Fast
        } else {
            ParamSetting::Off
        }
    }

    #[verifier::when_used_as_spec(spec_code)]
    pub fn code(self) -> (c: u32)
        ensures
            c == self.spec_code(),
    {
        match self {
            ParamSetting::Default => 0,
            ParamSetting::Aggressive => 1,
            ParamSetting::Fast => 2,
            ParamSetting::Off => 3,
        }
    }

    /// Tells whether the engine defines `code`.
    pub fn is_known(code: u32) -> (r: bool)
        ensures
            r == ParamSetting::known(code),
    {
        code <= 3
    }

    /// Turns a preset code of the engine into the preset it names. A code
    /// the engine does not define is excluded.
    pub fn from_code(code: u32) -> (r: ParamSetting)
        requires
            ParamSetting::known(code),
        ensures
            r == ParamSetting::spec_from_code(code),
            r.spec_code() == code,
    {
        match code {
            0 => ParamSetting::Default,
            1 => ParamSetting::Aggressive,
            2 => ParamSetting::Fast,
            _ => ParamSetting::Off,
        }
    }

    /// Every preset has a known code, and that code leads back to the preset.
    pub proof fn lemma_code_round_trip(self)
        ensures
            ParamSetting::known(self.spec_code()),
            ParamSetting::spec_from_code(self.spec_code()) == self,
    {
    }

    /// Every known code is the code of the preset it stands for.
    pub proof fn lemma_from_code_round_trip(code: u32)
        requires
            ParamSetting::known(code),
        ensures
            ParamSetting::spec_from_code(code).spec_code() == code,
    {
    }
}

/// The direction in which the objective is optimised.
#[derive(Clone, Copy, Debug, PartialEq, Eq, Structural)]
pub enum ObjSense {
    Minimize,
    Maximize,
}

impl ObjSense {
    /// The engine's integer for this direction.
    pub open spec fn spec_code(self) -> int {
        match self {
            ObjSense::Maximize => -1,
            ObjSense::Minimize => 1,
        }
    }

    /// Whether `code` is a direction the engine defines.
    pub open spec fn known(code: int) -> bool {
        code == -1 || code == 1
    }

    /// The direction that a known code stands for.
    pub open spec fn spec_from_code(code: int) -> ObjSense {
        if code == -1 {
            ObjSense::Maximize
        } else {
            ObjSense::Minimize
        }
    }

    pub fn code(self) -> (c: i32)
        ensures
            c == self.spec_code(),
    {
        match self {
            ObjSense::Maximize => -1,
            ObjSense::Minimize => 1,
        }
    }

    /// Tells whether the engine defines `code`.
    pub fn is_known(code: i32) -> (r: bool)
        ensures
            r == ObjSense::known(code as int),
    {
        code == -1 || code == 1
    }

    /// Turns a direction code reported by the engine into the direction it
    /// names. A code the engine does not define is excluded.
    pub fn from_code(code: i32) -> (r: ObjSense)
        requires
            ObjSense::known(code as int),
        ensures
            r == ObjSense::spec_from_code(code as int),
            r.spec_code() == code,
    {
        match code {
            -1 => ObjSense::Maximize,
            _ => ObjSense::Minimize,
        }
    }

    /// Either direction has a known code, and that code leads back to it.
    pub proof fn lemma_code_round_trip(self)
        ensures
            ObjSense::known(self.spec_code()),
            ObjSense::spec_from_code(self.spec_code()) == self,
    {
    }

    /// Every known code is the code of the direction it stands for.
    pub proof fn lemma_from_code_round_trip(code: int)
        requires
            ObjSense::known(code),
        ensures
            ObjSense::spec_from_code(code).spec_code() == code,
    {
    }
}

} // verus!
