//! Return codes of engine calls.

use vstd::prelude::*;

verus! {

/// The code with which an engine call reports success.
pub const OKAY: i32 = 1;

/// A failure reported by an engine call. Every code but [`OKAY`] that the
/// engine defines has one variant here.
#[derive(Clone, Copy, Debug, PartialEq, Eq, Structural)]
pub enum Retcode {
    /// Unspecified error.
    Error,
    /// Insufficient memory.
    NoMemory,
    /// A file could not be read.
    ReadError,
    /// A file could not be written.
    WriteError,
    /// A file was not found.
    NoFile,
    /// A file could not be created.
    FileCreateError,
    /// The LP solver failed.
    LpError,
    /// No problem exists.
    NoProblem,
    /// The call is not valid at this time.
    InvalidCall,
    /// The input data is invalid.
    InvalidData,
    /// A method returned an invalid result.
    InvalidResult,
    /// A required plugin was not found.
    PluginNotFound,
    /// No parameter of the given name exists.
    ParameterUnknown,
    /// The parameter has another type.
    ParameterWrongType,
    /// The value is not valid for the parameter.
    ParameterWrongVal,
    /// The key is already in the table.
    KeyAlreadyExisting,
    /// The maximal branching depth was exceeded.
    MaxDepthLevel,
    /// Branching could not be performed.
    BranchError,
    /// The function is not implemented.
    NotImplemented,
}

impl Retcode {
    /// The engine's integer for this failure.
    pub open spec fn spec_code(self) -> int {
        match self {
            Retcode::Error => 0,
            Retcode::NoMemory => -1,
            Retcode::ReadError => -2,
            Retcode::WriteError => -3,
            Retcode::NoFile => -4,
            Retcode::FileCreateError => -5,
            Retcode::LpError => -6,
            Retcode::NoProblem => -7,
            Retcode::InvalidCall => -8,
            Retcode::InvalidData => -9,
            Retcode::InvalidResult => -10,
            Retcode::PluginNotFound => -11,
            Retcode::ParameterUnknown => -12,
            Retcode::ParameterWrongType => -13,
            Retcode::ParameterWrongVal => -14,
            Retcode::KeyAlreadyExisting => -15,
            Retcode::MaxDepthLevel => -16,
            Retcode::BranchError => -17,
            Retcode::NotImplemented => -18,
        }
    }

    /// Whether `code` is a return code the engine defines, success included.
    pub open spec fn known(code: int) -> bool {
        -18 <= code <= 1
    }

    /// The failure that a known code other than [`OKAY`] stands for.
    pub open spec fn spec_from_code(code: int) -> Retcode {
        if code == 0 {
            Retcode::Error
        } else if code == -1 {
            Retcode::NoMemory
        } else if code == -2 {
            Retcode::ReadError
        } else if code == -3 {
            Retcode::WriteError
        } else if code == -4 {
            Retcode::NoFile
        } else if code == -5 {
            Retcode::FileCreateError
        } else if code == -6 {
            Retcode::LpError
        } else if code == -7 {
            Retcode::NoProblem
        } else if code == -8 {
            Retcode::InvalidCall
        } else if code == -9 {
            Retcode::InvalidData
        } else if code == -10 {
            Retcode::InvalidResult
        } else if code == -11 {
            Retcode::PluginNotFound
        } else if code == -12 {
            Retcode::ParameterUnknown
        } else if code == -13 {
            Retcode::ParameterWrongType
        } else if code == -14 {
            Retcode::ParameterWrongVal
        } else if code == -15 {
            Retcode::KeyAlreadyExisting
        } else if code == -16 {
            Retcode::MaxDepthLevel
        } else if code == -17 {
            Retcode::BranchError
        } else {
            Retcode::NotImplemented
        }
    }

    /// What an engine call that returned `code` amounts to: success, or the
    /// failure carrying that code.
    pub open spec fn spec_check(code: int) -> Result<(), Retcode> {
        if code == OKAY {
            Ok(())
        } else {
            Err(Retcode::spec_from_code(code))
        }
    }

    pub fn code(self) -> (c: i32)
        ensures
            c == self.spec_code(),
    {
        match self {
            Retcode::Error => 0,
            Retcode::NoMemory => -1,
            Retcode::ReadError => -2,
            Retcode::WriteError => -3,
            Retcode::NoFile => -4,
            Retcode::FileCreateError => -5,
            Retcode::LpError => -6,
            Retcode::NoProblem => -7,
            Retcode::InvalidCall => -8,
            Retcode::InvalidData => -9,
            Retcode::InvalidResult => -10,
            Retcode::PluginNotFound => -11,
            Retcode::ParameterUnknown => -12,
            Retcode::ParameterWrongType => -13,
            Retcode::ParameterWrongVal => -14,
            Retcode::KeyAlreadyExisting => -15,
            Retcode::MaxDepthLevel => -16,
            Retcode::BranchError => -17,
            Retcode::NotImplemented => -18,
        }
    }

    /// Tells whether the engine defines `code`.
    pub fn is_known(code: i32) -> (r: bool)
        ensures
            r == Retcode::known(code as int),
    {
        -18 <= code && code <= 1
    }

    /// Turns the code of a failed call into the failure it names. A code the
    /// engine does not define has no meaning here and is excluded.
    pub fn from_code(code: i32) -> (r: Retcode)
        requires
            Retcode::known(code as int),
            code != OKAY,
        ensures
            r == Retcode::spec_from_code(code as int),
            r.spec_code() == code,
    {
        match code {
            0 => Retcode::Error,
            -1 => Retcode::NoMemory,
            -2 => Retcode::ReadError,
            -3 => Retcode::WriteError,
            -4 => Retcode::NoFile,
            -5 => Retcode::FileCreateError,
            -6 => Retcode::LpError,
            -7 => Retcode::NoProblem,
            -8 => Retcode::InvalidCall,
            -9 => Retcode::InvalidData,
            -10 => Retcode::InvalidResult,
            -11 => Retcode::PluginNotFound,
            -12 => Retcode::ParameterUnknown,
            -13 => Retcode::ParameterWrongType,
            -14 => Retcode::ParameterWrongVal,
            -15 => Retcode::KeyAlreadyExisting,
            -16 => Retcode::MaxDepthLevel,
            -17 => Retcode::BranchError,
            _ => Retcode::NotImplemented,
        }
    }

    /// Judges the return code of an engine call: `Ok` exactly for [`OKAY`],
    /// otherwise the failure that carries the code.
    pub fn check(code: i32) -> (r: Result<(), Retcode>)
        requires
            Retcode::known(code as int),
        ensures
            r == Retcode::spec_check(code as int),
            r is Ok <==> code == OKAY,
            r matches Err(e) ==> e.spec_code() == code,
    {
        if code == OKAY {
            Ok(())
        } else {
            Err(Retcode::from_code(code))
        }
    }

    /// Every failure has a known code other than [`OKAY`], and that code
    /// leads back to the same failure.
    pub proof fn lemma_code_round_trip(self)
        ensures
            Retcode::known(self.spec_code()),
            self.spec_code() != OKAY,
            Retcode::spec_from_code(self.spec_code()) == self,
    {
    }

    /// Two failures with the same code are the same failure.
    pub proof fn lemma_code_injective(a: Retcode, b: Retcode)
        requires
            a.spec_code() == b.spec_code(),
        ensures
            a == b,
    {
        a.lemma_code_round_trip();
        b.lemma_code_round_trip();
    }
}

} // verus!
