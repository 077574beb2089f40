//! Terminal states of a solve.

use vstd::prelude::*;

verus! {

/// How the engine's last solve ended, or `Unknown` if there was none.
#[derive(Clone, Copy, Debug, PartialEq, Eq, Structural)]
pub enum Status {
    /// The solving status is not yet known.
    Unknown,
    /// The user interrupted the solving process.
    UserInterrupt,
    /// The node limit was reached.
    NodeLimit,
    /// The total node limit, restarts included, was reached.
    TotalNodeLimit,
    /// The stalling node limit was reached: no improvement of the primal bound.
    StallNodeLimit,
    /// The time limit was reached.
    TimeLimit,
    /// The memory limit was reached.
    MemLimit,
    /// The gap limit was reached.
    GapLimit,
    /// The solution limit was reached.
    SolLimit,
    /// The limit on improving solutions was reached.
    BestSolLimit,
    /// The restart limit was reached.
    RestartLimit,
    /// The problem was solved to optimality.
    Optimal,
    /// The problem was proven infeasible.
    Infeasible,
    /// The problem was proven unbounded.
    Unbounded,
    /// The problem is infeasible or unbounded.
    InfOrUnbd,
    /// The process received a termination signal.
    Terminate,
}

impl Status {
    /// The engine's integer for this state.
    pub open spec fn spec_code(self) -> u32 {
        match self {
            Status::Unknown => 0,
            Status::UserInterrupt => 1,
            Status::NodeLimit => 2,
            Status::TotalNodeLimit => 3,
            Status::StallNodeLimit => 4,
            Status::TimeLimit => 5,
            Status::MemLimit => 6,
            Status::GapLimit => 7,
            Status::SolLimit => 8,
            Status::BestSolLimit => 9,
            Status::RestartLimit => 10,
            Status::Optimal => 11,
            Status::Infeasible => 12,
            Status::Unbounded => 13,
            Status::InfOrUnbd => 14,
            Status::Terminate => 15,
        }
    }

    /// Whether `code` is a status the engine defines.
    pub open spec fn known(code: u32) -> bool {
        code <= 15
    }

    /// The state that a known code stands for.
    pub open spec fn spec_from_code(code: u32) -> Status {
        if code == 0 {
            Status::Unknown
        } else if code == 1 {
            Status::UserInterrupt
        } else if code == 2 {
            Status::NodeLimit
        } else if code == 3 {
            Status::TotalNodeLimit
        } else if code == 4 {
            Status::StallNodeLimit
        } else if code == 5 {
            Status::TimeLimit
        } else if code == 6 {
            Status::MemLimit
        } else if code == 7 {
            Status::GapLimit
        } else if code == 8 {
            Status::SolLimit
        } else if code == 9 {
            Status::BestSolLimit
        } else if code == 10 {
            Status::RestartLimit
        } else if code == 11 {
            Status::Optimal
        } else if code == 12 {
            Status::Infeasible
        } else if code == 13 {
            Status::Unbounded
        } else if code == 14 {
            Status::InfOrUnbd
        } else {
            Status::Terminate
        }
    }

    #[verifier::when_used_as_spec(spec_code)]
    pub fn code(self) -> (c: u32)
        ensures
            c == self.spec_code(),
    {
        match self {
            Status::Unknown => 0,
            Status::UserInterrupt => 1,
            Status::NodeLimit => 2,
            Status::TotalNodeLimit => 3,
            Status::StallNodeLimit => 4,
            Status::TimeLimit => 5,
            Status::MemLimit => 6,
            Status::GapLimit => 7,
            Status::SolLimit => 8,
            Status::BestSolLimit => 9,
            Status::RestartLimit => 10,
            Status::Optimal => 11,
            Status::Infeasible => 12,
            Status::Unbounded => 13,
            Status::InfOrUnbd => 14,
            Status::Terminate => 15,
        }
    }

    /// Tells whether the engine defines `code`.
    pub fn is_known(code: u32) -> (r: bool)
        ensures
            r == Status::known(code),
    {
        code <= 15
    }

    /// Turns a status code reported by the engine into the state it names. A
    /// code the engine does not define is excluded: it is never mapped to a
    /// default.
    pub fn from_code(code: u32) -> (r: Status)
        requires
            Status::known(code),
        ensures
            r == Status::spec_from_code(code),
            r.spec_code() == code,
    {
        match code {
            0 => Status::Unknown,
            1 => Status::UserInterrupt,
            2 => Status::NodeLimit,
            3 => Status::TotalNodeLimit,
            4 => Status::StallNodeLimit,
            5 => Status::TimeLimit,
            6 => Status::MemLimit,
            7 => Status::GapLimit,
            8 => Status::SolLimit,
            9 => Status::BestSolLimit,
            10 => Status::RestartLimit,
            11 => Status::Optimal,
            12 => Status::Infeasible,
            13 => Status::Unbounded,
            14 => Status::InfOrUnbd,
            _ => Status::Terminate,
        }
    }

    /// Every state has a known code, and that code leads back to the state.
    pub proof fn lemma_code_round_trip(self)
        ensures
            Status::known(self.spec_code()),
            Status::spec_from_code(self.spec_code()) == self,
    {
    }

    /// Every known code is the code of the state it stands for.
    pub proof fn lemma_from_code_round_trip(code: u32)
        requires
            Status::known(code),
        ensures
            Status::spec_from_code(code).spec_code() == code,
    {
    }
}

} // verus!
