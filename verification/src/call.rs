//! What passes between a session and the engine: the calls that the session
//! asks for, the engine's answers, and what a session says after an answer.

use crate::constraint::{ConsData, ConsDataView, Constraint, ConstraintView};
use crate::reals::Real;
use crate::retcode::Retcode;
use crate::seqs::views;
use crate::variable::{VarData, VarDataView, Variable, VariableView};
use vstd::prelude::*;

verus! {

/// One call into the engine, with its arguments as the engine takes them.
/// Variables and constraints are named by their slot in the session.
#[allow(inconsistent_fields)]
#[derive(Debug, PartialEq)]
pub enum EngineCall {
    /// Include the engine's default presolvers, separators, heuristics and
    /// propagators.
    IncludeDefaultPlugins,
    /// Read a problem from a file.
    ReadProb { filename: String },
    /// Create an empty problem.
    CreateProb { name: String },
    /// Set the direction of optimisation, by its code.
    SetObjSense { sense: i32 },
    /// Create a variable, which will stand at `slot`; its kind by its code.
    CreateVar { slot: usize, name: String, lb: Real, ub: Real, obj: Real, var_type: u32 },
    /// Add the variable created for `slot` to the problem.
    AddVar { slot: usize },
    /// Release the session's reference to the variable of `slot`.
    ReleaseVar { slot: usize },
    /// Create a linear constraint without terms, which will stand at `slot`.
    CreateConsLinear { slot: usize, name: String, lhs: Real, rhs: Real },
    /// Add the term `coef * var` to the constraint created for `cons`.
    AddCoefLinear { cons: usize, var: usize, coef: Real },
    /// Add the constraint created for `slot` to the problem.
    AddCons { slot: usize },
    /// Release the session's reference to the constraint of `slot`.
    ReleaseCons { slot: usize },
    /// Solve the problem.
    Solve,
    SetStrParam { param: String, value: String },
    SetIntParam { param: String, value: i32 },
    SetRealParam { param: String, value: Real },
    /// Set the presolvers to a preset, given by its code.
    SetPresolving { setting: u32, quiet: bool },
    /// Set the separators to a preset, given by its code.
    SetSeparating { setting: u32, quiet: bool },
    /// Set the heuristics to a preset, given by its code.
    SetHeuristics { setting: u32, quiet: bool },
    /// Write the original problem to `path` in the format named by `ext`.
    WriteOrigProblem { path: String, ext: String, generic_names: bool },
    /// Print the engine's version.
    PrintVersion,
    /// Free the context and all that it holds.
    Free,
}

/// The mathematical content of an [`EngineCall`].
#[allow(inconsistent_fields)]
pub enum EngineCallView {
    IncludeDefaultPlugins,
    ReadProb { filename: Seq<char> },
    CreateProb { name: Seq<char> },
    SetObjSense { sense: i32 },
    CreateVar { slot: usize, name: Seq<char>, lb: Real, ub: Real, obj: Real, var_type: u32 },
    AddVar { slot: usize },
    ReleaseVar { slot: usize },
    CreateConsLinear { slot: usize, name: Seq<char>, lhs: Real, rhs: Real },
    AddCoefLinear { cons: usize, var: usize, coef: Real },
    AddCons { slot: usize },
    ReleaseCons { slot: usize },
    Solve,
    SetStrParam { param: Seq<char>, value: Seq<char> },
    SetIntParam { param: Seq<char>, value: i32 },
    SetRealParam { param: Seq<char>, value: Real },
    SetPresolving { setting: u32, quiet: bool },
    SetSeparating { setting: u32, quiet: bool },
    SetHeuristics { setting: u32, quiet: bool },
    WriteOrigProblem { path: Seq<char>, ext: Seq<char>, generic_names: bool },
    PrintVersion,
    Free,
}

impl View for EngineCall {
    type V = EngineCallView;

    open spec fn view(&self) -> EngineCallView {
        match *self {
            EngineCall::IncludeDefaultPlugins => EngineCallView::IncludeDefaultPlugins,
            EngineCall::ReadProb { filename } => EngineCallView::ReadProb { filename: filename@ },
            EngineCall::CreateProb { name } => EngineCallView::CreateProb { name: name@ },
            EngineCall::SetObjSense { sense } => EngineCallView::SetObjSense { sense },
            EngineCall::CreateVar { slot, name, lb, ub, obj, var_type } => {
                EngineCallView::CreateVar { slot, name: name@, lb, ub, obj, var_type }
            },
            EngineCall::AddVar { slot } => EngineCallView::AddVar { slot },
            EngineCall::ReleaseVar { slot } => EngineCallView::ReleaseVar { slot },
            EngineCall::CreateConsLinear { slot, name, lhs, rhs } => {
                EngineCallView::CreateConsLinear { slot, name: name@, lhs, rhs }
            },
            EngineCall::AddCoefLinear { cons, var, coef } => EngineCallView::AddCoefLinear {
                cons,
                var,
                coef,
            },
            EngineCall::AddCons { slot } => EngineCallView::AddCons { slot },
            EngineCall::ReleaseCons { slot } => EngineCallView::ReleaseCons { slot },
            EngineCall::Solve => EngineCallView::Solve,
            EngineCall::SetStrParam { param, value } => EngineCallView::SetStrParam {
                param: param@,
                value: value@,
            },
            EngineCall::SetIntParam { param, value } => EngineCallView::SetIntParam {
                param: param@,
                value,
            },
            EngineCall::SetRealParam { param, value } => EngineCallView::SetRealParam {
                param: param@,
                value,
            },
            EngineCall::SetPresolving { setting, quiet } => EngineCallView::SetPresolving {
                setting,
                quiet,
            },
            EngineCall::SetSeparating { setting, quiet } => EngineCallView::SetSeparating {
                setting,
                quiet,
            },
            EngineCall::SetHeuristics { setting, quiet } => EngineCallView::SetHeuristics {
                setting,
                quiet,
            },
            EngineCall::WriteOrigProblem { path, ext, generic_names } => {
                EngineCallView::WriteOrigProblem { path: path@, ext: ext@, generic_names }
            },
            EngineCall::PrintVersion => EngineCallView::PrintVersion,
            EngineCall::Free => EngineCallView::Free,
        }
    }
}

/// The engine's answer to one call.
#[derive(Debug)]
pub enum Reply {
    /// The return code of a call that answers nothing else.
    Code(i32),
    /// The answer to `AddVar`: the return code, and the index that the
    /// engine then reports for the variable.
    Added { code: i32, index: i32 },
    /// The answer to `ReadProb`: the return code, and the variables and
    /// constraints that the engine then holds.
    Loaded { code: i32, vars: Vec<VarData>, conss: Vec<ConsData> },
    /// The answer to `Solve`: the return code, the code of the status in
    /// which the solve ended, the primal bound, and the values of the best
    /// solution by variable index, if there is a solution.
    Solved { code: i32, status: u32, objective: Real, best: Option<Vec<Real>> },
}

/// The mathematical content of a [`Reply`].
pub enum ReplyView {
    Code(i32),
    Added { code: i32, index: i32 },
    Loaded { code: i32, vars: Seq<VarDataView>, conss: Seq<ConsDataView> },
    Solved { code: i32, status: u32, objective: Real, best: Option<Seq<Real>> },
}

impl ReplyView {
    /// The return code of the answered call.
    pub open spec fn code(self) -> i32 {
        match self {
            ReplyView::Code(code) => code,
            ReplyView::Added { code, .. } => code,
            ReplyView::Loaded { code, .. } => code,
            ReplyView::Solved { code, .. } => code,
        }
    }
}

impl View for Reply {
    type V = ReplyView;

    open spec fn view(&self) -> ReplyView {
        match *self {
            Reply::Code(code) => ReplyView::Code(code),
            Reply::Added { code, index } => ReplyView::Added { code, index },
            Reply::Loaded { code, vars, conss } => ReplyView::Loaded {
                code,
                vars: views(vars@),
                conss: views(conss@),
            },
            Reply::Solved { code, status, objective, best } => ReplyView::Solved {
                code,
                status,
                objective,
                best: match best {
                    Some(values) => Some(values@),
                    None => None,
                },
            },
        }
    }
}

impl Reply {
    /// The return code of the answered call.
    pub fn code(&self) -> (c: i32)
        ensures
            c == self@.code(),
    {
        match self {
            Reply::Code(code) => *code,
            Reply::Added { code, .. } => *code,
            Reply::Loaded { code, .. } => *code,
            Reply::Solved { code, .. } => *code,
        }
    }
}

/// What a session says after an answer: the next call of the operation
/// under way, or how the operation ended.
#[derive(Debug)]
pub enum Step {
    /// The operation goes on with this call.
    Call(EngineCall),
    /// The operation succeeded and yields nothing.
    Done,
    /// The registration succeeded and yields the owned handle of the new
    /// variable.
    Variable(Variable),
    /// The registration succeeded and yields the owned handle of the new
    /// constraint.
    Constraint(Constraint),
    /// The operation failed with the failure that the engine reported.
    Failed(Retcode),
}

/// The mathematical content of a [`Step`].
pub enum StepView {
    Call(EngineCallView),
    Done,
    Variable(VariableView),
    Constraint(ConstraintView),
    Failed(Retcode),
}

impl View for Step {
    type V = StepView;

    open spec fn view(&self) -> StepView {
        match *self {
            Step::Call(call) => StepView::Call(call@),
            Step::Done => StepView::Done,
            Step::Variable(var) => StepView::Variable(var@),
            Step::Constraint(cons) => StepView::Constraint(cons@),
            Step::Failed(code) => StepView::Failed(code),
        }
    }
}

} // verus!
