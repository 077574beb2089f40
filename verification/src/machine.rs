//! The session as a state machine: what a context is, mathematically, and
//! how an answer of the engine takes it from one state to the next.

use crate::call::{EngineCallView, ReplyView, StepView};
use crate::constraint::{ConsDataView, ConstraintView};
use crate::error::Error;
use crate::reals::Real;
use crate::retcode::{Retcode, OKAY};
use crate::status::Status;
use crate::variable::{pool_index, VarDataView, VarType, VariableView};
use vstd::prelude::*;

verus! {

/// Where the problem of a context came from.
#[derive(Clone, Copy, Debug, PartialEq, Eq, Structural)]
pub enum Source {
    /// The context holds no problem yet.
    Empty,
    /// The problem was created empty and is built call by call.
    Created,
    /// The problem was read from a file.
    Loaded,
}

/// What a session is waiting for.
#[derive(Clone, Copy, Debug, PartialEq, Eq, Structural)]
pub enum Phase {
    /// Nothing: the session takes a new operation.
    Idle,
    /// The answer to a call whose success changes nothing in the session.
    Plain,
    /// The answer to `IncludeDefaultPlugins`.
    Plugins,
    /// The answer to `CreateProb`.
    CreateProb,
    /// The answer to `ReadProb`.
    ReadProb,
    /// The answer to `Solve`.
    Solve,
    /// The answer to `CreateVar`.
    VarCreate,
    /// The answer to `AddVar`.
    VarAdd,
    /// The answer to `CreateConsLinear`.
    ConsCreate,
    /// The answer to the `AddCoefLinear` that carries term `term`.
    ConsCoef { term: usize },
    /// The answer to `AddCons`.
    ConsAdd,
    /// The answer to the release that follows a failed registration; the
    /// registration then fails with `code`.
    Abort { code: Retcode },
    /// The answer to a release that a holder asked for.
    Release,
}

/// The mathematical content of a session.
pub struct ModelView {
    /// Identity of the context.
    pub context: u64,
    /// Number of the current problem: it grows each time the context gets a
    /// new problem, so that handles of an earlier problem can be told apart.
    pub epoch: u64,
    /// Whether the default plugins are included.
    pub plugins: bool,
    pub source: Source,
    /// The variables of the problem, each as its borrowed handle.
    pub vars: Seq<VariableView>,
    /// For each variable, whether a holder still has a reference to release.
    pub var_held: Seq<bool>,
    /// The constraints of the problem, each as its borrowed handle.
    pub conss: Seq<ConstraintView>,
    /// For each constraint, whether a holder still has a reference to release.
    pub cons_held: Seq<bool>,
    /// How the last solve of the problem ended.
    pub status: Status,
    /// The primal bound that the last solve reported, if there was one.
    pub objective: Option<Real>,
    /// The best solution that the last solve reported, by variable index.
    pub best: Option<Seq<Real>>,
    pub phase: Phase,
    /// The variable that is being registered, if one is.
    pub draft_var: Option<VariableView>,
    /// The constraint that is being registered, if one is.
    pub draft_cons: Option<ConstraintView>,
}

/// The borrowed handles under which a problem that was read holds the
/// variables that the engine reported.
pub open spec fn reported_vars(context: u64, epoch: u64, data: Seq<VarDataView>) -> Seq<
    VariableView,
> {
    Seq::new(
        data.len(),
        |i: int|
            VariableView {
                context,
                epoch,
                slot: i as usize,
                owned: false,
                index: pool_index(data[i].index),
                name: data[i].name,
                obj: data[i].obj,
                lb: data[i].lb,
                ub: data[i].ub,
                var_type: VarType::spec_from_code(data[i].var_type),
            },
    )
}

/// The borrowed handles under which a problem that was read holds the
/// constraints that the engine reported.
pub open spec fn reported_conss(context: u64, epoch: u64, data: Seq<ConsDataView>) -> Seq<
    ConstraintView,
> {
    Seq::new(
        data.len(),
        |i: int|
            ConstraintView {
                context,
                epoch,
                slot: i as usize,
                owned: false,
                name: data[i].name,
                lhs: data[i].lhs,
                rhs: data[i].rhs,
                terms: data[i].terms,
            },
    )
}

/// Whether a reported problem can be taken over: its variables and
/// constraints can be counted, every variable is of a known kind, and every
/// term of every constraint names a reported variable.
pub open spec fn loadable(vars: Seq<VarDataView>, conss: Seq<ConsDataView>) -> bool {
    &&& vars.len() <= usize::MAX
    &&& conss.len() <= usize::MAX
    &&& forall|i: int| 0 <= i < vars.len() ==> VarType::known(#[trigger] vars[i].var_type)
    &&& forall|c: int, t: int|
        0 <= c < conss.len() && 0 <= t < conss[c].terms.len() ==> (#[trigger] conss[c].terms[t]).0
            < vars.len()
}

/// The terms of a constraint that is given as variables and, for each, a
/// coefficient: each variable is named by its slot.
pub open spec fn terms_of(vars: Seq<VariableView>, coefs: Seq<Real>) -> Seq<(usize, Real)> {
    Seq::new(vars.len(), |i: int| (vars[i].slot, coefs[i]))
}

impl ModelView {
    /// A context that was just allocated.
    pub open spec fn fresh(context: u64) -> ModelView {
        ModelView {
            context,
            epoch: 0,
            plugins: false,
            source: Source::Empty,
            vars: Seq::empty(),
            var_held: Seq::empty(),
            conss: Seq::empty(),
            cons_held: Seq::empty(),
            status: Status::Unknown,
            objective: None,
            best: None,
            phase: Phase::Idle,
            draft_var: None,
            draft_cons: None,
        }
    }

    /// Whether `v` is a handle to a variable of the current problem.
    pub open spec fn knows_var(self, v: VariableView) -> bool {
        &&& v.context == self.context
        &&& v.epoch == self.epoch
        &&& v.slot < self.vars.len()
    }

    /// Whether `c` is a handle to a constraint of the current problem.
    pub open spec fn knows_cons(self, c: ConstraintView) -> bool {
        &&& c.context == self.context
        &&& c.epoch == self.epoch
        &&& c.slot < self.conss.len()
    }

    /// Why the reference behind the variable handle `v` cannot be released,
    /// if it cannot: the handle is not of the current problem, or it is
    /// borrowed, or the reference was released already.
    pub open spec fn var_release_error(self, v: VariableView) -> Option<Error> {
        if !self.knows_var(v) {
            Some(Error::UnknownHandle)
        } else if !v.owned {
            Some(Error::NotOwned)
        } else if !self.var_held[v.slot as int] {
            Some(Error::AlreadyReleased)
        } else {
            None
        }
    }

    /// Why the reference behind the constraint handle `c` cannot be
    /// released, if it cannot.
    pub open spec fn cons_release_error(self, c: ConstraintView) -> Option<Error> {
        if !self.knows_cons(c) {
            Some(Error::UnknownHandle)
        } else if !c.owned {
            Some(Error::NotOwned)
        } else if !self.cons_held[c.slot as int] {
            Some(Error::AlreadyReleased)
        } else {
            None
        }
    }

    /// Whether the draft variable fits the phase: there is one exactly
    /// while a variable is being registered, and it is the owned handle of
    /// the next slot, not yet in any pool.
    pub open spec fn draft_var_fits(self) -> bool {
        if self.phase is VarCreate || self.phase is VarAdd {
            &&& self.draft_var matches Some(d)
            &&& d.context == self.context
            &&& d.epoch == self.epoch
            &&& d.slot == self.vars.len()
            &&& d.owned
            &&& d.index is None
        } else {
            self.draft_var is None
        }
    }

    /// Whether the draft constraint fits the phase: there is one exactly
    /// while a constraint is being registered, it is the owned handle of the
    /// next slot, its terms name variables of the problem, and the term
    /// that is with the engine is one of them.
    pub open spec fn draft_cons_fits(self) -> bool {
        if self.phase is ConsCreate || self.phase is ConsCoef || self.phase is ConsAdd {
            &&& self.draft_cons matches Some(d)
            &&& d.context == self.context
            &&& d.epoch == self.epoch
            &&& d.slot == self.conss.len()
            &&& d.owned
            &&& forall|t: int| 0 <= t < d.terms.len() ==> (#[trigger] d.terms[t]).0 < self.vars.len()
            &&& self.phase matches Phase::ConsCoef { term } ==> term < d.terms.len()
        } else {
            self.draft_cons is None
        }
    }

    /// The invariant of a session.
    pub open spec fn wf(self) -> bool {
        &&& self.vars.len() == self.var_held.len()
        &&& self.conss.len() == self.cons_held.len()
        &&& forall|i: int|
            0 <= i < self.vars.len() ==> {
                &&& (#[trigger] self.vars[i]).context == self.context
                &&& self.vars[i].epoch == self.epoch
                &&& self.vars[i].slot == i
                &&& !self.vars[i].owned
            }
        &&& forall|i: int|
            0 <= i < self.conss.len() ==> {
                &&& (#[trigger] self.conss[i]).context == self.context
                &&& self.conss[i].epoch == self.epoch
                &&& self.conss[i].slot == i
                &&& !self.conss[i].owned
            }
        &&& forall|c: int, t: int|
            0 <= c < self.conss.len() && 0 <= t < self.conss[c].terms.len() ==> (
            #[trigger] self.conss[c].terms[t]).0 < self.vars.len()
        &&& self.draft_var_fits()
        &&& self.draft_cons_fits()
        &&& (self.phase is CreateProb || self.phase is ReadProb) ==> self.epoch < u64::MAX
    }

    /// Whether the session takes a new operation.
    pub open spec fn idle(self) -> bool {
        self.phase is Idle
    }

    /// Whether `reply` answers the call that the session is waiting on: it
    /// has the shape of that call's answer, its return code is one that the
    /// engine defines, and what it reports on success can be taken over.
    pub open spec fn expects(self, reply: ReplyView) -> bool {
        &&& !self.idle()
        &&& Retcode::known(reply.code() as int)
        &&& match self.phase {
            Phase::VarAdd => reply is Added,
            Phase::ReadProb => reply matches ReplyView::Loaded { code, vars, conss } && (code
                == OKAY ==> loadable(vars, conss)),
            Phase::Solve => reply matches ReplyView::Solved { code, status, .. } && (code == OKAY
                ==> Status::known(status)),
            _ => reply is Code,
        }
    }

    /// The session once it waits for the answer that `phase` names.
    pub open spec fn await_answer(self, phase: Phase) -> ModelView {
        ModelView { phase, ..self }
    }

    /// The handle under which a variable with these attributes would be
    /// registered next: owned, of the next free slot, in no pool yet.
    pub open spec fn next_var(
        self,
        lb: Real,
        ub: Real,
        obj: Real,
        name: Seq<char>,
        var_type: VarType,
    ) -> VariableView {
        VariableView {
            context: self.context,
            epoch: self.epoch,
            slot: self.vars.len() as usize,
            owned: true,
            index: None,
            name,
            obj,
            lb,
            ub,
            var_type,
        }
    }

    /// The handle under which a constraint with these attributes would be
    /// registered next: owned, of the next free slot.
    pub open spec fn next_cons(
        self,
        terms: Seq<(usize, Real)>,
        lhs: Real,
        rhs: Real,
        name: Seq<char>,
    ) -> ConstraintView {
        ConstraintView {
            context: self.context,
            epoch: self.epoch,
            slot: self.conss.len() as usize,
            owned: true,
            name,
            lhs,
            rhs,
            terms,
        }
    }

    /// The session once the registration of the variable `draft` has begun.
    pub open spec fn begin_var(self, draft: VariableView) -> ModelView {
        ModelView { phase: Phase::VarCreate, draft_var: Some(draft), ..self }
    }

    /// The session once the registration of the constraint `draft` has
    /// begun.
    pub open spec fn begin_cons(self, draft: ConstraintView) -> ModelView {
        ModelView { phase: Phase::ConsCreate, draft_cons: Some(draft), ..self }
    }

    /// The session once the release of the reference to the variable of
    /// `slot` has begun: the reference counts as given up from here on.
    pub open spec fn begin_var_release(self, slot: usize) -> ModelView {
        ModelView {
            phase: Phase::Release,
            var_held: self.var_held.update(slot as int, false),
            ..self
        }
    }

    /// The session once the release of the reference to the constraint of
    /// `slot` has begun.
    pub open spec fn begin_cons_release(self, slot: usize) -> ModelView {
        ModelView {
            phase: Phase::Release,
            cons_held: self.cons_held.update(slot as int, false),
            ..self
        }
    }

    /// The session with nothing under way.
    pub open spec fn settled(self) -> ModelView {
        ModelView { phase: Phase::Idle, draft_var: None, draft_cons: None, ..self }
    }

    /// The session once a new problem has taken the place of the old one:
    /// a new epoch, the given variables and constraints with no reference
    /// held by anyone, and no solve behind it.
    pub open spec fn replaced(
        self,
        source: Source,
        vars: Seq<VariableView>,
        conss: Seq<ConstraintView>,
    ) -> ModelView {
        ModelView {
            epoch: (self.epoch + 1) as u64,
            source,
            vars,
            var_held: Seq::new(vars.len(), |i: int| false),
            conss,
            cons_held: Seq::new(conss.len(), |i: int| false),
            status: Status::Unknown,
            objective: None,
            best: None,
            ..self.settled()
        }
    }

    /// How the registration of the draft constraint goes on once its first
    /// `term` terms are with the engine: with the next term, or, after the
    /// last, with adding the constraint to the problem.
    pub open spec fn next_term(self, term: usize) -> (ModelView, StepView) {
        let d = self.draft_cons->0;
        if term < d.terms.len() {
            (
                ModelView { phase: Phase::ConsCoef { term }, ..self },
                StepView::Call(
                    EngineCallView::AddCoefLinear {
                        cons: d.slot,
                        var: d.terms[term as int].0,
                        coef: d.terms[term as int].1,
                    },
                ),
            )
        } else {
            (
                ModelView { phase: Phase::ConsAdd, ..self },
                StepView::Call(EngineCallView::AddCons { slot: d.slot }),
            )
        }
    }

    /// How a registration gives up after the failure `code`: the draft is
    /// dropped, and `release` goes out before the failure is reported.
    pub open spec fn abort(self, code: Retcode, release: EngineCallView) -> (ModelView, StepView) {
        (
            ModelView { phase: Phase::Abort { code }, draft_var: None, draft_cons: None, ..self },
            StepView::Call(release),
        )
    }

    /// The state after an answer that reports `failure`, and what the
    /// session says to it.
    ///
    /// The operation ends with that failure and the problem stays as it was.
    /// Only a registration whose object exists already first releases it;
    /// when that release is answered, whatever the answer, the registration
    /// ends with the failure that made it give up.
    pub open spec fn failed(self, failure: Retcode) -> (ModelView, StepView) {
        match self.phase {
            Phase::VarAdd => self.abort(
                failure,
                EngineCallView::ReleaseVar { slot: self.draft_var->0.slot },
            ),
            Phase::ConsCoef { .. } | Phase::ConsAdd => self.abort(
                failure,
                EngineCallView::ReleaseCons { slot: self.draft_cons->0.slot },
            ),
            Phase::Abort { code } => (self.settled(), StepView::Failed(code)),
            _ => (self.settled(), StepView::Failed(failure)),
        }
    }

    /// The state after an answer that reports success, and what the session
    /// says to it.
    pub open spec fn succeeded(self, reply: ReplyView) -> (ModelView, StepView) {
        match self.phase {
            Phase::Idle | Phase::Plain | Phase::Release => (self.settled(), StepView::Done),
            Phase::Plugins => (ModelView { plugins: true, ..self.settled() }, StepView::Done),
            Phase::CreateProb => (
                self.replaced(Source::Created, Seq::empty(), Seq::empty()),
                StepView::Done,
            ),
            Phase::ReadProb => (
                self.replaced(
                    Source::Loaded,
                    reported_vars(self.context, (self.epoch + 1) as u64, reply->Loaded_vars),
                    reported_conss(self.context, (self.epoch + 1) as u64, reply->Loaded_conss),
                ),
                StepView::Done,
            ),
            Phase::Solve => (
                ModelView {
                    status: Status::spec_from_code(reply->Solved_status),
                    objective: Some(reply->Solved_objective),
                    best: reply->Solved_best,
                    ..self.settled()
                },
                StepView::Done,
            ),
            Phase::VarCreate => (
                ModelView { phase: Phase::VarAdd, ..self },
                StepView::Call(EngineCallView::AddVar { slot: self.draft_var->0.slot }),
            ),
            Phase::VarAdd => {
                let v = VariableView {
                    index: pool_index(reply->Added_index),
                    ..self.draft_var->0
                };
                (
                    ModelView {
                        vars: self.vars.push(v.borrowed()),
                        var_held: self.var_held.push(true),
                        ..self.settled()
                    },
                    StepView::Variable(v),
                )
            },
            Phase::ConsCreate => self.next_term(0),
            Phase::ConsCoef { term } => self.next_term((term + 1) as usize),
            Phase::ConsAdd => (
                ModelView {
                    conss: self.conss.push(self.draft_cons->0.borrowed()),
                    cons_held: self.cons_held.push(true),
                    ..self.settled()
                },
                StepView::Constraint(self.draft_cons->0),
            ),
            Phase::Abort { code } => (self.settled(), StepView::Failed(code)),
        }
    }

    /// The state after `reply`, and what the session says to it.
    pub open spec fn resume(self, reply: ReplyView) -> (ModelView, StepView) {
        if reply.code() == OKAY {
            self.succeeded(reply)
        } else {
            self.failed(Retcode::spec_from_code(reply.code() as int))
        }
    }

    /// The state after `n` answers in a row that report success and nothing
    /// else.
    pub open spec fn after_successes(self, n: nat) -> ModelView
        decreases n,
    {
        if n == 0 {
            self
        } else {
            self.after_successes((n - 1) as nat).resume(ReplyView::Code(OKAY)).0
        }
    }

    /// Every answer that a session expects takes it to a session again.
    pub proof fn lemma_resume_keeps_wf(self, reply: ReplyView)
        requires
            self.wf(),
            self.expects(reply),
        ensures
            self.resume(reply).0.wf(),
    {
        let next = self.resume(reply).0;
        if reply.code() == OKAY && self.phase is ConsAdd {
            let d = self.draft_cons->0;
            assert forall|c: int, t: int|
                0 <= c < next.conss.len() && 0 <= t < next.conss[c].terms.len() implies (
            #[trigger] next.conss[c].terms[t]).0 < next.vars.len() by {
                if c < self.conss.len() {
                    assert(next.conss[c] == self.conss[c]);
                } else {
                    assert(next.conss[c] == d.borrowed());
                }
            }
        }
    }
}

} // verus!
