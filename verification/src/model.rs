//! The session of one engine context.

use crate::call::{EngineCall, EngineCallView, Reply, Step};
use crate::constraint::{ConsData, Constraint};
use crate::error::Error;
use crate::machine::{
    loadable, reported_conss, reported_vars, terms_of, ModelView, Phase, Source,
};
use crate::reals::Real;
use crate::retcode::{Retcode, OKAY};
use crate::seqs::{copied, lemma_views_push, option_view, views};
use crate::setting::{ObjSense, ParamSetting};
use crate::solution::{Solution, SolutionView};
use crate::status::Status;
use crate::variable::{VarData, VarType, Variable};
use vstd::prelude::*;

verus! {

/// The session of one engine context: what the context holds, and which
/// engine call, if any, it is waiting on.
///
/// Every operation that needs the engine returns the call to make. The
/// caller makes it and passes the engine's answer to [`Model::resume`],
/// which either asks for the next call or says how the operation ended.
#[derive(Debug)]
pub struct Model {
    context: u64,
    epoch: u64,
    plugins: bool,
    source: Source,
    vars: Vec<Variable>,
    var_held: Vec<bool>,
    conss: Vec<Constraint>,
    cons_held: Vec<bool>,
    status: Status,
    objective: Option<Real>,
    best: Option<Vec<Real>>,
    phase: Phase,
    draft_var: Option<Variable>,
    draft_cons: Option<Constraint>,
}

impl View for Model {
    type V = ModelView;

    closed spec fn view(&self) -> ModelView {
        ModelView {
            context: self.context,
            epoch: self.epoch,
            plugins: self.plugins,
            source: self.source,
            vars: views(self.vars@),
            var_held: self.var_held@,
            conss: views(self.conss@),
            cons_held: self.cons_held@,
            status: self.status,
            objective: self.objective,
            best: option_view(self.best),
            phase: self.phase,
            draft_var: option_view(self.draft_var),
            draft_cons: option_view(self.draft_cons),
        }
    }
}

impl Model {
    /// The invariant of a session.
    pub open spec fn wf(&self) -> bool {
        self@.wf()
    }

    /// A session holds no more variables and constraints than can be
    /// counted.
    pub proof fn lemma_counts_fit(&self)
        ensures
            self@.vars.len() <= usize::MAX,
            self@.conss.len() <= usize::MAX,
    {
        assert(self.vars@.len() == self.vars.len());
        assert(self.conss@.len() == self.conss.len());
    }

    /// Makes the session of a context from the answer to its allocation:
    /// the return code, and the identity under which the caller keeps the
    /// context. A failed allocation yields no session.
    pub fn new(code: i32, context: u64) -> (r: Result<Model, Error>)
        requires
            Retcode::known(code as int),
        ensures
            r is Ok <==> code == OKAY,
            r matches Ok(m) ==> m@ == ModelView::fresh(context) && m.wf(),
            r matches Err(e) ==> e == Error::Engine(Retcode::spec_from_code(code as int)),
    {
        if code != OKAY {
            return Err(Error::Engine(Retcode::from_code(code)));
        }
        let m = Model {
            context,
            epoch: 0,
            plugins: false,
            source: Source::Empty,
            vars: Vec::new(),
            var_held: Vec::new(),
            conss: Vec::new(),
            cons_held: Vec::new(),
            status: Status::Unknown,
            objective: None,
            best: None,
            phase: Phase::Idle,
            draft_var: None,
            draft_cons: None,
        };
        assert(m@.vars =~= Seq::empty());
        assert(m@.conss =~= Seq::empty());
        Ok(m)
    }

    /// Ends the session: the context is freed, once, and with it all that
    /// it holds. Handles issued by the session are dead from here on.
    pub fn free(self) -> (call: EngineCall)
        ensures
            call@ == EngineCallView::Free,
    {
        EngineCall::Free
    }

    /// The identity of the context.
    pub fn context(&self) -> (r: u64)
        ensures
            r == self@.context,
    {
        self.context
    }

    /// The number of the current problem.
    pub fn epoch(&self) -> (r: u64)
        ensures
            r == self@.epoch,
    {
        self.epoch
    }

    /// Whether the session takes a new operation.
    pub fn is_idle(&self) -> (r: bool)
        ensures
            r == self@.idle(),
    {
        match self.phase {
            Phase::Idle => true,
            _ => false,
        }
    }

    /// What the session is waiting for.
    pub fn phase(&self) -> (r: Phase)
        ensures
            r == self@.phase,
    {
        self.phase
    }

    /// Whether the default plugins are included.
    pub fn has_plugins(&self) -> (r: bool)
        ensures
            r == self@.plugins,
    {
        self.plugins
    }

    /// Where the current problem came from.
    pub fn source(&self) -> (r: Source)
        ensures
            r == self@.source,
    {
        self.source
    }

    /// How the last solve of the current problem ended; `Unknown` if it was
    /// not solved.
    pub fn get_status(&self) -> (r: Status)
        ensures
            r == self@.status,
    {
        self.status
    }

    /// Whether a solve of the current problem has reported a primal bound.
    pub fn has_obj_val(&self) -> (r: bool)
        ensures
            r == self@.objective is Some,
    {
        self.objective.is_some()
    }

    /// The primal bound that the last solve reported. Before a solve there
    /// is none, and asking for it is excluded.
    pub fn get_obj_val(&self) -> (r: Real)
        requires
            self@.objective is Some,
        ensures
            Some(r) == self@.objective,
    {
        self.objective.unwrap()
    }

    /// The number of variables of the current problem.
    pub fn get_n_vars(&self) -> (r: usize)
        ensures
            r == self@.vars.len(),
    {
        self.vars.len()
    }

    /// The number of constraints of the current problem.
    pub fn get_n_conss(&self) -> (r: usize)
        ensures
            r == self@.conss.len(),
    {
        self.conss.len()
    }

    /// The variables of the current problem, in the order of their slots,
    /// as borrowed handles.
    pub fn get_vars(&self) -> (r: Vec<Variable>)
        requires
            self.wf(),
        ensures
            views(r@) == self@.vars,
            r@.len() == self@.vars.len(),
    {
        let mut r: Vec<Variable> = Vec::new();
        let mut i: usize = 0;
        while i < self.vars.len()
            invariant
                i <= self.vars.len(),
                r@.len() == i,
                forall|j: int| 0 <= j < i ==> (#[trigger] r@[j])@ == self.vars@[j]@.borrowed(),
            decreases self.vars.len() - i,
        {
            r.push(self.vars[i].borrowed());
            i = i + 1;
        }
        assert forall|j: int| 0 <= j < r@.len() implies views(r@)[j] == self@.vars[j] by {
            assert(!self@.vars[j].owned);
        }
        assert(views(r@) =~= self@.vars);
        r
    }

    /// The constraints of the current problem, in the order of their slots,
    /// as borrowed handles.
    pub fn get_conss(&self) -> (r: Vec<Constraint>)
        requires
            self.wf(),
        ensures
            views(r@) == self@.conss,
            r@.len() == self@.conss.len(),
    {
        let mut r: Vec<Constraint> = Vec::new();
        let mut i: usize = 0;
        while i < self.conss.len()
            invariant
                i <= self.conss.len(),
                r@.len() == i,
                forall|j: int| 0 <= j < i ==> (#[trigger] r@[j])@ == self.conss@[j]@.borrowed(),
            decreases self.conss.len() - i,
        {
            r.push(self.conss[i].borrowed());
            i = i + 1;
        }
        assert forall|j: int| 0 <= j < r@.len() implies views(r@)[j] == self@.conss[j] by {
            assert(!self@.conss[j].owned);
        }
        assert(views(r@) =~= self@.conss);
        r
    }

    /// Whether the last solve of the current problem reported a solution.
    pub fn has_best_sol(&self) -> (r: bool)
        ensures
            r == self@.best is Some,
    {
        self.best.is_some()
    }

    /// The best solution that the last solve reported. Where there is none,
    /// asking for it is excluded.
    pub fn get_best_sol(&self) -> (r: Solution)
        requires
            self@.best is Some,
        ensures
            r@ == (SolutionView {
                context: self@.context,
                epoch: self@.epoch,
                values: self@.best->0,
            }),
    {
        match &self.best {
            Some(values) => Solution::new(self.context, self.epoch, copied(values)),
            None => Solution::new(self.context, self.epoch, Vec::new()),
        }
    }

    /// Tells whether `var` is a handle to a variable of the current problem.
    pub fn knows_var(&self, var: &Variable) -> (r: bool)
        ensures
            r == self@.knows_var(var@),
    {
        var.context() == self.context && var.epoch() == self.epoch && var.slot() < self.vars.len()
    }

    /// Tells whether `cons` is a handle to a constraint of the current
    /// problem.
    pub fn knows_cons(&self, cons: &Constraint) -> (r: bool)
        ensures
            r == self@.knows_cons(cons@),
    {
        cons.context() == self.context && cons.epoch() == self.epoch && cons.slot()
            < self.conss.len()
    }

    /// Asks the engine to include its default plugins. They are included at
    /// most once: a second request is refused.
    pub fn include_default_plugins(&mut self) -> (r: Result<EngineCall, Error>)
        requires
            old(self).wf(),
            old(self)@.idle(),
        ensures
            final(self).wf(),
            r is Ok <==> !old(self)@.plugins,
            r matches Ok(call) ==> call@ == EngineCallView::IncludeDefaultPlugins && final(self)@
                == old(self)@.await_answer(Phase::Plugins),
            r matches Err(e) ==> e == Error::PluginsIncluded && final(self)@ == old(self)@,
    {
        if self.plugins {
            return Err(Error::PluginsIncluded);
        }
        self.phase = Phase::Plugins;
        Ok(EngineCall::IncludeDefaultPlugins)
    }

    /// Asks the engine to read a problem from `filename`; the problem takes
    /// the place of one that was read before. A context whose problem was
    /// created reads none.
    pub fn read_prob(&mut self, filename: &str) -> (r: Result<EngineCall, Error>)
        requires
            old(self).wf(),
            old(self)@.idle(),
            old(self)@.epoch < u64::MAX,
        ensures
            final(self).wf(),
            r is Ok <==> !(old(self)@.source is Created),
            r matches Ok(call) ==> call@ == (EngineCallView::ReadProb { filename: filename@ })
                && final(self)@ == old(self)@.await_answer(Phase::ReadProb),
            r matches Err(e) ==> e == Error::ProblemConflict && final(self)@ == old(self)@,
    {
        match self.source {
            Source::Created => {
                return Err(Error::ProblemConflict);
            },
            _ => {},
        }
        self.phase = Phase::ReadProb;
        Ok(EngineCall::ReadProb { filename: filename.to_owned() })
    }

    /// Asks the engine to create an empty problem called `name`; the
    /// problem takes the place of one that was created before. A context
    /// whose problem was read creates none.
    pub fn create_prob(&mut self, name: &str) -> (r: Result<EngineCall, Error>)
        requires
            old(self).wf(),
            old(self)@.idle(),
            old(self)@.epoch < u64::MAX,
        ensures
            final(self).wf(),
            r is Ok <==> !(old(self)@.source is Loaded),
            r matches Ok(call) ==> call@ == (EngineCallView::CreateProb { name: name@ })
                && final(self)@ == old(self)@.await_answer(Phase::CreateProb),
            r matches Err(e) ==> e == Error::ProblemConflict && final(self)@ == old(self)@,
    {
        match self.source {
            Source::Loaded => {
                return Err(Error::ProblemConflict);
            },
            _ => {},
        }
        self.phase = Phase::CreateProb;
        Ok(EngineCall::CreateProb { name: name.to_owned() })
    }

    /// Asks the engine to solve the problem.
    pub fn solve(&mut self) -> (call: EngineCall)
        requires
            old(self).wf(),
            old(self)@.idle(),
        ensures
            final(self).wf(),
            call@ == EngineCallView::Solve,
            final(self)@ == old(self)@.await_answer(Phase::Solve),
    {
        self.phase = Phase::Solve;
        EngineCall::Solve
    }

    /// Asks the engine to print its version. The call answers nothing, and
    /// the session does not wait on it.
    pub fn print_version(&self) -> (call: EngineCall)
        ensures
            call@ == EngineCallView::PrintVersion,
    {
        EngineCall::PrintVersion
    }

    /// Asks the engine to set the direction of optimisation.
    pub fn set_obj_sense(&mut self, sense: ObjSense) -> (call: EngineCall)
        requires
            old(self).wf(),
            old(self)@.idle(),
        ensures
            final(self).wf(),
            call@ matches EngineCallView::SetObjSense { sense: code } && code == sense.spec_code(),
            final(self)@ == old(self)@.await_answer(Phase::Plain),
    {
        self.phase = Phase::Plain;
        EngineCall::SetObjSense { sense: sense.code() }
    }

    /// Asks the engine to set the string parameter `param` to `value`.
    pub fn set_str_param(&mut self, param: &str, value: &str) -> (call: EngineCall)
        requires
            old(self).wf(),
            old(self)@.idle(),
        ensures
            final(self).wf(),
            call@ == (EngineCallView::SetStrParam { param: param@, value: value@ }),
            final(self)@ == old(self)@.await_answer(Phase::Plain),
    {
        self.phase = Phase::Plain;
        EngineCall::SetStrParam { param: param.to_owned(), value: value.to_owned() }
    }

    /// Asks the engine to set the integer parameter `param` to `value`.
    pub fn set_int_param(&mut self, param: &str, value: i32) -> (call: EngineCall)
        requires
            old(self).wf(),
            old(self)@.idle(),
        ensures
            final(self).wf(),
            call@ == (EngineCallView::SetIntParam { param: param@, value }),
            final(self)@ == old(self)@.await_answer(Phase::Plain),
    {
        self.phase = Phase::Plain;
        EngineCall::SetIntParam { param: param.to_owned(), value }
    }

    /// Asks the engine to set the real parameter `param` to `value`.
    pub fn set_real_param(&mut self, param: &str, value: Real) -> (call: EngineCall)
        requires
            old(self).wf(),
            old(self)@.idle(),
        ensures
            final(self).wf(),
            call@ == (EngineCallView::SetRealParam { param: param@, value }),
            final(self)@ == old(self)@.await_answer(Phase::Plain),
    {
        self.phase = Phase::Plain;
        EngineCall::SetRealParam { param: param.to_owned(), value }
    }

    /// Asks the engine to be silent: its verbosity level is set to zero.
    pub fn hide_output(&mut self) -> (call: EngineCall)
        requires
            old(self).wf(),
            old(self)@.idle(),
        ensures
            final(self).wf(),
            call@ == (EngineCallView::SetIntParam { param: "display/verblevel"@, value: 0 }),
            final(self)@ == old(self)@.await_answer(Phase::Plain),
    {
        self.set_int_param("display/verblevel", 0)
    }

    /// Asks the engine to set its presolvers to `presolving`, quietly.
    pub fn set_presolving(&mut self, presolving: ParamSetting) -> (call: EngineCall)
        requires
            old(self).wf(),
            old(self)@.idle(),
        ensures
            final(self).wf(),
            call@ == (EngineCallView::SetPresolving {
                setting: presolving.spec_code(),
                quiet: true,
            }),
            final(self)@ == old(self)@.await_answer(Phase::Plain),
    {
        self.phase = Phase::Plain;
        EngineCall::SetPresolving { setting: presolving.code(), quiet: true }
    }

    /// Asks the engine to set its separators to `separating`, quietly.
    pub fn set_separating(&mut self, separating: ParamSetting) -> (call: EngineCall)
        requires
            old(self).wf(),
            old(self)@.idle(),
        ensures
            final(self).wf(),
            call@ == (EngineCallView::SetSeparating {
                setting: separating.spec_code(),
                quiet: true,
            }),
            final(self)@ == old(self)@.await_answer(Phase::Plain),
    {
        self.phase = Phase::Plain;
        EngineCall::SetSeparating { setting: separating.code(), quiet: true }
    }

    /// Asks the engine to set its heuristics to `heuristics`, quietly.
    pub fn set_heuristics(&mut self, heuristics: ParamSetting) -> (call: EngineCall)
        requires
            old(self).wf(),
            old(self)@.idle(),
        ensures
            final(self).wf(),
            call@ == (EngineCallView::SetHeuristics {
                setting: heuristics.spec_code(),
                quiet: true,
            }),
            final(self)@ == old(self)@.await_answer(Phase::Plain),
    {
        self.phase = Phase::Plain;
        EngineCall::SetHeuristics { setting: heuristics.code(), quiet: true }
    }

    /// Asks the engine to write the original problem to `path`, in the
    /// format named by the extension `ext`, under generic names.
    pub fn write(&mut self, path: &str, ext: &str) -> (call: EngineCall)
        requires
            old(self).wf(),
            old(self)@.idle(),
        ensures
            final(self).wf(),
            call@ == (EngineCallView::WriteOrigProblem {
                path: path@,
                ext: ext@,
                generic_names: true,
            }),
            final(self)@ == old(self)@.await_answer(Phase::Plain),
    {
        self.phase = Phase::Plain;
        EngineCall::WriteOrigProblem {
            path: path.to_owned(),
            ext: ext.to_owned(),
            generic_names: true,
        }
    }

    /// Begins the registration of a variable with the bounds `lb` and `ub`,
    /// the objective coefficient `obj`, the name `name` and the kind
    /// `var_type`. Bounds of which the lower is not at most the upper are
    /// refused.
    ///
    /// The registration takes two calls: the variable is created, then
    /// added to the problem. It ends with the owned handle of the variable.
    pub fn add_var(&mut self, lb: Real, ub: Real, obj: Real, name: &str, var_type: VarType) -> (r:
        Result<EngineCall, Error>)
        requires
            old(self).wf(),
            old(self)@.idle(),
        ensures
            final(self).wf(),
            r is Ok <==> lb.spec_le(ub),
            r matches Ok(call) ==> {
                &&& call@ == (EngineCallView::CreateVar {
                    slot: old(self)@.vars.len() as usize,
                    name: name@,
                    lb,
                    ub,
                    obj,
                    var_type: var_type.spec_code(),
                })
                &&& final(self)@ == old(self)@.begin_var(
                    old(self)@.next_var(lb, ub, obj, name@, var_type),
                )
            },
            r matches Err(e) ==> e == Error::InvalidBounds && final(self)@ == old(self)@,
    {
        if !lb.le(ub) {
            return Err(Error::InvalidBounds);
        }
        let slot = self.vars.len();
        let draft = Variable::draft(self.context, self.epoch, slot, lb, ub, obj, name, var_type);
        self.draft_var = Some(draft);
        self.phase = Phase::VarCreate;
        Ok(
            EngineCall::CreateVar {
                slot,
                name: name.to_owned(),
                lb,
                ub,
                obj,
                var_type: var_type.code(),
            },
        )
    }

    /// Begins the registration of the linear constraint
    /// `lhs <= sum of coefs[i] * vars[i] <= rhs` under the name `name`.
    /// It is refused where there are not as many coefficients as variables,
    /// and where a variable is not of the current problem.
    ///
    /// The registration takes a call to create the constraint, one call for
    /// each term, and a call to add the constraint to the problem. It ends
    /// with the owned handle of the constraint.
    pub fn add_cons(
        &mut self,
        vars: &[&Variable],
        coefs: &[Real],
        lhs: Real,
        rhs: Real,
        name: &str,
    ) -> (r: Result<EngineCall, Error>)
        requires
            old(self).wf(),
            old(self)@.idle(),
        ensures
            final(self).wf(),
            r is Ok <==> {
                &&& vars@.len() == coefs@.len()
                &&& forall|i: int| 0 <= i < vars@.len() ==> old(self)@.knows_var(#[trigger] vars@[i]@)
            },
            r matches Ok(call) ==> {
                &&& call@ == (EngineCallView::CreateConsLinear {
                    slot: old(self)@.conss.len() as usize,
                    name: name@,
                    lhs,
                    rhs,
                })
                &&& final(self)@ == old(self)@.begin_cons(
                    old(self)@.next_cons(terms_of(views(vars@), coefs@), lhs, rhs, name@),
                )
            },
            r matches Err(e) ==> {
                &&& final(self)@ == old(self)@
                &&& e == if vars@.len() != coefs@.len() {
                    Error::LengthMismatch
                } else {
                    Error::UnknownHandle
                }
            },
    {
        if vars.len() != coefs.len() {
            return Err(Error::LengthMismatch);
        }
        let mut terms: Vec<(usize, Real)> = Vec::new();
        let mut i: usize = 0;
        while i < vars.len()
            invariant
                i <= vars@.len(),
                vars@.len() == coefs@.len(),
                *self == *old(self),
                self.wf(),
                terms@.len() == i,
                forall|j: int| 0 <= j < i ==> self@.knows_var(#[trigger] vars@[j]@),
                forall|j: int|
                    0 <= j < i ==> #[trigger] terms@[j] == (vars@[j]@.slot, coefs@[j]),
            decreases vars@.len() - i,
        {
            if !self.knows_var(vars[i]) {
                return Err(Error::UnknownHandle);
            }
            terms.push((vars[i].slot(), coefs[i]));
            i = i + 1;
        }
        assert(terms@ =~= terms_of(views(vars@), coefs@));
        let slot = self.conss.len();
        let draft = Constraint::draft(self.context, self.epoch, slot, name, lhs, rhs, terms);
        self.draft_cons = Some(draft);
        self.phase = Phase::ConsCreate;
        Ok(EngineCall::CreateConsLinear { slot, name: name.to_owned(), lhs, rhs })
    }

    /// Gives up the reference that the owned handle `var` carries. Nothing
    /// is asked of the engine, and nothing changes, where the handle is not
    /// of the current problem, is borrowed, or names a variable whose
    /// reference was given up before: a second release of the same handle is
    /// refused, not passed on.
    pub fn release_var(&mut self, var: &Variable) -> (r: Result<EngineCall, Error>)
        requires
            old(self).wf(),
            old(self)@.idle(),
        ensures
            final(self).wf(),
            r is Ok <==> old(self)@.var_release_error(var@) is None,
            r matches Ok(call) ==> {
                &&& call@ == (EngineCallView::ReleaseVar { slot: var@.slot })
                &&& final(self)@ == old(self)@.begin_var_release(var@.slot)
            },
            r matches Err(e) ==> Some(e) == old(self)@.var_release_error(var@) && final(self)@
                == old(self)@,
    {
        if !self.knows_var(var) {
            return Err(Error::UnknownHandle);
        }
        if !var.is_owned() {
            return Err(Error::NotOwned);
        }
        let slot = var.slot();
        if !self.var_held[slot] {
            return Err(Error::AlreadyReleased);
        }
        self.var_held.set(slot, false);
        self.phase = Phase::Release;
        Ok(EngineCall::ReleaseVar { slot })
    }

    /// Gives up the reference that the owned handle `cons` carries, under
    /// the rules of [`Model::release_var`].
    pub fn release_cons(&mut self, cons: &Constraint) -> (r: Result<EngineCall, Error>)
        requires
            old(self).wf(),
            old(self)@.idle(),
        ensures
            final(self).wf(),
            r is Ok <==> old(self)@.cons_release_error(cons@) is None,
            r matches Ok(call) ==> {
                &&& call@ == (EngineCallView::ReleaseCons { slot: cons@.slot })
                &&& final(self)@ == old(self)@.begin_cons_release(cons@.slot)
            },
            r matches Err(e) ==> Some(e) == old(self)@.cons_release_error(cons@) && final(self)@
                == old(self)@,
    {
        if !self.knows_cons(cons) {
            return Err(Error::UnknownHandle);
        }
        if !cons.is_owned() {
            return Err(Error::NotOwned);
        }
        let slot = cons.slot();
        if !self.cons_held[slot] {
            return Err(Error::AlreadyReleased);
        }
        self.cons_held.set(slot, false);
        self.phase = Phase::Release;
        Ok(EngineCall::ReleaseCons { slot })
    }

    /// Tells whether `reply` answers the call that the session is waiting
    /// on.
    pub fn expects(&self, reply: &Reply) -> (r: bool)
        ensures
            r == self@.expects(reply@),
    {
        if self.is_idle() || !Retcode::is_known(reply.code()) {
            return false;
        }
        match self.phase {
            Phase::VarAdd => match reply {
                Reply::Added { .. } => true,
                _ => false,
            },
            Phase::ReadProb => match reply {
                Reply::Loaded { code, vars, conss } => *code != OKAY || is_loadable(vars, conss),
                _ => false,
            },
            Phase::Solve => match reply {
                Reply::Solved { code, status, .. } => *code != OKAY || Status::is_known(*status),
                _ => false,
            },
            _ => match reply {
                Reply::Code(_) => true,
                _ => false,
            },
        }
    }

    /// Takes the engine's answer to the call that the session is waiting on,
    /// and says how the operation goes on or how it ended.
    ///
    /// An answer that the session does not expect is excluded: one without a
    /// call to answer, one of another call's shape, one whose codes the
    /// engine does not define.
    pub fn resume(&mut self, reply: Reply) -> (step: Step)
        requires
            old(self).wf(),
            old(self)@.expects(reply@),
        ensures
            final(self).wf(),
            final(self)@ == old(self)@.resume(reply@).0,
            step@ == old(self)@.resume(reply@).1,
    {
        proof {
            old(self)@.lemma_resume_keeps_wf(reply@);
        }
        let code = reply.code();
        if code != OKAY {
            self.fail(Retcode::from_code(code))
        } else {
            self.succeed(reply)
        }
    }

    fn settle(&mut self)
        ensures
            final(self)@ == old(self)@.settled(),
    {
        self.phase = Phase::Idle;
        self.draft_var = None;
        self.draft_cons = None;
    }

    fn fail(&mut self, failure: Retcode) -> (step: Step)
        requires
            old(self).wf(),
        ensures
            final(self)@ == old(self)@.failed(failure).0,
            step@ == old(self)@.failed(failure).1,
    {
        match self.phase {
            Phase::VarAdd => {
                let slot = self.vars.len();
                self.draft_var = None;
                self.phase = Phase::Abort { code: failure };
                Step::Call(EngineCall::ReleaseVar { slot })
            },
            Phase::ConsCoef { .. } | Phase::ConsAdd => {
                let slot = self.conss.len();
                self.draft_cons = None;
                self.phase = Phase::Abort { code: failure };
                Step::Call(EngineCall::ReleaseCons { slot })
            },
            Phase::Abort { code } => {
                self.settle();
                Step::Failed(code)
            },
            _ => {
                self.settle();
                Step::Failed(failure)
            },
        }
    }

    fn succeed(&mut self, reply: Reply) -> (step: Step)
        requires
            old(self).wf(),
            old(self)@.expects(reply@),
            reply@.code() == OKAY,
        ensures
            final(self)@ == old(self)@.succeeded(reply@).0,
            step@ == old(self)@.succeeded(reply@).1,
    {
        match self.phase {
            Phase::Idle | Phase::Plain | Phase::Release => {
                self.settle();
                Step::Done
            },
            Phase::Plugins => {
                self.plugins = true;
                self.settle();
                Step::Done
            },
            Phase::CreateProb => {
                let vars: Vec<Variable> = Vec::new();
                let conss: Vec<Constraint> = Vec::new();
                assert(views(vars@) =~= Seq::empty());
                assert(views(conss@) =~= Seq::empty());
                self.replace(Source::Created, vars, conss);
                Step::Done
            },
            Phase::ReadProb => match reply {
                Reply::Loaded { code: _, vars, conss } => {
                    let epoch = self.epoch + 1;
                    let vars = report_vars(self.context, epoch, &vars);
                    let conss = report_conss(self.context, epoch, &conss);
                    self.replace(Source::Loaded, vars, conss);
                    Step::Done
                },
                _ => unreached(),
            },
            Phase::Solve => match reply {
                Reply::Solved { code: _, status, objective, best } => {
                    self.status = Status::from_code(status);
                    self.objective = Some(objective);
                    self.best = best;
                    self.settle();
                    Step::Done
                },
                _ => unreached(),
            },
            Phase::VarCreate => {
                self.phase = Phase::VarAdd;
                Step::Call(EngineCall::AddVar { slot: self.vars.len() })
            },
            Phase::VarAdd => match reply {
                Reply::Added { code: _, index } => {
                    let draft = self.draft_var.take().unwrap();
                    let var = draft.with_index(index);
                    let entry = var.borrowed();
                    proof {
                        lemma_views_push(self.vars@, entry);
                    }
                    self.vars.push(entry);
                    self.var_held.push(true);
                    self.settle();
                    Step::Variable(var)
                },
                _ => unreached(),
            },
            Phase::ConsCreate => self.next_term(0),
            Phase::ConsCoef { term } => {
                let n = match &self.draft_cons {
                    Some(draft) => draft.n_terms(),
                    None => unreached(),
                };
                assert(term < n);
                self.next_term(term + 1)
            },
            Phase::ConsAdd => {
                let draft = self.draft_cons.take().unwrap();
                let entry = draft.borrowed();
                proof {
                    lemma_views_push(self.conss@, entry);
                }
                self.conss.push(entry);
                self.cons_held.push(true);
                self.settle();
                Step::Constraint(draft)
            },
            Phase::Abort { code } => {
                self.settle();
                Step::Failed(code)
            },
        }
    }

    fn next_term(&mut self, term: usize) -> (step: Step)
        requires
            old(self)@.draft_cons is Some,
        ensures
            final(self)@ == old(self)@.next_term(term).0,
            step@ == old(self)@.next_term(term).1,
    {
        let call = match &self.draft_cons {
            Some(draft) => {
                if term < draft.n_terms() {
                    self.phase = Phase::ConsCoef { term };
                    EngineCall::AddCoefLinear {
                        cons: draft.slot(),
                        var: draft.term_var(term),
                        coef: draft.term_coef(term),
                    }
                } else {
                    self.phase = Phase::ConsAdd;
                    EngineCall::AddCons { slot: draft.slot() }
                }
            },
            None => unreached(),
        };
        Step::Call(call)
    }

    fn replace(&mut self, source: Source, vars: Vec<Variable>, conss: Vec<Constraint>)
        requires
            old(self)@.epoch < u64::MAX,
        ensures
            final(self)@ == old(self)@.replaced(source, views(vars@), views(conss@)),
    {
        self.var_held = falses(vars.len());
        self.cons_held = falses(conss.len());
        self.epoch = self.epoch + 1;
        self.source = source;
        self.vars = vars;
        self.conss = conss;
        self.status = Status::Unknown;
        self.objective = None;
        self.best = None;
        self.settle();
    }
}

/// A vector of `n` times `false`.
fn falses(n: usize) -> (r: Vec<bool>)
    ensures
        r@ == Seq::new(n as nat, |i: int| false),
{
    let mut r: Vec<bool> = Vec::new();
    let mut i: usize = 0;
    while i < n
        invariant
            i <= n,
            r@ == Seq::new(i as nat, |j: int| false),
        decreases n - i,
    {
        r.push(false);
        i = i + 1;
        assert(r@ =~= Seq::new(i as nat, |j: int| false));
    }
    r
}

/// Tells whether a reported problem can be taken over.
#[verifier::loop_isolation(false)]
fn is_loadable(vars: &Vec<VarData>, conss: &Vec<ConsData>) -> (r: bool)
    ensures
        r == loadable(views(vars@), views(conss@)),
{
    let mut i: usize = 0;
    while i < vars.len()
        invariant
            i <= vars@.len(),
            forall|j: int| 0 <= j < i ==> VarType::known(#[trigger] views(vars@)[j].var_type),
        decreases vars@.len() - i,
    {
        if !VarType::is_known(vars[i].var_type) {
            assert(!VarType::known(views(vars@)[i as int].var_type));
            return false;
        }
        i = i + 1;
    }
    let n = vars.len();
    let mut c: usize = 0;
    while c < conss.len()
        invariant
            c <= conss@.len(),
            n == vars@.len(),
            forall|j: int| 0 <= j < n ==> VarType::known(#[trigger] views(vars@)[j].var_type),
            forall|a: int, t: int|
                0 <= a < c && 0 <= t < views(conss@)[a].terms.len() ==> (#[trigger] views(
                    conss@,
                )[a].terms[t]).0 < n,
        decreases conss@.len() - c,
    {
        let terms = &conss[c].terms;
        assert(terms@ == views(conss@)[c as int].terms);
        let mut t: usize = 0;
        while t < terms.len()
            invariant
                t <= terms@.len(),
                forall|u: int| 0 <= u < t ==> (#[trigger] terms@[u]).0 < n,
            decreases terms@.len() - t,
        {
            if terms[t].0 >= n {
                assert(!((views(conss@)[c as int].terms[t as int]).0 < n));
                return false;
            }
            t = t + 1;
        }
        c = c + 1;
    }
    true
}

/// The borrowed handles of the variables that the engine reported.
fn report_vars(context: u64, epoch: u64, data: &Vec<VarData>) -> (r: Vec<Variable>)
    requires
        forall|i: int| 0 <= i < data@.len() ==> VarType::known(#[trigger] views(data@)[i].var_type),
    ensures
        views(r@) == reported_vars(context, epoch, views(data@)),
{
    let mut r: Vec<Variable> = Vec::new();
    let mut i: usize = 0;
    while i < data.len()
        invariant
            i <= data@.len(),
            r@.len() == i,
            forall|j: int|
                0 <= j < data@.len() ==> VarType::known(#[trigger] views(data@)[j].var_type),
            forall|j: int|
                0 <= j < i ==> (#[trigger] r@[j])@ == reported_vars(context, epoch, views(data@))[j],
        decreases data@.len() - i,
    {
        assert(VarType::known(views(data@)[i as int].var_type));
        r.push(Variable::reported(context, epoch, i, &data[i]));
        i = i + 1;
    }
    assert(views(r@) =~= reported_vars(context, epoch, views(data@)));
    r
}

/// The borrowed handles of the constraints that the engine reported.
fn report_conss(context: u64, epoch: u64, data: &Vec<ConsData>) -> (r: Vec<Constraint>)
    ensures
        views(r@) == reported_conss(context, epoch, views(data@)),
{
    let mut r: Vec<Constraint> = Vec::new();
    let mut i: usize = 0;
    while i < data.len()
        invariant
            i <= data@.len(),
            r@.len() == i,
            forall|j: int|
                0 <= j < i ==> (#[trigger] r@[j])@ == reported_conss(context, epoch, views(data@))[j],
        decreases data@.len() - i,
    {
        r.push(Constraint::reported(context, epoch, i, &data[i]));
        i = i + 1;
    }
    assert(views(r@) =~= reported_conss(context, epoch, views(data@)));
    r
}

} // verus!
