//! What holds of every session, whatever the engine answers.

use crate::call::{EngineCallView, ReplyView, StepView};
use crate::constraint::ConstraintView;
use crate::machine::Phase;
use crate::model::Model;
use crate::reals::Real;
use crate::retcode::{Retcode, OKAY};
use crate::variable::{pool_index, VarType, VariableView};
use vstd::prelude::*;

verus! {

/// A variable reads back as it was registered.
///
/// When the engine answers both calls of a registration with success, the
/// registration ends with an owned handle that shows exactly the bounds, the
/// objective coefficient, the name and the kind that were given, and the
/// index that the engine reported. The session then holds one variable more,
/// the new one last, with the same attributes and its reference held.
pub proof fn lemma_variable_reads_back(
    m: Model,
    lb: Real,
    ub: Real,
    obj: Real,
    name: Seq<char>,
    var_type: VarType,
    index: i32,
)
    requires
        m.wf(),
        m@.idle(),
    ensures
        ({
            let begun = m@.begin_var(m@.next_var(lb, ub, obj, name, var_type));
            let created = begun.resume(ReplyView::Code(OKAY));
            let added = created.0.resume(ReplyView::Added { code: OKAY, index });
            &&& begun.wf()
            &&& created.1 == StepView::Call(EngineCallView::AddVar { slot: m@.vars.len() as usize })
            &&& added.1 matches StepView::Variable(v)
            &&& v.lb == lb
            &&& v.ub == ub
            &&& v.obj == obj
            &&& v.name == name
            &&& v.var_type == var_type
            &&& v.index == pool_index(index)
            &&& v.owned
            &&& added.0.wf()
            &&& added.0.idle()
            &&& added.0.knows_var(v)
            &&& added.0.vars == m@.vars.push(v.borrowed())
            &&& added.0.var_held == m@.var_held.push(true)
            &&& added.0.var_release_error(v) is None
        }),
{
    m.lemma_counts_fit();
}

/// A registration that fails leaves the problem as it was.
///
/// If creating the variable fails, the registration ends with that failure
/// at once. If adding it fails, the session first asks for the release of
/// the variable that was created, and ends with the failure of the addition
/// whatever the answer to the release. In both cases the session is left
/// with the variables it had.
pub proof fn lemma_failed_variable_leaves_no_trace(
    m: Model,
    draft: VariableView,
    code: i32,
    release: ReplyView,
)
    requires
        m.wf(),
        m@.idle(),
        draft == m@.next_var(draft.lb, draft.ub, draft.obj, draft.name, draft.var_type),
        m@.begin_var(draft).expects(ReplyView::Code(code)),
        code != OKAY,
        release is Code,
    ensures
        ({
            let begun = m@.begin_var(draft);
            let failure = Retcode::spec_from_code(code as int);
            let refused = begun.resume(ReplyView::Code(code));
            let created = begun.resume(ReplyView::Code(OKAY));
            let given_up = created.0.resume(ReplyView::Added { code, index: 0 });
            let ended = given_up.0.resume(release);
            &&& refused == (m@, StepView::Failed(failure))
            &&& given_up.1 == StepView::Call(
                EngineCallView::ReleaseVar { slot: m@.vars.len() as usize },
            )
            &&& ended == (m@, StepView::Failed(failure))
        }),
{
    m.lemma_counts_fit();
}

/// A reference is given up once.
///
/// Once the release of a variable's reference has begun, every handle to
/// that variable is refused a release, whatever the engine answered to the
/// first: the session asks the engine for no second release.
pub proof fn lemma_var_released_once(m: Model, v: VariableView, reply: ReplyView, w: VariableView)
    requires
        m.wf(),
        m@.idle(),
        m@.var_release_error(v) is None,
        m@.begin_var_release(v.slot).expects(reply),
        w.slot == v.slot,
    ensures
        m@.begin_var_release(v.slot).wf(),
        m@.begin_var_release(v.slot).resume(reply).0.var_release_error(w) is Some,
{
}

/// A reference to a constraint is given up once, as one to a variable is.
pub proof fn lemma_cons_released_once(
    m: Model,
    c: ConstraintView,
    reply: ReplyView,
    d: ConstraintView,
)
    requires
        m.wf(),
        m@.idle(),
        m@.cons_release_error(c) is None,
        m@.begin_cons_release(c.slot).expects(reply),
        d.slot == c.slot,
    ensures
        m@.begin_cons_release(c.slot).wf(),
        m@.begin_cons_release(c.slot).resume(reply).0.cons_release_error(d) is Some,
{
}

/// No answer gives a reference back, and no answer releases what was
/// registered.
///
/// While the problem stays the same, an answer changes no mark of a
/// reference that the session has on record. Where the session asks for a
/// release after an answer, it is the release of the object whose
/// registration just failed: that object never was on record, and nothing
/// else changes.
pub proof fn lemma_answers_release_only_drafts(m: Model, reply: ReplyView)
    requires
        m.wf(),
        m@.expects(reply),
    ensures
        ({
            let (next, step) = m@.resume(reply);
            &&& next.epoch == m@.epoch ==> {
                &&& m@.var_held.is_prefix_of(next.var_held)
                &&& m@.cons_held.is_prefix_of(next.cons_held)
            }
            &&& step matches StepView::Call(EngineCallView::ReleaseVar { slot }) ==> {
                &&& m@.phase is VarAdd
                &&& slot == m@.vars.len()
                &&& next.vars == m@.vars
                &&& next.var_held == m@.var_held
            }
            &&& step matches StepView::Call(EngineCallView::ReleaseCons { slot }) ==> {
                &&& m@.phase is ConsCoef || m@.phase is ConsAdd
                &&& slot == m@.conss.len()
                &&& next.conss == m@.conss
                &&& next.cons_held == m@.cons_held
            }
        }),
{
    m.lemma_counts_fit();
}

/// After `sent` answers of success, a registration of a constraint with at
/// least `sent` terms is where it began, but for what it waits on: the
/// answer to the creation if `sent` is 0, else the answer to the term
/// before `sent`.
pub proof fn lemma_terms_go_in_order(m: Model, draft: ConstraintView, sent: nat)
    requires
        m.wf(),
        m@.idle(),
        draft == m@.next_cons(draft.terms, draft.lhs, draft.rhs, draft.name),
        forall|t: int| 0 <= t < draft.terms.len() ==> (#[trigger] draft.terms[t]).0 < m@.vars.len(),
        sent <= draft.terms.len() <= usize::MAX,
    ensures
        m@.begin_cons(draft).after_successes(sent) == if sent == 0 {
            m@.begin_cons(draft)
        } else {
            m@.begin_cons(draft).await_answer(Phase::ConsCoef { term: (sent - 1) as usize })
        },
        m@.begin_cons(draft).after_successes(sent).wf(),
    decreases sent,
{
    m.lemma_counts_fit();
    if sent > 0 {
        lemma_terms_go_in_order(m, draft, (sent - 1) as nat);
    }
}

/// A constraint is registered term by term, and reads back as it was given.
///
/// When the engine answers every call with success, the session asks, after
/// the creation, for each term in the order given, then for the addition of
/// the constraint to the problem, and ends with an owned handle that shows
/// the name, the sides and the terms that were given. The session then
/// holds one constraint more, the new one last, with its reference held.
pub proof fn lemma_constraint_reads_back(m: Model, draft: ConstraintView, term: nat)
    requires
        m.wf(),
        m@.idle(),
        draft == m@.next_cons(draft.terms, draft.lhs, draft.rhs, draft.name),
        forall|t: int| 0 <= t < draft.terms.len() ==> (#[trigger] draft.terms[t]).0 < m@.vars.len(),
        term < draft.terms.len() <= usize::MAX,
    ensures
        ({
            let begun = m@.begin_cons(draft);
            let n = draft.terms.len();
            let slot = m@.conss.len() as usize;
            let last = begun.after_successes(n + 1);
            let ended = last.resume(ReplyView::Code(OKAY));
            &&& begun.after_successes(term).resume(ReplyView::Code(OKAY)).1 == StepView::Call(
                EngineCallView::AddCoefLinear {
                    cons: slot,
                    var: draft.terms[term as int].0,
                    coef: draft.terms[term as int].1,
                },
            )
            &&& begun.after_successes(n).resume(ReplyView::Code(OKAY)).1 == StepView::Call(
                EngineCallView::AddCons { slot },
            )
            &&& ended.1 == StepView::Constraint(draft)
            &&& ended.0.wf()
            &&& ended.0.idle()
            &&& ended.0.conss == m@.conss.push(draft.borrowed())
            &&& ended.0.cons_held == m@.cons_held.push(true)
            &&& ended.0.vars == m@.vars
        }),
{
    m.lemma_counts_fit();
    let n = draft.terms.len();
    lemma_terms_go_in_order(m, draft, term);
    lemma_terms_go_in_order(m, draft, n);
    let begun = m@.begin_cons(draft);
    assert(begun.after_successes(n + 1) == begun.after_successes(n).resume(
        ReplyView::Code(OKAY),
    ).0);
    begun.after_successes(n + 1).lemma_resume_keeps_wf(ReplyView::Code(OKAY));
}

} // verus!
