//! Linear constraints and the handles that stand for them.

use crate::reals::Real;
use crate::seqs::copied;
use vstd::prelude::*;

verus! {

/// A linear constraint as the engine reports it.
#[derive(Debug)]
pub struct ConsData {
    pub name: String,
    /// Left-hand side of the constraint.
    pub lhs: Real,
    /// Right-hand side of the constraint.
    pub rhs: Real,
    /// Each term: the position of its variable among the reported
    /// variables, and its coefficient.
    pub terms: Vec<(usize, Real)>,
}

/// The mathematical content of a [`ConsData`].
pub struct ConsDataView {
    pub name: Seq<char>,
    pub lhs: Real,
    pub rhs: Real,
    pub terms: Seq<(usize, Real)>,
}

impl View for ConsData {
    type V = ConsDataView;

    open spec fn view(&self) -> ConsDataView {
        ConsDataView { name: self.name@, lhs: self.lhs, rhs: self.rhs, terms: self.terms@ }
    }
}

/// The mathematical content of a [`Constraint`]: the constraint
/// `lhs <= sum of coefficient * variable over the terms <= rhs`.
pub struct ConstraintView {
    /// The context that issued the handle.
    pub context: u64,
    /// The problem of that context for which it was issued.
    pub epoch: u64,
    /// Position of the constraint among the constraints of that problem.
    pub slot: usize,
    /// Whether the handle carries a reference that its holder must release.
    pub owned: bool,
    pub name: Seq<char>,
    pub lhs: Real,
    pub rhs: Real,
    /// Each term: the slot of its variable, and its coefficient.
    pub terms: Seq<(usize, Real)>,
}

impl ConstraintView {
    /// The same constraint, seen through a handle that owns no reference.
    pub open spec fn borrowed(self) -> ConstraintView {
        ConstraintView { owned: false, ..self }
    }
}

/// A handle to one linear constraint of a context. Like a variable handle
/// it is a snapshot, owned if it came from a registration and borrowed if
/// it came from an enumeration.
#[derive(Debug)]
pub struct Constraint {
    context: u64,
    epoch: u64,
    slot: usize,
    owned: bool,
    name: String,
    lhs: Real,
    rhs: Real,
    terms: Vec<(usize, Real)>,
}

impl View for Constraint {
    type V = ConstraintView;

    closed spec fn view(&self) -> ConstraintView {
        ConstraintView {
            context: self.context,
            epoch: self.epoch,
            slot: self.slot,
            owned: self.owned,
            name: self.name@,
            lhs: self.lhs,
            rhs: self.rhs,
            terms: self.terms@,
        }
    }
}

impl Constraint {
    /// Makes the owned handle of a constraint that is being registered.
    pub(crate) fn draft(
        context: u64,
        epoch: u64,
        slot: usize,
        name: &str,
        lhs: Real,
        rhs: Real,
        terms: Vec<(usize, Real)>,
    ) -> (c: Constraint)
        ensures
            c@ == (ConstraintView {
                context,
                epoch,
                slot,
                owned: true,
                name: name@,
                lhs,
                rhs,
                terms: terms@,
            }),
    {
        Constraint { context, epoch, slot, owned: true, name: name.to_owned(), lhs, rhs, terms }
    }

    /// Makes the borrowed handle of a constraint that the engine reported.
    pub(crate) fn reported(context: u64, epoch: u64, slot: usize, data: &ConsData) -> (c:
        Constraint)
        ensures
            c@ == (ConstraintView {
                context,
                epoch,
                slot,
                owned: false,
                name: data.name@,
                lhs: data.lhs,
                rhs: data.rhs,
                terms: data.terms@,
            }),
    {
        Constraint {
            context,
            epoch,
            slot,
            owned: false,
            name: data.name.clone(),
            lhs: data.lhs,
            rhs: data.rhs,
            terms: copied(&data.terms),
        }
    }

    /// A borrowed handle to the same constraint.
    pub fn borrowed(&self) -> (c: Constraint)
        ensures
            c@ == self@.borrowed(),
    {
        Constraint {
            context: self.context,
            epoch: self.epoch,
            slot: self.slot,
            owned: false,
            name: self.name.clone(),
            lhs: self.lhs,
            rhs: self.rhs,
            terms: copied(&self.terms),
        }
    }

    pub fn context(&self) -> (r: u64)
        ensures
            r == self@.context,
    {
        self.context
    }

    pub fn epoch(&self) -> (r: u64)
        ensures
            r == self@.epoch,
    {
        self.epoch
    }

    pub fn slot(&self) -> (r: usize)
        ensures
            r == self@.slot,
    {
        self.slot
    }

    /// Whether the holder of this handle has a reference to release.
    pub fn is_owned(&self) -> (r: bool)
        ensures
            r == self@.owned,
    {
        self.owned
    }

    pub fn get_name(&self) -> (r: String)
        ensures
            r@ == self@.name,
    {
        self.name.clone()
    }

    /// The left-hand side.
    pub fn get_lhs(&self) -> (r: Real)
        ensures
            r == self@.lhs,
    {
        self.lhs
    }

    /// The right-hand side.
    pub fn get_rhs(&self) -> (r: Real)
        ensures
            r == self@.rhs,
    {
        self.rhs
    }

    /// The number of terms.
    pub fn n_terms(&self) -> (r: usize)
        ensures
            r == self@.terms.len(),
    {
        self.terms.len()
    }

    /// The slot of the variable of term `i`.
    pub fn term_var(&self, i: usize) -> (r: usize)
        requires
            i < self@.terms.len(),
        ensures
            r == self@.terms[i as int].0,
    {
        self.terms[i].0
    }

    /// The coefficient of term `i`.
    pub fn term_coef(&self, i: usize) -> (r: Real)
        requires
            i < self@.terms.len(),
        ensures
            r == self@.terms[i as int].1,
    {
        self.terms[i].1
    }
}

} // verus!
