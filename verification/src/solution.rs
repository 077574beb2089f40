//! Solutions: the values that a solve assigned to the variables.

use crate::reals::Real;
use crate::variable::{Variable, VariableView};
use vstd::prelude::*;

verus! {

/// The mathematical content of a [`Solution`].
pub struct SolutionView {
    /// The context whose solve produced the solution.
    pub context: u64,
    /// The problem of that context which was solved.
    pub epoch: u64,
    /// The assigned values, by the engine's index of the variable.
    pub values: Seq<Real>,
}

impl SolutionView {
    /// Whether the solution holds a value for the variable: both come from
    /// the same problem of the same context, and the variable has an index
    /// within the assignment.
    pub open spec fn covers(self, var: VariableView) -> bool {
        &&& var.context == self.context
        &&& var.epoch == self.epoch
        &&& var.index matches Some(i) && i < self.values.len()
    }
}

/// A read-only snapshot of the assignment that a solve produced.
#[derive(Debug)]
pub struct Solution {
    context: u64,
    epoch: u64,
    values: Vec<Real>,
}

impl View for Solution {
    type V = SolutionView;

    closed spec fn view(&self) -> SolutionView {
        SolutionView { context: self.context, epoch: self.epoch, values: self.values@ }
    }
}

impl Solution {
    pub(crate) fn new(context: u64, epoch: u64, values: Vec<Real>) -> (s: Solution)
        ensures
            s@ == (SolutionView { context, epoch, values: values@ }),
    {
        Solution { context, epoch, values }
    }

    /// Tells whether the solution holds a value for `var`.
    pub fn covers(&self, var: &Variable) -> (r: bool)
        ensures
            r == self@.covers(var@),
    {
        var.context() == self.context && var.epoch() == self.epoch && var.is_in_pool()
            && var.get_index() < self.values.len()
    }

    /// The value assigned to `var`. The handle must come from the problem
    /// that was solved; a handle from elsewhere is excluded, not answered.
    pub fn get_var_val(&self, var: &Variable) -> (r: Real)
        requires
            self@.covers(var@),
        ensures
            r == self@.values[var@.index->0 as int],
    {
        self.values[var.get_index()]
    }
}

} // verus!
