//! Decision variables: their kinds, and the handles that stand for them.

use crate::call::{EngineCall, EngineCallView};
use crate::error::Error;
use crate::model::Model;
use crate::reals::Real;
use vstd::prelude::*;

verus! {

/// The kind of a decision variable.
#[derive(Clone, Copy, Debug, PartialEq, Eq, Structural)]
pub enum VarType {
    /// Any real value within the bounds.
    Continuous,
    /// An integer value within the bounds.
    Integer,
    /// Zero or one.
    Binary,
    /// A continuous variable that takes an integer value in every solution.
    ImplInt,
}

impl VarType {
    /// The engine's integer for this kind.
    pub open spec fn spec_code(self) -> u32 {
        match self {
            VarType::Binary => 0,
            VarType::Integer => 1,
            VarType::ImplInt => 2,
            VarType::Continuous => 3,
        }
    }

    /// Whether `code` is a variable kind the engine defines.
    pub open spec fn known(code: u32) -> bool {
        code <= 3
    }

    /// The kind that a known code stands for.
    pub open spec fn spec_from_code(code: u32) -> VarType {
        if code == 0 {
            VarType::Binary
        } else if code == 1 {
            VarType::Integer
        } else if code == 2 {
            VarType::ImplInt
        } else {
            VarType::Continuous
        }
    }

    #[verifier::when_used_as_spec(spec_code)]
    pub fn code(self) -> (c: u32)
        ensures
            c == self.spec_code(),
    {
        match self {
            VarType::Binary => 0,
            VarType::Integer => 1,
            VarType::ImplInt => 2,
            VarType::Continuous => 3,
        }
    }

    /// Tells whether the engine defines `code`.
    pub fn is_known(code: u32) -> (r: bool)
        ensures
            r == VarType::known(code),
    {
        code <= 3
    }

    /// Turns a kind code reported by the engine into the kind it names. A
    /// code the engine does not define is excluded.
    pub fn from_code(code: u32) -> (r: VarType)
        requires
            VarType::known(code),
        ensures
            r == VarType::spec_from_code(code),
            r.spec_code() == code,
    {
        match code {
            0 => VarType::Binary,
            1 => VarType::Integer,
            2 => VarType::ImplInt,
            _ => VarType::Continuous,
        }
    }

    /// Every kind has a known code, and that code leads back to the kind.
    pub proof fn lemma_code_round_trip(self)
        ensures
            VarType::known(self.spec_code()),
            VarType::spec_from_code(self.spec_code()) == self,
    {
    }

    /// Every known code is the code of the kind it stands for.
    pub proof fn lemma_from_code_round_trip(code: u32)
        requires
            VarType::known(code),
        ensures
            VarType::spec_from_code(code).spec_code() == code,
    {
    }
}

/// Where a variable stands in the engine's processing of the problem.
#[derive(Clone, Copy, Debug, PartialEq, Eq, Structural)]
pub enum VarStatus {
    /// Belongs to the original problem.
    Original,
    /// Loose in the transformed problem: not yet a column of the LP.
    Loose,
    /// A column of the current LP.
    Column,
    /// Fixed to a value.
    Fixed,
    /// Aggregated to one other variable.
    Aggregated,
    /// Aggregated to several other variables.
    MultiAggregated,
    /// The negation of another variable.
    NegatedVar,
}

impl VarStatus {
    /// Whether `code` is a variable status the engine defines.
    pub open spec fn known(code: u32) -> bool {
        code <= 6
    }

    /// The status that a known code stands for.
    pub open spec fn spec_from_code(code: u32) -> VarStatus {
        if code == 0 {
            VarStatus::Original
        } else if code == 1 {
            VarStatus::Loose
        } else if code == 2 {
            VarStatus::Column
        } else if code == 3 {
            VarStatus::Fixed
        } else if code == 4 {
            VarStatus::Aggregated
        } else if code == 5 {
            VarStatus::MultiAggregated
        } else {
            VarStatus::NegatedVar
        }
    }

    /// Tells whether the engine defines `code`.
    pub fn is_known(code: u32) -> (r: bool)
        ensures
            r == VarStatus::known(code),
    {
        code <= 6
    }

    /// Turns a status code reported by the engine into the status it names.
    /// A code the engine does not define is excluded.
    pub fn from_code(code: u32) -> (r: VarStatus)
        requires
            VarStatus::known(code),
        ensures
            r == VarStatus::spec_from_code(code),
    {
        match code {
            0 => VarStatus::Original,
            1 => VarStatus::Loose,
            2 => VarStatus::Column,
            3 => VarStatus::Fixed,
            4 => VarStatus::Aggregated,
            5 => VarStatus::MultiAggregated,
            _ => VarStatus::NegatedVar,
        }
    }

    /// Distinct known codes stand for distinct statuses.
    pub proof fn lemma_from_code_injective(a: u32, b: u32)
        requires
            VarStatus::known(a),
            VarStatus::known(b),
            VarStatus::spec_from_code(a) == VarStatus::spec_from_code(b),
        ensures
            a == b,
    {
    }
}

/// A variable as the engine reports it, attribute by attribute, before any
/// of it is interpreted.
#[derive(Debug)]
pub struct VarData {
    /// The engine's index for the variable; negative while the variable is
    /// in no pool.
    pub index: i32,
    pub name: String,
    /// Objective coefficient.
    pub obj: Real,
    /// Local lower bound.
    pub lb: Real,
    /// Local upper bound.
    pub ub: Real,
    /// The engine's code for the variable's kind.
    pub var_type: u32,
}

/// The mathematical content of a [`VarData`].
pub struct VarDataView {
    pub index: i32,
    pub name: Seq<char>,
    pub obj: Real,
    pub lb: Real,
    pub ub: Real,
    pub var_type: u32,
}

impl View for VarData {
    type V = VarDataView;

    open spec fn view(&self) -> VarDataView {
        VarDataView {
            index: self.index,
            name: self.name@,
            obj: self.obj,
            lb: self.lb,
            ub: self.ub,
            var_type: self.var_type,
        }
    }
}

/// The index that a reported engine index denotes: none while it is
/// negative, that is, while the variable is in no pool.
pub open spec fn pool_index(raw: i32) -> Option<usize> {
    if raw < 0 {
        None
    } else {
        Some(raw as usize)
    }
}

/// Interprets an engine index as reported: none while it is negative.
pub fn index_in_pool(raw: i32) -> (r: Option<usize>)
    ensures
        r == pool_index(raw),
{
    if raw < 0 {
        None
    } else {
        Some(raw as usize)
    }
}

/// The mathematical content of a [`Variable`].
pub struct VariableView {
    /// The context that issued the handle.
    pub context: u64,
    /// The problem of that context for which it was issued.
    pub epoch: u64,
    /// Position of the variable among the variables of that problem.
    pub slot: usize,
    /// Whether the handle carries a reference that its holder must release.
    pub owned: bool,
    /// The engine's index, once the variable is in a pool.
    pub index: Option<usize>,
    pub name: Seq<char>,
    pub obj: Real,
    pub lb: Real,
    pub ub: Real,
    pub var_type: VarType,
}

impl VariableView {
    /// The same variable, seen through a handle that owns no reference.
    pub open spec fn borrowed(self) -> VariableView {
        VariableView { owned: false, ..self }
    }
}

/// A handle to one decision variable of a context.
///
/// A handle is a snapshot: it holds the attributes that the variable had
/// when the handle was issued. A handle that came from a registration is
/// owned and is to be released once; a handle that came from an enumeration
/// is borrowed and is never released.
#[derive(Debug)]
pub struct Variable {
    context: u64,
    epoch: u64,
    slot: usize,
    owned: bool,
    index: Option<usize>,
    name: String,
    obj: Real,
    lb: Real,
    ub: Real,
    var_type: VarType,
}

impl View for Variable {
    type V = VariableView;

    closed spec fn view(&self) -> VariableView {
        VariableView {
            context: self.context,
            epoch: self.epoch,
            slot: self.slot,
            owned: self.owned,
            index: self.index,
            name: self.name@,
            obj: self.obj,
            lb: self.lb,
            ub: self.ub,
            var_type: self.var_type,
        }
    }
}

impl Variable {
    /// Begins the registration of a variable in the session `model`, as
    /// [`Model::add_var`] does: the session waits for the answer to the
    /// creation, and the registration ends with the owned handle.
    pub fn new(
        model: &mut Model,
        lb: Real,
        ub: Real,
        obj: Real,
        name: &str,
        var_type: VarType,
    ) -> (r: Result<EngineCall, Error>)
        requires
            old(model).wf(),
            old(model)@.idle(),
        ensures
            final(model).wf(),
            r is Ok <==> lb.spec_le(ub),
            r matches Ok(call) ==> {
                &&& call@ == (EngineCallView::CreateVar {
                    slot: old(model)@.vars.len() as usize,
                    name: name@,
                    lb,
                    ub,
                    obj,
                    var_type: var_type.spec_code(),
                })
                &&& final(model)@ == old(model)@.begin_var(
                    old(model)@.next_var(lb, ub, obj, name@, var_type),
                )
            },
            r matches Err(e) ==> e == Error::InvalidBounds && final(model)@ == old(model)@,
    {
        model.add_var(lb, ub, obj, name, var_type)
    }

    /// Makes the handle of a variable that is in no pool yet.
    pub(crate) fn draft(
        context: u64,
        epoch: u64,
        slot: usize,
        lb: Real,
        ub: Real,
        obj: Real,
        name: &str,
        var_type: VarType,
    ) -> (v: Variable)
        ensures
            v@ == (VariableView {
                context,
                epoch,
                slot,
                owned: true,
                index: None,
                name: name@,
                obj,
                lb,
                ub,
                var_type,
            }),
    {
        Variable {
            context,
            epoch,
            slot,
            owned: true,
            index: None,
            name: name.to_owned(),
            obj,
            lb,
            ub,
            var_type,
        }
    }

    /// Makes the borrowed handle of a variable that the engine reported.
    pub(crate) fn reported(context: u64, epoch: u64, slot: usize, data: &VarData) -> (v: Variable)
        requires
            VarType::known(data.var_type),
        ensures
            v@ == (VariableView {
                context,
                epoch,
                slot,
                owned: false,
                index: pool_index(data.index),
                name: data.name@,
                obj: data.obj,
                lb: data.lb,
                ub: data.ub,
                var_type: VarType::spec_from_code(data.var_type),
            }),
    {
        Variable {
            context,
            epoch,
            slot,
            owned: false,
            index: index_in_pool(data.index),
            name: data.name.clone(),
            obj: data.obj,
            lb: data.lb,
            ub: data.ub,
            var_type: VarType::from_code(data.var_type),
        }
    }

    /// The same handle with the index that the engine reported.
    pub(crate) fn with_index(self, raw: i32) -> (v: Variable)
        ensures
            v@ == (VariableView { index: pool_index(raw), ..self@ }),
    {
        Variable { index: index_in_pool(raw), ..self }
    }

    /// A borrowed handle to the same variable. It shows the same attributes
    /// and carries no reference to release.
    pub fn borrowed(&self) -> (v: Variable)
        ensures
            v@ == self@.borrowed(),
    {
        Variable {
            context: self.context,
            epoch: self.epoch,
            slot: self.slot,
            owned: false,
            index: self.index,
            name: self.name.clone(),
            obj: self.obj,
            lb: self.lb,
            ub: self.ub,
            var_type: self.var_type,
        }
    }

    pub fn context(&self) -> (r: u64)
        ensures
            r == self@.context,
    {
        self.context
    }

    pub fn epoch(&self) -> (r: u64)
        ensures
            r == self@.epoch,
    {
        self.epoch
    }

    pub fn slot(&self) -> (r: usize)
        ensures
            r == self@.slot,
    {
        self.slot
    }

    /// Whether the holder of this handle has a reference to release.
    pub fn is_owned(&self) -> (r: bool)
        ensures
            r == self@.owned,
    {
        self.owned
    }

    /// Whether the variable was in a pool when the handle was issued, so
    /// that it has an index.
    pub fn is_in_pool(&self) -> (r: bool)
        ensures
            r == self@.index is Some,
    {
        self.index.is_some()
    }

    /// The engine's index of the variable. A variable that is in no pool
    /// has none, and asking for it is excluded rather than answered.
    pub fn get_index(&self) -> (r: usize)
        requires
            self@.index is Some,
        ensures
            Some(r) == self@.index,
    {
        self.index.unwrap()
    }

    pub fn get_name(&self) -> (r: String)
        ensures
            r@ == self@.name,
    {
        self.name.clone()
    }

    /// The objective coefficient.
    pub fn get_obj(&self) -> (r: Real)
        ensures
            r == self@.obj,
    {
        self.obj
    }

    /// The local lower bound.
    pub fn get_lb(&self) -> (r: Real)
        ensures
            r == self@.lb,
    {
        self.lb
    }

    /// The local upper bound.
    pub fn get_ub(&self) -> (r: Real)
        ensures
            r == self@.ub,
    {
        self.ub
    }

    pub fn get_type(&self) -> (r: VarType)
        ensures
            r == self@.var_type,
    {
        self.var_type
    }
}

} // verus!
