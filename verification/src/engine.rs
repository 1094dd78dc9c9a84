//! What the control core reads of the configuration engine.
//!
//! The engine itself lives with the driver. Before each step the driver takes
//! a snapshot of it, and every decision of the core is a function of such a
//! snapshot.

use vstd::prelude::*;

verus! {

/// The plan that is in effect, as far as the core reads it.
#[derive(Clone, Debug, PartialEq, Eq)]
pub struct ActivePlan {
    /// The name that identifies the plan.
    pub name: String,
    /// Seconds after which the plan is applied again, where it sets any.
    pub update_interval_sec: Option<u32>,
}

/// Mathematical value of an [`ActivePlan`].
pub struct ActivePlanView {
    pub name: Seq<char>,
    pub update_interval_sec: Option<u32>,
}

impl DeepView for ActivePlan {
    type V = ActivePlanView;

    open spec fn deep_view(&self) -> ActivePlanView {
        ActivePlanView { name: self.name@, update_interval_sec: self.update_interval_sec }
    }
}

/// A snapshot of the engine: the count of plans it reports, the names of its
/// plans in its own order, and the active plan if there is one.
#[derive(Clone, Debug, PartialEq, Eq)]
pub struct EngineState {
    /// The number of plans, as the engine reports it.
    pub number_of_plans: usize,
    /// The names of the available plans, in the engine's order.
    pub plan_names: Vec<String>,
    /// The active plan; `None` when no plan is active.
    pub active_plan: Option<ActivePlan>,
}

/// Mathematical value of an [`EngineState`].
pub struct EngineStateView {
    pub number_of_plans: usize,
    pub plan_names: Seq<Seq<char>>,
    pub active_plan: Option<ActivePlanView>,
}

impl EngineStateView {
    /// The list holds a plan at position `i`, and it is the active one.
    pub open spec fn is_active(self, i: int) -> bool {
        &&& 0 <= i < self.plan_names.len()
        &&& match self.active_plan {
            Some(plan) => plan.name == self.plan_names[i],
            None => false,
        }
    }

    /// No two plans share a name.
    pub open spec fn names_are_unique(self) -> bool {
        forall|i: int, j: int|
            0 <= i < self.plan_names.len() && 0 <= j < self.plan_names.len()
                && self.plan_names[i] == self.plan_names[j] ==> i == j
    }

    /// The snapshot is one that a sound engine gives: the reported count is
    /// the length of the list, names identify plans, and the active plan is
    /// one of the list.
    pub open spec fn is_consistent(self) -> bool {
        &&& self.number_of_plans == self.plan_names.len()
        &&& self.names_are_unique()
        &&& match self.active_plan {
            Some(plan) => self.plan_names.contains(plan.name),
            None => true,
        }
    }
}

impl DeepView for EngineState {
    type V = EngineStateView;

    open spec fn deep_view(&self) -> EngineStateView {
        EngineStateView {
            number_of_plans: self.number_of_plans,
            plan_names: self.plan_names.deep_view(),
            active_plan: self.active_plan.deep_view(),
        }
    }
}

impl EngineState {
    /// A snapshot of the given plans, with the count that belongs to them.
    pub fn new(plan_names: Vec<String>, active_plan: Option<ActivePlan>) -> (state: EngineState)
        ensures
            state.number_of_plans == plan_names.len(),
            state.plan_names == plan_names,
            state.active_plan == active_plan,
            state.deep_view().number_of_plans == state.deep_view().plan_names.len(),
    {
        let number_of_plans: usize = plan_names.len();
        EngineState { number_of_plans, plan_names, active_plan }
    }

    /// The name of the plan at position `index`, if the list reaches that far.
    pub fn plan_by_index(&self, index: usize) -> (name: Option<&String>)
        ensures
            index < self.plan_names.len() ==> name == Some(&self.plan_names[index as int]),
            index >= self.plan_names.len() ==> name is None,
    {
        if index < self.plan_names.len() {
            Some(&self.plan_names[index])
        } else {
            None
        }
    }

    /// Whether the list holds a plan at position `index` that is the active
    /// one.
    pub fn is_active(&self, index: usize) -> (active: bool)
        ensures
            active == self.deep_view().is_active(index as int),
    {
        if index < self.plan_names.len() {
            match &self.active_plan {
                Some(plan) => plan.name == self.plan_names[index],
                None => false,
            }
        } else {
            false
        }
    }
}

} // verus!
