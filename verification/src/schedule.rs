//! The order of the systems within a tick, held to explicit constraints
//! instead of the order in which the systems happen to be registered.

use vstd::prelude::*;
use crate::app::AppSet;

verus! {

/// A system that runs once per tick.
#[derive(Clone, Copy, PartialEq, Eq, Structural, Debug, Hash)]
pub enum System {
    /// The transition point, with the hooks of the screens.
    ApplyTransition,
    /// The camera motion controller.
    MoveCamera,
    /// The renderer's step that shifts the layers by the camera's displacement.
    ShiftLayers,
}

/// The demand that `earlier` has run before `later` runs.
#[derive(Clone, Copy, PartialEq, Eq, Structural, Debug)]
pub struct Before {
    pub earlier: System,
    pub later: System,
}

/// `system` stands among the first `upto` systems of `order`.
pub open spec fn occurs(order: Seq<System>, system: System, upto: int) -> bool {
    exists|i: int| 0 <= i < upto && #[trigger] order[i] == system
}

/// Among the first `upto` systems of `order`, some `earlier` stands at or behind
/// some `later`.
pub open spec fn misplaced(order: Seq<System>, constraint: Before, upto: int) -> bool {
    exists|i: int, j: int|
        0 <= i <= j < upto && #[trigger] order[i] == constraint.later && #[trigger] order[j]
            == constraint.earlier
}

/// `order` runs both systems of `constraint`, and every run of `earlier` strictly
/// before every run of `later`.
pub open spec fn respects(order: Seq<System>, constraint: Before) -> bool {
    &&& occurs(order, constraint.earlier, order.len() as int)
    &&& occurs(order, constraint.later, order.len() as int)
    &&& !misplaced(order, constraint, order.len() as int)
}

/// `order` respects every constraint of `constraints`.
pub open spec fn respects_all(order: Seq<System>, constraints: Seq<Before>) -> bool {
    forall|k: int| 0 <= k < constraints.len() ==> respects(order, #[trigger] constraints[k])
}

impl System {
    /// The phase of the tick in which the system runs.
    pub fn set(&self) -> (set: AppSet)
        ensures
            set == AppSet::Update,
    {
        AppSet::Update
    }
}

/// Whether `order` respects `constraint`.
pub fn check_constraint(order: &Vec<System>, constraint: Before) -> (ok: bool)
    ensures
        ok == respects(order@, constraint),
{
    let mut seen_earlier = false;
    let mut seen_later = false;
    let mut bad = false;
    let mut k: usize = 0;
    while k < order.len()
        invariant
            k <= order@.len(),
            seen_earlier == occurs(order@, constraint.earlier, k as int),
            seen_later == occurs(order@, constraint.later, k as int),
            bad == misplaced(order@, constraint, k as int),
        decreases order@.len() - k,
    {
        let system = order[k];
        let is_earlier = system == constraint.earlier;
        let is_later = system == constraint.later;
        proof {
            let here = k as int;
            assert(order@[here] == system);
            assert(occurs(order@, constraint.earlier, here + 1) == (seen_earlier || is_earlier));
            assert(occurs(order@, constraint.later, here + 1) == (seen_later || is_later));
            assert(misplaced(order@, constraint, here + 1) == (bad || (is_earlier && (seen_later
                || is_later))));
        }
        bad = bad || (is_earlier && (seen_later || is_later));
        seen_earlier = seen_earlier || is_earlier;
        seen_later = seen_later || is_later;
        k = k + 1;
    }
    seen_earlier && seen_later && !bad
}

/// Whether `order` respects every constraint of `constraints`.
pub fn check_constraints(order: &Vec<System>, constraints: &Vec<Before>) -> (ok: bool)
    ensures
        ok == respects_all(order@, constraints@),
{
    let mut k: usize = 0;
    while k < constraints.len()
        invariant
            k <= constraints@.len(),
            forall|n: int| 0 <= n < k ==> respects(order@, #[trigger] constraints@[n]),
        decreases constraints@.len() - k,
    {
        if !check_constraint(order, constraints[k]) {
            return false;
        }
        k = k + 1;
    }
    true
}

/// The constraints on a tick: the camera motion controller runs before the
/// renderer shifts the layers.
pub fn update_constraints() -> (constraints: Vec<Before>)
    ensures
        constraints@ == seq![Before { earlier: System::MoveCamera, later: System::ShiftLayers }],
{
    let mut constraints: Vec<Before> = Vec::new();
    constraints.push(Before { earlier: System::MoveCamera, later: System::ShiftLayers });
    proof {
        assert(constraints@ =~= seq![
            Before { earlier: System::MoveCamera, later: System::ShiftLayers },
        ]);
    }
    constraints
}

/// The systems of a tick in the order in which they run. The order respects
/// the constraints on a tick.
pub fn update_systems() -> (order: Vec<System>)
    ensures
        order@ == seq![System::ApplyTransition, System::MoveCamera, System::ShiftLayers],
        respects(order@, Before { earlier: System::MoveCamera, later: System::ShiftLayers }),
{
    let mut order: Vec<System> = Vec::new();
    order.push(System::ApplyTransition);
    order.push(System::MoveCamera);
    order.push(System::ShiftLayers);
    proof {
        assert(order@ =~= seq![System::ApplyTransition, System::MoveCamera, System::ShiftLayers]);
        assert(order@[1] == System::MoveCamera);
        assert(order@[2] == System::ShiftLayers);
    }
    order
}

} // verus!
