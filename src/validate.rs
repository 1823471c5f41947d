use vstd::prelude::*;

use crate::error::Violation;
use crate::manager::PlanManager;
use crate::plan::{Plan, PlanBehavior};

verus! {

/// Some behavior before position `i` has the same id as the one at `i`.
pub open spec fn id_seen_before(bs: Seq<PlanBehavior>, i: int) -> bool {
    exists|j: int| 0 <= j < i && #[trigger] bs[j].id@ == bs[i].id@
}

/// The id, name and instructions of the behavior at `i` are all non-empty.
pub open spec fn fields_filled(bs: Seq<PlanBehavior>, i: int) -> bool {
    &&& bs[i].id@.len() > 0
    &&& bs[i].name@.len() > 0
    &&& bs[i].behavior@.len() > 0
}

/// The behavior at `i` breaks no rule: its fields are filled and its id is
/// new.
pub open spec fn behavior_sound(bs: Seq<PlanBehavior>, i: int) -> bool {
    fields_filled(bs, i) && !id_seen_before(bs, i)
}

/// A plan is valid when it has at least one behavior and each behavior is
/// sound; then ids are pairwise distinct.
pub open spec fn plan_valid(p: Plan) -> bool {
    &&& p.behaviors@.len() > 0
    &&& forall|i: int| 0 <= i < p.behaviors@.len() ==> #[trigger] behavior_sound(p.behaviors@, i)
}

/// Two distinct positions of `bs` hold the same id.
pub open spec fn has_duplicate_ids(bs: Seq<PlanBehavior>) -> bool {
    exists|i: int, j: int| 0 <= i < j < bs.len() && #[trigger] bs[i].id@ == #[trigger] bs[j].id@
}

/// `v` describes the first failing check on the behavior at `i`, the checks
/// being taken in the order id, name, instructions, uniqueness of the id.
pub open spec fn violation_at(bs: Seq<PlanBehavior>, i: int, v: Violation) -> bool {
    match v {
        Violation::NoBehaviors => false,
        Violation::EmptyId { index } => index == i && bs[i].id@.len() == 0,
        Violation::EmptyName { index } => {
            &&& index == i
            &&& bs[i].id@.len() > 0
            &&& bs[i].name@.len() == 0
        },
        Violation::EmptyInstructions { index } => {
            &&& index == i
            &&& bs[i].id@.len() > 0
            &&& bs[i].name@.len() > 0
            &&& bs[i].behavior@.len() == 0
        },
        Violation::DuplicateId { index, id } => {
            &&& index == i
            &&& fields_filled(bs, i)
            &&& id_seen_before(bs, i)
            &&& id@ == bs[i].id@
        },
    }
}

/// `v` is the violation that checking `p` reports: an empty list, or else
/// the first failing check on the first behavior that is not sound.
pub open spec fn is_first_violation(p: Plan, v: Violation) -> bool {
    let bs = p.behaviors@;
    if bs.len() == 0 {
        v is NoBehaviors
    } else {
        exists|i: int|
            0 <= i < bs.len() && (forall|j: int| 0 <= j < i ==> #[trigger] behavior_sound(bs, j))
                && #[trigger] violation_at(bs, i, v)
    }
}

impl PlanManager {
    /// Checks the structural rules of a plan and reports the first one broken.
    pub fn validate_plan(plan: &Plan) -> (r: Result<(), Violation>)
        ensures
            r is Ok <==> plan_valid(*plan),
            r matches Err(v) ==> is_first_violation(*plan, v),
            plan.behaviors@.len() == 0 ==> r matches Err(Violation::NoBehaviors),
            has_duplicate_ids(plan.behaviors@) ==> r is Err,
            has_duplicate_ids(plan.behaviors@) && (forall|i: int|
                0 <= i < plan.behaviors@.len() ==> #[trigger] fields_filled(plan.behaviors@, i))
                ==> r matches Err(Violation::DuplicateId { .. }),
    {
        let n = plan.behaviors.len();
        if n == 0 {
            return Err(Violation::NoBehaviors);
        }
        let ghost bs = plan.behaviors@;
        let mut i: usize = 0;
        while i < n
            invariant
                bs == plan.behaviors@,
                n == bs.len(),
                0 <= i <= n,
                forall|j: int| 0 <= j < i ==> #[trigger] behavior_sound(bs, j),
            decreases n - i,
        {
            let b = &plan.behaviors[i];
            if b.id.as_str().is_empty() {
                let v = Violation::EmptyId { index: i };
                assert(violation_at(bs, i as int, v));
                assert(!fields_filled(bs, i as int) && !behavior_sound(bs, i as int));
                return Err(v);
            }
            if b.name.as_str().is_empty() {
                let v = Violation::EmptyName { index: i };
                assert(violation_at(bs, i as int, v));
                assert(!fields_filled(bs, i as int) && !behavior_sound(bs, i as int));
                return Err(v);
            }
            if b.behavior.as_str().is_empty() {
                let v = Violation::EmptyInstructions { index: i };
                assert(violation_at(bs, i as int, v));
                assert(!fields_filled(bs, i as int) && !behavior_sound(bs, i as int));
                return Err(v);
            }
            let mut j: usize = 0;
            while j < i
                invariant
                    bs == plan.behaviors@,
                    n == bs.len(),
                    0 <= j <= i < n,
                    b == bs[i as int],
                    fields_filled(bs, i as int),
                    forall|k: int| 0 <= k < i ==> #[trigger] behavior_sound(bs, k),
                    forall|k: int| 0 <= k < j ==> #[trigger] bs[k].id@ != bs[i as int].id@,
                decreases i - j,
            {
                if plan.behaviors[j].id == b.id {
                    let v = Violation::DuplicateId { index: i, id: b.id.clone() };
                    assert(id_seen_before(bs, i as int));
                    assert(violation_at(bs, i as int, v));
                    assert(!behavior_sound(bs, i as int));
                    return Err(v);
                }
                j += 1;
            }
            assert(behavior_sound(bs, i as int));
            i += 1;
        }
        proof {
            if has_duplicate_ids(bs) {
                let (a, c) = choose|a: int, c: int|
                    0 <= a < c < bs.len() && #[trigger] bs[a].id@ == #[trigger] bs[c].id@;
                assert(behavior_sound(bs, c));
                assert(id_seen_before(bs, c));
            }
        }
        Ok(())
    }
}

} // verus!
