//! The trigger condition registry: holds every compiled condition and
//! dispatches each incoming event to all of them.
//!
//! Registration cannot fail: a rule of the wrong kind compiles into a
//! condition that never fires, so one bad rule cannot keep the others from
//! being monitored.  A configuration reload builds a fresh registry and
//! swaps it in whole.

use vstd::prelude::*;

use crate::conditions::charge_blade::{ChargeBladeCfgModel, ChargeBladeCondition, compiled_condition, condition_fires};
use crate::configs::TriggerCondition;
use crate::triggers::Event;

verus! {

/// The handles, in ascending order, of the conditions among `regs` that
/// fire on `event`.
pub open spec fn fired_handles(regs: Seq<Option<ChargeBladeCfgModel>>, event: Event) -> Seq<usize>
    decreases regs.len(),
{
    if regs.len() == 0 {
        Seq::<usize>::empty()
    } else if condition_fires(regs.last(), event) {
        fired_handles(regs.drop_last(), event).push((regs.len() - 1) as usize)
    } else {
        fired_handles(regs.drop_last(), event)
    }
}

/// Holds one compiled predicate per registered condition.
pub struct TriggerRegistry {
    conditions: Vec<ChargeBladeCondition>,
}

impl View for TriggerRegistry {
    type V = Seq<Option<ChargeBladeCfgModel>>;

    closed spec fn view(&self) -> Seq<Option<ChargeBladeCfgModel>> {
        self.conditions@.map_values(|c: ChargeBladeCondition| c@)
    }
}

impl TriggerRegistry {
    /// An empty registry.
    pub fn new() -> (r: Self)
        ensures
            r@ == Seq::<Option<ChargeBladeCfgModel>>::empty(),
    {
        let r = TriggerRegistry { conditions: Vec::new() };
        proof {
            assert(r@ =~= Seq::<Option<ChargeBladeCfgModel>>::empty());
        }
        r
    }

    /// How many conditions are registered.
    pub fn len(&self) -> (n: usize)
        ensures
            n == self@.len(),
    {
        self.conditions.len()
    }

    /// Compiles one declarative rule and stores the result; the returned
    /// handle identifies it in every later dispatch.
    pub fn register(&mut self, cond: &TriggerCondition) -> (handle: usize)
        ensures
            final(self)@ == old(self)@.push(compiled_condition(*cond)),
            handle == old(self)@.len(),
    {
        let compiled = ChargeBladeCondition::new_trigger(cond);
        let handle = self.conditions.len();
        self.conditions.push(compiled);
        proof {
            assert(self@ =~= old(self)@.push(compiled_condition(*cond)));
        }
        handle
    }

    /// Checks every registered condition against one event and returns the
    /// handles of those that fire, in ascending order.
    pub fn dispatch(&self, event: &Event) -> (fired: Vec<usize>)
        ensures
            fired@ == fired_handles(self@, *event),
    {
        let mut fired: Vec<usize> = Vec::new();
        let mut i: usize = 0;
        while i < self.conditions.len()
            invariant
                i <= self.conditions.len(),
                self@.len() == self.conditions@.len(),
                forall|j: int| 0 <= j < self@.len() ==> self@[j] == self.conditions@[j]@,
                fired@ == fired_handles(self@.take(i as int), *event),
            decreases self.conditions.len() - i,
        {
            let ghost prefix = self@.take(i as int);
            if self.conditions[i].check(event) {
                fired.push(i);
            }
            proof {
                let longer = self@.take(i as int + 1);
                assert(longer.drop_last() =~= prefix);
                assert(longer.last() == self@[i as int]);
            }
            i = i + 1;
        }
        proof {
            assert(self@.take(self@.len() as int) =~= self@);
        }
        fired
    }
}

} // verus!
