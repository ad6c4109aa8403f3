//! Events delivered by the external poller: a snapshot of the monitored
//! subsystem's current state together with the previous snapshot, when one
//! exists.
//!
//! Timer-like quantities are carried as integers: the poller truncates the
//! raw fractional readings to the integer domain that the comparison
//! language works in before an event is built.

use vstd::prelude::*;

verus! {

/// One snapshot of the charge blade's state.
#[derive(Clone, Copy, Debug, PartialEq, Eq, Structural)]
pub struct ChargeBladeState {
    /// Remaining sword-charge time, truncated to whole units.
    pub sword_charge_timer: i32,
    /// Remaining shield-charge time, truncated to whole units.
    pub shield_charge_timer: i32,
    /// Remaining power-axe time per phial, truncated to whole units.
    pub power_axe_timer: i32,
    /// Current sword power level, truncated to whole units.
    pub sword_power: i32,
    /// Number of loaded phials.
    pub phials: i32,
    /// Phial capacity of the equipped weapon.
    pub max_phials: i32,
}

/// The context an event carries: the current snapshot and, after the first
/// poll of a session, the previous one.
#[derive(Clone, Copy, Debug)]
pub struct ChargeBladeContext {
    pub charge_blade: ChargeBladeState,
    /// Absent for the very first event of a session; a condition never fires
    /// on such an event.
    pub last_ctx: Option<ChargeBladeState>,
}

/// One event from the poller.  Each monitored subsystem has its own variant;
/// a predicate fires only on events of the subsystem it was compiled for.
#[derive(Clone, Copy, Debug)]
pub enum Event {
    ChargeBlade { ctx: ChargeBladeContext },
    /// An event of some other monitored subsystem.
    Other,
}

} // verus!
