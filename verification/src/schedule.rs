//! The persistent record describing one vesting arrangement.

use vstd::prelude::*;

verus! {

use crate::accounts::AccountId;

/// One vesting schedule. Created once by `initialize`, mutated only by
/// `unlock`, never destroyed: once `total_amount` reaches zero the record is
/// inert but persists for auditability.
#[derive(Clone, Copy, PartialEq, Eq, Structural, Debug)]
pub struct Vesting {
    /// Beneficiary entitled to receive unlocked funds. Immutable.
    pub owner: AccountId,
    /// Custodial token account holding the locked balance. Immutable.
    pub vault: AccountId,
    /// The next tranche boundary that has not matured yet. Advanced by
    /// `unlock`, always to an exact tranche boundary, never backward.
    pub start_time: i64,
    /// The locked total still held in the vault. Non-increasing; reaches and
    /// stays at zero once the schedule is fully unlocked.
    pub total_amount: u64,
    /// Duration between tranche maturities. Non-zero. Immutable.
    pub unit_time: u64,
    /// Amount released per matured tranche. Immutable.
    pub unit_amount: u64,
    /// Derivation factor combined with the schedule's stable identifier to
    /// derive the vault-signing authority. Immutable.
    pub bump: u8,
}

impl Vesting {
    /// Well-formedness: the tranche interval is non-zero, so the division in
    /// `unlock` is defined. `initialize` refuses to create a schedule that
    /// violates this.
    pub open spec fn wf(self) -> bool {
        self.unit_time > 0
    }
}

} // verus!
