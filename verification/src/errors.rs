//! Why an operation on a vesting schedule was refused.

use vstd::prelude::*;

verus! {

/// Every failure aborts the whole operation before any state is mutated:
/// the schedule record and the vault are left exactly as they were.
#[derive(Clone, Copy, PartialEq, Eq, Structural, Debug)]
pub enum ScheduleError {
    /// `initialize` was given a start time earlier than the current time.
    StartInPast,
    /// The tranche interval is zero; the engine would have to divide by it.
    ZeroInterval,
    /// The funding source holds a different kind of token than the vault.
    MintMismatch,
    /// The funding source's balance is smaller than the amount to be vested.
    InsufficientFunds,
    /// The target account supplied to `unlock` does not belong to the
    /// schedule's owner.
    WrongTarget,
    /// The vault supplied to `unlock` is not the schedule's stored vault.
    VaultMismatch,
    /// The external token ledger refused a transfer instruction; the host
    /// environment reports it under this name when executing the engine's
    /// instructions.
    TransferFailed,
}

} // verus!
