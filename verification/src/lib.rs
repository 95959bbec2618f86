//! A token-vesting schedule.
//!
//! A custodial vault holds a fixed pool of fungible tokens on behalf of a
//! beneficiary and releases them in fixed tranches: every `unit_time` units of
//! time after `start_time`, `unit_amount` tokens mature, until the locked
//! total is exhausted.
//!
//! The crate is the vesting state machine alone. The host environment that
//! stores accounts, tells the time, derives the vault-signing authority and
//! executes token transfers is an external collaborator: the engine takes
//! plain values read from it and returns the transfer instruction it must
//! execute.

pub mod accounts;
pub mod engine;
pub mod errors;
pub mod laws;
pub mod schedule;
