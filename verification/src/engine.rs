//! The two state transitions of the vesting engine: `initialize`, which
//! creates a schedule and funds its vault, and `unlock`, which releases every
//! tranche that has matured since the schedule's current clock.

use vstd::prelude::*;

verus! {

use crate::accounts::{AccountId, Authority, TokenAccount, Transfer};
use crate::errors::ScheduleError;
use crate::schedule::Vesting;

/// Whole tranche intervals elapsed between `start_time` and `now`. Zero when
/// `now` is still before `start_time`: negative elapsed time never counts as
/// matured tranches. Partial tranches do not count (division rounds down).
pub open spec fn matured_tranches(start_time: int, unit_time: int, now: int) -> int {
    if now < start_time {
        0
    } else {
        (now - start_time) / unit_time
    }
}

/// The amount released for `matured` tranches, clamped to the remaining
/// locked total: the final tranche never overshoots what the vault holds.
pub open spec fn released_amount(matured: int, unit_amount: int, total_amount: int) -> int {
    if matured * unit_amount > total_amount {
        total_amount
    } else {
        matured * unit_amount
    }
}

/// The tranche boundary the schedule's clock advances to at `now`: exactly
/// `matured_tranches` whole intervals past the prior boundary. The advance
/// uses the matured count computed before clamping, so the clock always lands
/// on the last fully matured boundary regardless of clamping.
pub open spec fn advanced_start(start_time: int, unit_time: int, now: int) -> int {
    start_time + unit_time * matured_tranches(start_time, unit_time, now)
}

/// The accounts taking part in schedule creation, as the plain values the
/// host environment reads from its ledger.
pub struct Initialize {
    /// Beneficiary of the new schedule.
    pub owner: AccountId,
    /// The depositor: controls `deposit_from` and authorizes the funding
    /// transfer with its own signature.
    pub payer: AccountId,
    /// Funding source already holding the amount to be vested.
    pub deposit_from: TokenAccount,
    /// The kind of token being vested; the vault is created to hold it.
    pub mint: AccountId,
    /// The custodial vault account, newly created for this schedule and
    /// holding tokens of kind `mint`.
    pub vault: AccountId,
}

/// The accounts taking part in an unlock, as plain values.
pub struct Unlock {
    /// Stable identifier of the schedule record; together with the stored
    /// derivation factor it seeds the vault-signing authority.
    pub vesting: AccountId,
    /// The vault the caller supplies; must match the schedule's stored vault.
    pub vault: AccountId,
    /// The account to receive released funds; must belong to the schedule's
    /// owner.
    pub target: TokenAccount,
}

/// Creates a schedule from the given terms and returns it together with the
/// funding instruction: a transfer of `total_amount` from the funding source
/// into the vault, authorized by the depositor's own signature.
///
/// Validation happens before anything else, so a failure leaves no trace:
/// the start time may not lie in the past, the tranche interval may not be
/// zero, the funding source must hold the vault's kind of token, and it must
/// hold at least the amount to be vested.
pub fn initialize(
    accounts: &Initialize,
    now: i64,
    bump: u8,
    start_time: i64,
    total_amount: u64,
    unit_time: u64,
    unit_amount: u64,
) -> (r: Result<(Vesting, Transfer), ScheduleError>)
    ensures
        (r matches Err(e) && e == ScheduleError::StartInPast) <==> now > start_time,
        (r matches Err(e) && e == ScheduleError::ZeroInterval) <==> (now <= start_time
            && unit_time == 0),
        (r matches Err(e) && e == ScheduleError::MintMismatch) <==> (now <= start_time
            && unit_time != 0 && accounts.deposit_from.mint != accounts.mint),
        (r matches Err(e) && e == ScheduleError::InsufficientFunds) <==> (now <= start_time
            && unit_time != 0 && accounts.deposit_from.mint == accounts.mint
            && accounts.deposit_from.amount < total_amount),
        r is Ok <==> (now <= start_time && unit_time != 0
            && accounts.deposit_from.mint == accounts.mint
            && accounts.deposit_from.amount >= total_amount),
        r matches Ok(p) ==> {
            &&& p.0 == (Vesting {
                owner: accounts.owner,
                vault: accounts.vault,
                start_time,
                total_amount,
                unit_time,
                unit_amount,
                bump,
            })
            &&& p.0.wf()
            &&& p.1 == (Transfer {
                from: accounts.deposit_from.address,
                to: accounts.vault,
                authority: Authority::Signer(accounts.payer),
                amount: total_amount,
            })
        },
{
    if now > start_time {
        return Err(ScheduleError::StartInPast);
    }
    if unit_time == 0 {
        return Err(ScheduleError::ZeroInterval);
    }
    if accounts.deposit_from.mint != accounts.mint {
        return Err(ScheduleError::MintMismatch);
    }
    if accounts.deposit_from.amount < total_amount {
        return Err(ScheduleError::InsufficientFunds);
    }
    let vesting = Vesting {
        owner: accounts.owner,
        vault: accounts.vault,
        start_time,
        total_amount,
        unit_time,
        unit_amount,
        bump,
    };
    let deposit = Transfer {
        from: accounts.deposit_from.address,
        to: accounts.vault,
        authority: Authority::Signer(accounts.payer),
        amount: total_amount,
    };
    Ok((vesting, deposit))
}

/// Releases every tranche that has matured by `now` and returns the
/// withdrawal instruction: a transfer of the released amount from the vault
/// to the target, signed by the vault authority derived from the schedule's
/// identifier and stored factor.
///
/// The released amount is `unit_amount` per matured tranche, clamped to the
/// locked total; the schedule's clock advances to the last matured tranche
/// boundary, by the count computed before clamping. When `now` is still
/// before `start_time`, nothing has matured and the call is a no-op that
/// instructs a zero-value transfer; the same holds for any repeat call
/// before the next boundary, so `unlock` is safe at arbitrary frequency.
///
/// Validation happens before any mutation: the supplied vault must be the
/// schedule's stored vault, the target must belong to the schedule's owner,
/// and the tranche interval must be non-zero. A failure leaves the schedule
/// untouched.
pub fn unlock(schedule: &mut Vesting, accounts: &Unlock, now: i64) -> (r: Result<
    Transfer,
    ScheduleError,
>)
    ensures
        r is Err ==> *final(schedule) == *old(schedule),
        (r matches Err(e) && e == ScheduleError::VaultMismatch) <==> accounts.vault != old(
            schedule,
        ).vault,
        (r matches Err(e) && e == ScheduleError::WrongTarget) <==> (accounts.vault == old(
            schedule,
        ).vault && accounts.target.owner != old(schedule).owner),
        (r matches Err(e) && e == ScheduleError::ZeroInterval) <==> (accounts.vault == old(
            schedule,
        ).vault && accounts.target.owner == old(schedule).owner && old(schedule).unit_time == 0),
        r is Ok <==> (accounts.vault == old(schedule).vault && accounts.target.owner == old(
            schedule,
        ).owner && old(schedule).unit_time != 0),
        r matches Ok(t) ==> ({
            let m = matured_tranches(
                old(schedule).start_time as int,
                old(schedule).unit_time as int,
                now as int,
            );
            let a = released_amount(
                m,
                old(schedule).unit_amount as int,
                old(schedule).total_amount as int,
            );
            &&& t == (Transfer {
                from: old(schedule).vault,
                to: accounts.target.address,
                authority: (Authority::VaultSigner { vesting: accounts.vesting, bump: old(
                    schedule,
                ).bump }),
                amount: t.amount,
            })
            &&& t.amount == a
            &&& final(schedule).start_time == advanced_start(
                old(schedule).start_time as int,
                old(schedule).unit_time as int,
                now as int,
            )
            &&& final(schedule).total_amount == old(schedule).total_amount - a
            &&& final(schedule).owner == old(schedule).owner
            &&& final(schedule).vault == old(schedule).vault
            &&& final(schedule).unit_time == old(schedule).unit_time
            &&& final(schedule).unit_amount == old(schedule).unit_amount
            &&& final(schedule).bump == old(schedule).bump
            &&& (m * old(schedule).unit_amount > old(schedule).total_amount ==> (a == old(
                schedule,
            ).total_amount && final(schedule).total_amount == 0))
            &&& (now < old(schedule).start_time ==> (t.amount == 0 && *final(schedule) == *old(
                schedule,
            )))
        }),
        final(schedule).total_amount <= old(schedule).total_amount,
        final(schedule).start_time >= old(schedule).start_time,
        old(schedule).unit_time != 0 ==> (final(schedule).start_time - old(schedule).start_time) % (
        old(schedule).unit_time as int) == 0,
{
    if accounts.vault != schedule.vault {
        return Err(ScheduleError::VaultMismatch);
    }
    if accounts.target.owner != schedule.owner {
        return Err(ScheduleError::WrongTarget);
    }
    if schedule.unit_time == 0 {
        return Err(ScheduleError::ZeroInterval);
    }
    // Whole intervals elapsed since the current boundary; a reading earlier
    // than the boundary counts as no elapsed time at all.
    let elapsed: u64 = if now >= schedule.start_time {
        ((now as i128) - (schedule.start_time as i128)) as u64
    } else {
        0
    };
    let units: u64 = elapsed / schedule.unit_time;
    proof {
        vstd::arithmetic::div_mod::lemma_fundamental_div_mod(
            elapsed as int,
            schedule.unit_time as int,
        );
        vstd::arithmetic::div_mod::lemma_mod_division_less_than_divisor(
            elapsed as int,
            schedule.unit_time as int,
        );
        assert((units as int) * (schedule.unit_amount as int) <= (u64::MAX as int) * (
        u64::MAX as int)) by (nonlinear_arith)
            requires
                units <= u64::MAX,
                schedule.unit_amount <= u64::MAX,
        ;
    }
    let gross: u128 = (units as u128) * (schedule.unit_amount as u128);
    let amount: u64 = if gross >= (schedule.total_amount as u128) {
        schedule.total_amount
    } else {
        gross as u64
    };
    let advance: u64 = schedule.unit_time * units;
    let new_start: i64 = ((schedule.start_time as i128) + (advance as i128)) as i64;
    proof {
        vstd::arithmetic::div_mod::lemma_mod_multiples_basic(
            units as int,
            schedule.unit_time as int,
        );
        vstd::arithmetic::mul::lemma_mul_is_commutative(
            units as int,
            schedule.unit_time as int,
        );
    }
    schedule.start_time = new_start;
    schedule.total_amount = schedule.total_amount - amount;
    Ok(
        Transfer {
            from: schedule.vault,
            to: accounts.target.address,
            authority: Authority::VaultSigner { vesting: accounts.vesting, bump: schedule.bump },
            amount,
        },
    )
}

} // verus!
