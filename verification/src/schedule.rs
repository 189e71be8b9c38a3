//! The vesting arithmetic: from a grant's schedule and the time of a claim to
//! the amount that the claim releases.

use vstd::prelude::*;
use crate::error::ErrorCode;
use crate::state::EmployeeAccount;

verus! {

/// The seconds that have passed at `now` since `start_date`; zero where `now`
/// does not lie after it.
pub open spec fn elapsed_since(now: int, start_date: int) -> int {
    if now > start_date {
        now - start_date
    } else {
        0
    }
}

/// The length of a grant's vesting period, by which the share vested before
/// the end date is prorated: `start_date` minus `end_date`, and zero where that
/// would be negative.
///
/// The operands stand in this order, not the other. A grant whose start date
/// does not lie after its end date therefore has an empty period: a claim on
/// it before its end date is refused, and a claim from its end date on
/// releases all that is left.
pub open spec fn vesting_duration(start_date: int, end_date: int) -> int {
    if start_date > end_date {
        start_date - end_date
    } else {
        0
    }
}

/// The share of `total_amount` that has vested after `elapsed` of `duration`
/// seconds: the product of amount and elapsed time, divided by the duration
/// and rounded down. The product must fit in 64 bits.
pub open spec fn prorated(total_amount: int, elapsed: int, duration: int) -> Result<u64, ErrorCode> {
    if duration <= 0 {
        Err(ErrorCode::InvalidVestingPeriod)
    } else if total_amount * elapsed > u64::MAX {
        Err(ErrorCode::CalculationOverflow)
    } else {
        Ok(((total_amount * elapsed) / duration) as u64)
    }
}

/// What has vested of `grant` at `now`. From the end date on it is the whole
/// grant, whatever the vesting period. Before the end date it is the prorated
/// share, and there is none where the vesting period is empty.
pub open spec fn vested_at(grant: EmployeeAccount, now: int) -> Result<u64, ErrorCode> {
    if now >= grant.end_date {
        Ok(grant.total_amount)
    } else {
        prorated(
            grant.total_amount as int,
            elapsed_since(now, grant.start_date as int),
            vesting_duration(grant.start_date as int, grant.end_date as int),
        )
    }
}

/// What a claim releases when `vested` has vested and `withdrawn` was paid out
/// before: the difference, which must be positive.
pub open spec fn outstanding(vested: int, withdrawn: int) -> Result<u64, ErrorCode> {
    if vested > withdrawn {
        Ok((vested - withdrawn) as u64)
    } else {
        Err(ErrorCode::NothingToClaim)
    }
}

/// What a claim on `grant` at `now` releases: nothing before the cliff, else
/// what has vested less what was withdrawn before.
pub open spec fn claimable_at(grant: EmployeeAccount, now: int) -> Result<u64, ErrorCode> {
    if now < grant.cliff_date {
        Err(ErrorCode::ClaimNotAvailableYet)
    } else {
        match vested_at(grant, now) {
            Ok(vested) => outstanding(vested as int, grant.total_withdrawn as int),
            Err(error) => Err(error),
        }
    }
}

/// Whether the time `now` lies before `date`.
pub fn is_before(now: i64, date: u64) -> (before: bool)
    ensures
        before == (now < date),
{
    now < 0 || (now as u64) < date
}

/// The seconds from `start_date` to `now`, zero where `now` is not later.
pub fn time_since_start(now: i64, start_date: u64) -> (elapsed: u64)
    ensures
        elapsed == elapsed_since(now as int, start_date as int),
{
    if is_before(now, start_date) {
        0
    } else {
        (now as u64) - start_date
    }
}

/// The length of the vesting period, `start_date` minus `end_date` floored at
/// zero (see `vesting_duration` on the order of the two).
pub fn total_vesting_time(start_date: u64, end_date: u64) -> (duration: u64)
    ensures
        duration == vesting_duration(start_date as int, end_date as int),
{
    start_date.saturating_sub(end_date)
}

/// The prorated share of `total_amount` after `elapsed` of `duration` seconds.
/// Fails with `InvalidVestingPeriod` where `duration` is zero and with
/// `CalculationOverflow` where amount times elapsed time exceeds 64 bits.
pub fn prorated_amount(total_amount: u64, elapsed: u64, duration: u64) -> (vested: Result<u64, ErrorCode>)
    ensures
        vested == prorated(total_amount as int, elapsed as int, duration as int),
{
    if duration == 0 {
        return Err(ErrorCode::InvalidVestingPeriod);
    }
    match total_amount.checked_mul(elapsed) {
        Some(product) => Ok(product / duration),
        None => Err(ErrorCode::CalculationOverflow),
    }
}

/// What is left to pay out of `vested` after `withdrawn`; `NothingToClaim`
/// where nothing is.
pub fn outstanding_amount(vested: u64, withdrawn: u64) -> (claimable: Result<u64, ErrorCode>)
    ensures
        claimable == outstanding(vested as int, withdrawn as int),
{
    let claimable: u64 = vested.saturating_sub(withdrawn);
    if claimable == 0 {
        Err(ErrorCode::NothingToClaim)
    } else {
        Ok(claimable)
    }
}

impl EmployeeAccount {
    /// What has vested at `now`, whatever was withdrawn and whether or not the
    /// cliff has passed: the whole grant from the end date on, the prorated
    /// share before it.
    pub fn vested_amount(&self, now: i64) -> (vested: Result<u64, ErrorCode>)
        ensures
            vested == vested_at(*self, now as int),
    {
        if !is_before(now, self.end_date) {
            Ok(self.total_amount)
        } else {
            prorated_amount(
                self.total_amount,
                time_since_start(now, self.start_date),
                total_vesting_time(self.start_date, self.end_date),
            )
        }
    }

    /// What a claim at `now` releases, or why it releases nothing.
    pub fn claimable_amount(&self, now: i64) -> (claimable: Result<u64, ErrorCode>)
        ensures
            claimable == claimable_at(*self, now as int),
    {
        if is_before(now, self.cliff_date) {
            return Err(ErrorCode::ClaimNotAvailableYet);
        }
        match self.vested_amount(now) {
            Ok(vested) => outstanding_amount(vested, self.total_withdrawn),
            Err(error) => Err(error),
        }
    }
}

} // verus!
