//! What holds of the ledger's operations taken together.

use vstd::prelude::*;
use crate::address::Address;
use crate::error::ErrorCode;
use crate::instructions::{
    claim_decided, grant_created, pool_created, withdrawn, ClaimTokens, CreateEmployeeAccount,
    CreateVestingAccount, Transfer,
};
use crate::schedule::claimable_at;
use crate::state::EmployeeAccount;

verus! {

/// A claim is accepted only from the end date on, and then releases all that
/// is left of the grant. Before the end date nothing is released: there the
/// vesting period is either empty, and the claim is refused, or it is not, and
/// then the start date lies after the end date, so that no time has passed
/// since the start.
pub proof fn lemma_claim_releases_remainder(grant: EmployeeAccount, now: int)
    requires
        claimable_at(grant, now) is Ok,
    ensures
        now >= grant.end_date,
        now >= grant.cliff_date,
        grant.total_withdrawn < grant.total_amount,
        claimable_at(grant, now) == Ok::<u64, ErrorCode>(
            (grant.total_amount - grant.total_withdrawn) as u64,
        ),
{
}

/// From the cliff and the end date on, a claim releases all that is left of
/// the grant, whatever its start date; where nothing is left, there is nothing
/// to claim.
pub proof fn lemma_claim_from_end_date(grant: EmployeeAccount, now: int)
    requires
        now >= grant.cliff_date,
        now >= grant.end_date,
    ensures
        grant.total_withdrawn < grant.total_amount ==> claimable_at(grant, now) == Ok::<
            u64,
            ErrorCode,
        >((grant.total_amount - grant.total_withdrawn) as u64),
        grant.total_withdrawn >= grant.total_amount ==> claimable_at(grant, now) == Err::<
            u64,
            ErrorCode,
        >(ErrorCode::NothingToClaim),
{
}

/// No claim fails on the product of amount and elapsed time: where the product
/// is taken, no time has passed.
pub proof fn lemma_claim_never_overflows(grant: EmployeeAccount, now: int)
    ensures
        claimable_at(grant, now) != Err::<u64, ErrorCode>(ErrorCode::CalculationOverflow),
{
}

/// After every successful claim, no more has been withdrawn from the grant
/// than was granted, whatever its record said before.
pub proof fn lemma_withdrawn_within_grant(ctx: ClaimTokens, company_name: Seq<char>, now: int)
    requires
        claim_decided(ctx, company_name, now) is Ok,
    ensures
        claim_decided(ctx, company_name, now) matches Ok(transfer) && {
            &&& ctx.employee_account.data.total_withdrawn + transfer.amount
                <= ctx.employee_account.data.total_amount
            &&& withdrawn(ctx, transfer.amount).employee_account.data.well_formed()
        },
{
    lemma_claim_releases_remainder(ctx.employee_account.data, now);
}

/// Once a claim made at or after the end date has withdrawn the whole grant,
/// every claim at any later time is refused: there is nothing to claim.
pub proof fn lemma_full_withdrawal_is_final(
    ctx: ClaimTokens,
    company_name: Seq<char>,
    now: int,
    later: int,
)
    requires
        now >= ctx.employee_account.data.end_date,
        claim_decided(ctx, company_name, now) matches Ok(transfer) && withdrawn(
            ctx,
            transfer.amount,
        ).employee_account.data.total_withdrawn == ctx.employee_account.data.total_amount,
        later >= now,
    ensures
        claim_decided(ctx, company_name, now) matches Ok(transfer) && claim_decided(
            withdrawn(ctx, transfer.amount),
            company_name,
            later,
        ) == Err::<Transfer, ErrorCode>(ErrorCode::NothingToClaim),
{
}

/// A claim never lowers what a grant has withdrawn.
pub proof fn lemma_withdrawn_never_decreases(ctx: ClaimTokens, company_name: Seq<char>, now: int)
    requires
        claim_decided(ctx, company_name, now) is Ok,
    ensures
        claim_decided(ctx, company_name, now) matches Ok(transfer) && withdrawn(
            ctx,
            transfer.amount,
        ).employee_account.data.total_withdrawn >= ctx.employee_account.data.total_withdrawn,
{
    lemma_claim_releases_remainder(ctx.employee_account.data, now);
}

/// There is one pool to a company name. Whoever creates a pool under a name
/// does so at the same two addresses. And once a pool has been created there,
/// creating another under that name is refused with `AlreadyExists`, whoever
/// signs and whatever the kind of token.
pub proof fn lemma_one_pool_per_name(
    first: CreateVestingAccount,
    first_name: String,
    second: CreateVestingAccount,
    second_name: String,
)
    requires
        first_name@ == second_name@,
        pool_created(first, first_name) is Ok,
    ensures
        pool_created(second, second_name) is Ok ==> {
            &&& second.vesting_account.key == first.vesting_account.key
            &&& second.token_treasury_account.key == first.token_treasury_account.key
        },
        pool_created(first, first_name) matches Ok(after) && (second.vesting_account
            == after.vesting_account && second.token_treasury_account.key
            == after.token_treasury_account.key ==> pool_created(second, second_name) == Err::<
            CreateVestingAccount,
            ErrorCode,
        >(ErrorCode::AlreadyExists)),
{
    if pool_created(second, second_name) is Ok {
        Address::lemma_view_injective(second.vesting_account.key, first.vesting_account.key);
        Address::lemma_view_injective(
            second.token_treasury_account.key,
            first.token_treasury_account.key,
        );
    }
}

/// There is one grant to a beneficiary under a pool. Whoever creates a grant
/// for a beneficiary under a pool does so at the same address. And once a
/// grant has been created there, the pool's owner cannot create another for
/// that beneficiary under that pool, whatever its schedule: it is refused with
/// `AlreadyExists`.
pub proof fn lemma_one_grant_per_beneficiary(
    first: CreateEmployeeAccount,
    second: CreateEmployeeAccount,
    start_date: u64,
    end_date: u64,
    cliff_date: u64,
    total_amount: u64,
    other_start_date: u64,
    other_end_date: u64,
    other_cliff_date: u64,
    other_total_amount: u64,
)
    requires
        second.beneficiary == first.beneficiary,
        second.vesting_account.key == first.vesting_account.key,
        grant_created(first, start_date, end_date, cliff_date, total_amount) is Ok,
    ensures
        grant_created(
            second,
            other_start_date,
            other_end_date,
            other_cliff_date,
            other_total_amount,
        ) is Ok ==> second.employee_account.key == first.employee_account.key,
        grant_created(first, start_date, end_date, cliff_date, total_amount) matches Ok(after) && (
        second.employee_account == after.employee_account && second.owner
            == second.vesting_account.data.owner ==> grant_created(
            second,
            other_start_date,
            other_end_date,
            other_cliff_date,
            other_total_amount,
        ) == Err::<CreateEmployeeAccount, ErrorCode>(ErrorCode::AlreadyExists)),
{
    if grant_created(
        second,
        other_start_date,
        other_end_date,
        other_cliff_date,
        other_total_amount,
    ) is Ok {
        Address::lemma_view_injective(second.employee_account.key, first.employee_account.key);
    }
}

/// A claim by anyone but the beneficiary whom the grant's record names is
/// refused as unauthorized.
pub proof fn lemma_only_beneficiary_claims(ctx: ClaimTokens, company_name: Seq<char>, now: int)
    requires
        ctx.beneficiary != ctx.employee_account.data.beneficiary,
    ensures
        claim_decided(ctx, company_name, now) == Err::<Transfer, ErrorCode>(
            ErrorCode::Unauthorized,
        ),
{
}

} // verus!
