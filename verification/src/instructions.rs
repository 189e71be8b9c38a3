//! The three operations of the ledger: creating a pool, creating a grant, and
//! claiming what has vested of a grant.
//!
//! Each operation is given the accounts it works on, as the caller has loaded
//! them from the ledger, and either changes them as one step or refuses and
//! changes nothing. Storing the changed accounts, and moving the tokens that a
//! claim releases, is the caller's part.
//!
//! Each operation comes in two functions. The first derives the addresses that
//! the accounts must have and hands them to the second, whose name ends in
//! `_at`; the second holds the rules.

use vstd::prelude::*;
use crate::address::Address;
use crate::error::ErrorCode;
use crate::pda::{
    grant_address, grant_address_spec, pool_address, pool_address_spec, treasury_address,
    treasury_address_spec, viewed,
};
use crate::schedule::claimable_at;
use crate::state::{
    name_len, Account, EmployeeAccount, Slot, TreasuryAccount, VestingAccount,
    MAX_COMPANY_NAME_LEN,
};

verus! {

/// The accounts for creating a pool.
#[derive(Clone, Debug, PartialEq, Eq)]
pub struct CreateVestingAccount {
    /// Who asks for the pool, and will own it.
    pub signer: Address,
    /// The kind of token that the pool is to hold.
    pub mint: Address,
    /// The place for the pool's record.
    pub vesting_account: Slot<VestingAccount>,
    /// The place for the pool's treasury.
    pub token_treasury_account: Slot<TreasuryAccount>,
}

/// The accounts for creating a grant.
#[derive(Clone, Debug, PartialEq, Eq)]
pub struct CreateEmployeeAccount {
    /// Who asks for the grant.
    pub owner: Address,
    /// Who is to receive the tokens.
    pub beneficiary: Address,
    /// The pool under which the grant is made.
    pub vesting_account: Account<VestingAccount>,
    /// The place for the grant's record.
    pub employee_account: Slot<EmployeeAccount>,
}

/// The accounts for a claim.
#[derive(Clone, Debug, PartialEq, Eq)]
pub struct ClaimTokens {
    /// Who claims.
    pub beneficiary: Address,
    /// The kind of token claimed.
    pub mint: Address,
    /// The treasury to pay from.
    pub token_treasury: Address,
    /// The pool under which the grant was made.
    pub vesting_account: Account<VestingAccount>,
    /// The grant claimed on.
    pub employee_account: Account<EmployeeAccount>,
}

/// A transfer of tokens out of a pool's treasury, for the custodian to carry
/// out. The treasury is its own authority: the transfer is signed with the
/// seeds of the treasury's address and `authority_bump`, by no person.
#[derive(Clone, Copy, Debug, PartialEq, Eq)]
pub struct Transfer {
    /// The treasury that pays.
    pub from: Address,
    /// Who may move tokens out of `from`: the treasury itself.
    pub authority: Address,
    /// The bump seed of the treasury's address.
    pub authority_bump: u8,
    /// Whose receiving account is paid.
    pub recipient: Address,
    /// The kind of token moved.
    pub mint: Address,
    /// How many tokens are moved.
    pub amount: u64,
}

/// Why the custodian did not carry out a transfer.
#[derive(Clone, Copy, Debug, PartialEq, Eq, Structural)]
pub enum TransferFailure {
    /// The treasury holds fewer tokens than the transfer moves.
    InsufficientFunds,
    /// An account of the transfer holds another kind of token.
    AssetMismatch,
}

/// Whether `key` is the address that a derivation gave. No key is where the
/// derivation gave none.
pub open spec fn bound_to(key: Address, derived: Option<(Seq<u8>, u8)>) -> bool {
    match derived {
        Some((address, _)) => address == key@,
        None => false,
    }
}

/// The bump seed that a derivation gave; zero where it gave none.
pub open spec fn bump_of(derived: Option<(Seq<u8>, u8)>) -> u8 {
    match derived {
        Some((_, bump)) => bump,
        None => 0,
    }
}

/// Whether the key of an account is the derived address `derived`.
fn is_bound(key: &Address, derived: &Option<(Address, u8)>) -> (bound: bool)
    ensures
        bound == bound_to(*key, viewed(*derived)),
{
    match derived {
        Some((address, _)) => {
            proof {
                Address::lemma_view_injective(*key, *address);
            }
            *key == *address
        },
        None => false,
    }
}

/// What creating the pool of `company_name` makes of the accounts `ctx`, where
/// `pool` and `treasury` are the addresses derived from the name.
///
/// The name must not exceed `MAX_COMPANY_NAME_LEN` bytes. The two places must
/// be the derived addresses, and both must be vacant. They must be two: one
/// address cannot take both the record and the treasury, and once it held the
/// one it would already exist for the other. Then the pool's record names the
/// signer as owner, and the treasury holds the given kind of token under its
/// own authority.
pub open spec fn pool_created_at(
    ctx: CreateVestingAccount,
    company_name: String,
    pool: Option<(Seq<u8>, u8)>,
    treasury: Option<(Seq<u8>, u8)>,
) -> Result<CreateVestingAccount, ErrorCode> {
    if name_len(company_name@) > MAX_COMPANY_NAME_LEN {
        Err(ErrorCode::NameTooLong)
    } else if !bound_to(ctx.vesting_account.key, pool) || !bound_to(
        ctx.token_treasury_account.key,
        treasury,
    ) {
        Err(ErrorCode::Unauthorized)
    } else if ctx.vesting_account.data is Some || ctx.token_treasury_account.data is Some
        || ctx.vesting_account.key == ctx.token_treasury_account.key {
        Err(ErrorCode::AlreadyExists)
    } else {
        Ok(
            CreateVestingAccount {
                vesting_account: Slot {
                    key: ctx.vesting_account.key,
                    data: Some(
                        VestingAccount {
                            owner: ctx.signer,
                            mint: ctx.mint,
                            token_treasury: ctx.token_treasury_account.key,
                            company_name,
                            treasury_bump: bump_of(treasury),
                            bump: bump_of(pool),
                        },
                    ),
                },
                token_treasury_account: Slot {
                    key: ctx.token_treasury_account.key,
                    data: Some(
                        TreasuryAccount {
                            mint: ctx.mint,
                            authority: ctx.token_treasury_account.key,
                        },
                    ),
                },
                ..ctx
            },
        )
    }
}

/// What creating the pool of `company_name` makes of the accounts `ctx`: see
/// `pool_created_at`, the two addresses being those derived from the name.
pub open spec fn pool_created(ctx: CreateVestingAccount, company_name: String) -> Result<
    CreateVestingAccount,
    ErrorCode,
> {
    pool_created_at(
        ctx,
        company_name,
        pool_address_spec(company_name@),
        treasury_address_spec(company_name@),
    )
}

/// Creates the pool of `company_name` at the derived addresses `pool` and
/// `treasury`: fills the two vacant places of `ctx` with the pool's record and
/// its treasury. Where it refuses, `ctx` is left as it was.
pub fn create_vesting_account_at(
    ctx: &mut CreateVestingAccount,
    company_name: String,
    pool: Option<(Address, u8)>,
    treasury: Option<(Address, u8)>,
) -> (created: Result<(), ErrorCode>)
    ensures
        match pool_created_at(*old(ctx), company_name, viewed(pool), viewed(treasury)) {
            Ok(next) => created is Ok && *final(ctx) == next,
            Err(error) => created == Err::<(), ErrorCode>(error) && *final(ctx) == *old(ctx),
        },
        created is Ok ==> final(ctx).vesting_account.key != final(ctx).token_treasury_account.key,
{
    if company_name.as_str().as_bytes().len() > MAX_COMPANY_NAME_LEN {
        return Err(ErrorCode::NameTooLong);
    }
    if !is_bound(&ctx.vesting_account.key, &pool) || !is_bound(
        &ctx.token_treasury_account.key,
        &treasury,
    ) {
        return Err(ErrorCode::Unauthorized);
    }
    if ctx.vesting_account.data.is_some() || ctx.token_treasury_account.data.is_some()
        || ctx.vesting_account.key == ctx.token_treasury_account.key {
        return Err(ErrorCode::AlreadyExists);
    }
    let treasury_bump: u8 = match treasury {
        Some((_, bump)) => bump,
        None => 0,
    };
    let bump: u8 = match pool {
        Some((_, bump)) => bump,
        None => 0,
    };
    ctx.vesting_account.data = Some(
        VestingAccount {
            owner: ctx.signer,
            mint: ctx.mint,
            token_treasury: ctx.token_treasury_account.key,
            company_name,
            treasury_bump,
            bump,
        },
    );
    ctx.token_treasury_account.data = Some(
        TreasuryAccount { mint: ctx.mint, authority: ctx.token_treasury_account.key },
    );
    Ok(())
}

/// Creates the pool of `company_name`: derives the addresses of the pool and
/// of its treasury from the name, and fills the two vacant places of `ctx` with
/// the pool's record and its treasury. Where it refuses, `ctx` is left as it
/// was.
pub fn create_vesting_account(ctx: &mut CreateVestingAccount, company_name: String) -> (created:
    Result<(), ErrorCode>)
    ensures
        match pool_created(*old(ctx), company_name) {
            Ok(next) => created is Ok && *final(ctx) == next,
            Err(error) => created == Err::<(), ErrorCode>(error) && *final(ctx) == *old(ctx),
        },
        created is Ok ==> final(ctx).vesting_account.data->0.well_formed(),
        created is Ok ==> final(ctx).vesting_account.key != final(ctx).token_treasury_account.key,
{
    let pool = pool_address(company_name.as_str());
    let treasury = treasury_address(company_name.as_str());
    create_vesting_account_at(ctx, company_name, pool, treasury)
}

/// What creating a grant with the given schedule makes of the accounts `ctx`,
/// where `grant` is the address derived from the beneficiary and the pool's
/// address.
///
/// The signer must be the owner that the pool's record names. The place must
/// be the derived address, and vacant. The schedule is stored as given: that
/// the dates are in order is not asked here, a claim finds it out. Nothing has
/// been withdrawn yet.
pub open spec fn grant_created_at(
    ctx: CreateEmployeeAccount,
    start_date: u64,
    end_date: u64,
    cliff_date: u64,
    total_amount: u64,
    grant: Option<(Seq<u8>, u8)>,
) -> Result<CreateEmployeeAccount, ErrorCode> {
    if ctx.owner != ctx.vesting_account.data.owner {
        Err(ErrorCode::Unauthorized)
    } else if !bound_to(ctx.employee_account.key, grant) {
        Err(ErrorCode::Unauthorized)
    } else if ctx.employee_account.data is Some {
        Err(ErrorCode::AlreadyExists)
    } else {
        Ok(
            CreateEmployeeAccount {
                employee_account: Slot {
                    key: ctx.employee_account.key,
                    data: Some(
                        EmployeeAccount {
                            beneficiary: ctx.beneficiary,
                            vesting_account: ctx.vesting_account.key,
                            start_date,
                            end_date,
                            cliff_date,
                            total_amount,
                            total_withdrawn: 0,
                            bump: bump_of(grant),
                        },
                    ),
                },
                ..ctx
            },
        )
    }
}

/// What creating a grant with the given schedule makes of the accounts `ctx`:
/// see `grant_created_at`, the address being the one derived from the
/// beneficiary and the pool's address.
pub open spec fn grant_created(
    ctx: CreateEmployeeAccount,
    start_date: u64,
    end_date: u64,
    cliff_date: u64,
    total_amount: u64,
) -> Result<CreateEmployeeAccount, ErrorCode> {
    grant_created_at(
        ctx,
        start_date,
        end_date,
        cliff_date,
        total_amount,
        grant_address_spec(ctx.beneficiary@, ctx.vesting_account.key@),
    )
}

/// Creates a grant for the beneficiary of `ctx` under its pool, at the derived
/// address `grant`: fills the vacant place of `ctx` with the grant's record.
/// Where it refuses, `ctx` is left as it was.
pub fn create_employee_account_at(
    ctx: &mut CreateEmployeeAccount,
    start_date: u64,
    end_date: u64,
    cliff_date: u64,
    total_amount: u64,
    grant: Option<(Address, u8)>,
) -> (created: Result<(), ErrorCode>)
    ensures
        match grant_created_at(
            *old(ctx),
            start_date,
            end_date,
            cliff_date,
            total_amount,
            viewed(grant),
        ) {
            Ok(next) => created is Ok && *final(ctx) == next,
            Err(error) => created == Err::<(), ErrorCode>(error) && *final(ctx) == *old(ctx),
        },
        created is Ok ==> final(ctx).employee_account.data->0.well_formed(),
{
    if ctx.owner != ctx.vesting_account.data.owner {
        return Err(ErrorCode::Unauthorized);
    }
    if !is_bound(&ctx.employee_account.key, &grant) {
        return Err(ErrorCode::Unauthorized);
    }
    if ctx.employee_account.data.is_some() {
        return Err(ErrorCode::AlreadyExists);
    }
    let bump: u8 = match grant {
        Some((_, bump)) => bump,
        None => 0,
    };
    ctx.employee_account.data = Some(
        EmployeeAccount {
            beneficiary: ctx.beneficiary,
            vesting_account: ctx.vesting_account.key,
            start_date,
            end_date,
            cliff_date,
            total_amount,
            total_withdrawn: 0,
            bump,
        },
    );
    Ok(())
}

/// Creates a grant for the beneficiary of `ctx` under its pool: derives the
/// grant's address from the beneficiary and the pool's address, and fills the
/// vacant place of `ctx` with the grant's record. Where it refuses, `ctx` is
/// left as it was.
pub fn create_employee_account(
    ctx: &mut CreateEmployeeAccount,
    start_date: u64,
    end_date: u64,
    cliff_date: u64,
    total_amount: u64,
) -> (created: Result<(), ErrorCode>)
    ensures
        match grant_created(*old(ctx), start_date, end_date, cliff_date, total_amount) {
            Ok(next) => created is Ok && *final(ctx) == next,
            Err(error) => created == Err::<(), ErrorCode>(error) && *final(ctx) == *old(ctx),
        },
        created is Ok ==> final(ctx).employee_account.data->0.well_formed(),
{
    let grant = grant_address(&ctx.beneficiary, &ctx.vesting_account.key);
    create_employee_account_at(ctx, start_date, end_date, cliff_date, total_amount, grant)
}

/// Whether the accounts of a claim belong together, where `pool` and `grant`
/// are the derived addresses of the pool and of the grant: the pool's account
/// is at `pool` and names the treasury and the kind of token given; the grant's
/// account is at `grant`, and its record names that pool and the claiming
/// beneficiary.
pub open spec fn claim_authorized_at(
    ctx: ClaimTokens,
    pool: Option<(Seq<u8>, u8)>,
    grant: Option<(Seq<u8>, u8)>,
) -> bool {
    &&& bound_to(ctx.vesting_account.key, pool)
    &&& ctx.vesting_account.data.token_treasury == ctx.token_treasury
    &&& ctx.vesting_account.data.mint == ctx.mint
    &&& bound_to(ctx.employee_account.key, grant)
    &&& ctx.employee_account.data.vesting_account == ctx.vesting_account.key
    &&& ctx.employee_account.data.beneficiary == ctx.beneficiary
}

/// The transfer that pays `amount` out of the treasury of `ctx` to its
/// beneficiary.
pub open spec fn payout(ctx: ClaimTokens, amount: u64) -> Transfer {
    Transfer {
        from: ctx.token_treasury,
        authority: ctx.token_treasury,
        authority_bump: ctx.vesting_account.data.treasury_bump,
        recipient: ctx.beneficiary,
        mint: ctx.mint,
        amount,
    }
}

/// What a claim at `now` on the accounts `ctx` comes to, where `pool` and
/// `grant` are the derived addresses of the pool and of the grant: refused as
/// unauthorized where the accounts do not belong together, else refused as the
/// grant's schedule says, else the transfer of exactly what the schedule
/// releases.
pub open spec fn claim_decided_at(
    ctx: ClaimTokens,
    now: int,
    pool: Option<(Seq<u8>, u8)>,
    grant: Option<(Seq<u8>, u8)>,
) -> Result<Transfer, ErrorCode> {
    if !claim_authorized_at(ctx, pool, grant) {
        Err(ErrorCode::Unauthorized)
    } else {
        match claimable_at(ctx.employee_account.data, now) {
            Ok(amount) => Ok(payout(ctx, amount)),
            Err(error) => Err(error),
        }
    }
}

/// What a claim at `now` on the accounts `ctx` under `company_name` comes to:
/// see `claim_decided_at`, the pool's address being the one derived from the
/// name, the grant's the one derived from the claiming beneficiary and the
/// address of the pool's account.
pub open spec fn claim_decided(ctx: ClaimTokens, company_name: Seq<char>, now: int) -> Result<
    Transfer,
    ErrorCode,
> {
    claim_decided_at(
        ctx,
        now,
        pool_address_spec(company_name),
        grant_address_spec(ctx.beneficiary@, ctx.vesting_account.key@),
    )
}

/// Decides a claim made at the time `now` on the accounts `ctx`, `pool` and
/// `grant` being the derived addresses of the pool and of the grant, and orders
/// the transfer that the claim releases. With what it releases, no more will
/// have been withdrawn than was granted.
pub fn claim_tokens_at(
    ctx: &ClaimTokens,
    now: i64,
    pool: Option<(Address, u8)>,
    grant: Option<(Address, u8)>,
) -> (decided: Result<Transfer, ErrorCode>)
    ensures
        decided == claim_decided_at(*ctx, now as int, viewed(pool), viewed(grant)),
        decided matches Ok(transfer) ==> ctx.employee_account.data.total_withdrawn
            + transfer.amount <= ctx.employee_account.data.total_amount,
{
    if !is_bound(&ctx.vesting_account.key, &pool) || ctx.vesting_account.data.token_treasury
        != ctx.token_treasury || ctx.vesting_account.data.mint != ctx.mint {
        return Err(ErrorCode::Unauthorized);
    }
    if !is_bound(&ctx.employee_account.key, &grant) || ctx.employee_account.data.vesting_account
        != ctx.vesting_account.key || ctx.employee_account.data.beneficiary != ctx.beneficiary {
        return Err(ErrorCode::Unauthorized);
    }
    match ctx.employee_account.data.claimable_amount(now) {
        Ok(amount) => Ok(
            Transfer {
                from: ctx.token_treasury,
                authority: ctx.token_treasury,
                authority_bump: ctx.vesting_account.data.treasury_bump,
                recipient: ctx.beneficiary,
                mint: ctx.mint,
                amount,
            },
        ),
        Err(error) => Err(error),
    }
}

/// Decides a claim made at the time `now` by the beneficiary of `ctx` on the
/// pool of `company_name`, and orders the transfer that it releases. Nothing is
/// recorded yet: `settle_claim` records the withdrawal once the custodian has
/// answered.
///
/// A claim by anyone but the beneficiary whom the grant names is unauthorized.
/// With what an accepted claim releases, no more will have been withdrawn than
/// was granted.
pub fn claim_tokens(ctx: &ClaimTokens, company_name: String, now: i64) -> (decided: Result<
    Transfer,
    ErrorCode,
>)
    ensures
        decided == claim_decided(*ctx, company_name@, now as int),
        ctx.beneficiary != ctx.employee_account.data.beneficiary ==> decided == Err::<
            Transfer,
            ErrorCode,
        >(ErrorCode::Unauthorized),
        decided matches Ok(transfer) ==> ctx.employee_account.data.total_withdrawn
            + transfer.amount <= ctx.employee_account.data.total_amount,
{
    let pool = pool_address(company_name.as_str());
    let grant = grant_address(&ctx.beneficiary, &ctx.vesting_account.key);
    claim_tokens_at(ctx, now, pool, grant)
}

/// The error with which a claim ends when the custodian refuses its transfer:
/// the custodian's own reason.
pub open spec fn surfaced(failure: TransferFailure) -> ErrorCode {
    match failure {
        TransferFailure::InsufficientFunds => ErrorCode::InsufficientFunds,
        TransferFailure::AssetMismatch => ErrorCode::AssetMismatch,
    }
}

/// The accounts `ctx` after `amount` more has been withdrawn from the grant.
pub open spec fn withdrawn(ctx: ClaimTokens, amount: u64) -> ClaimTokens
    recommends
        ctx.employee_account.data.total_withdrawn + amount <= u64::MAX,
{
    ClaimTokens {
        employee_account: Account {
            key: ctx.employee_account.key,
            data: EmployeeAccount {
                total_withdrawn: (ctx.employee_account.data.total_withdrawn + amount) as u64,
                ..ctx.employee_account.data
            },
        },
        ..ctx
    }
}

/// Ends a claim once the custodian has answered for `transfer`. Where the
/// transfer was carried out, its amount is added to what the grant has
/// withdrawn, and returned. Where the custodian refused, nothing is recorded
/// and its reason is returned. So a withdrawal is on record exactly when the
/// tokens have moved.
///
/// The sum must fit in 64 bits, as it does for every transfer that
/// `claim_tokens` orders on these accounts.
pub fn settle_claim(
    ctx: &mut ClaimTokens,
    transfer: &Transfer,
    outcome: Result<(), TransferFailure>,
) -> (settled: Result<u64, ErrorCode>)
    requires
        old(ctx).employee_account.data.total_withdrawn + transfer.amount <= u64::MAX,
    ensures
        match outcome {
            Ok(_) => settled == Ok::<u64, ErrorCode>(transfer.amount) && *final(ctx) == withdrawn(
                *old(ctx),
                transfer.amount,
            ),
            Err(failure) => settled == Err::<u64, ErrorCode>(surfaced(failure)) && *final(ctx)
                == *old(ctx),
        },
        final(ctx).employee_account.data.total_withdrawn >= old(
            ctx,
        ).employee_account.data.total_withdrawn,
{
    match outcome {
        Ok(_) => {
            ctx.employee_account.data.total_withdrawn = ctx.employee_account.data.total_withdrawn
                + transfer.amount;
            Ok(transfer.amount)
        },
        Err(TransferFailure::InsufficientFunds) => Err(ErrorCode::InsufficientFunds),
        Err(TransferFailure::AssetMismatch) => Err(ErrorCode::AssetMismatch),
    }
}

} // verus!
