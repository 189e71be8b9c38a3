//! The records that the ledger keeps.

use vstd::prelude::*;
use vstd::utf8::encode_utf8;
use crate::address::Address;
use crate::pda::{pool_address_spec, treasury_address_spec};

verus! {

/// The longest company name, in bytes, that a pool record stores.
pub const MAX_COMPANY_NAME_LEN: usize = 50;

/// The record of a company's vesting pool. It is written once, when the pool
/// is created, and never changed.
#[derive(Clone, Debug, PartialEq, Eq)]
pub struct VestingAccount {
    /// Who may create grants against the pool.
    pub owner: Address,
    /// The kind of token that the pool holds.
    pub mint: Address,
    /// The account that holds the locked tokens.
    pub token_treasury: Address,
    /// The company's name, from which the pool's address is derived.
    pub company_name: String,
    /// The bump seed of the treasury's address.
    pub treasury_bump: u8,
    /// The bump seed of the record's own address.
    pub bump: u8,
}

/// The length of `company_name` in bytes.
pub open spec fn name_len(company_name: Seq<char>) -> nat {
    encode_utf8(company_name).len()
}

impl VestingAccount {
    /// The name fits the record, the treasury is the one derived from the
    /// name, and the two bump seeds are those of the two derivations.
    pub open spec fn well_formed(&self) -> bool {
        &&& name_len(self.company_name@) <= MAX_COMPANY_NAME_LEN
        &&& treasury_address_spec(self.company_name@) == Some(
            (self.token_treasury@, self.treasury_bump),
        )
        &&& pool_address_spec(self.company_name@) matches Some((_, bump)) && bump == self.bump
    }
}

/// The treasury of a pool, as far as the ledger is concerned: which kind of
/// token it holds and who may move tokens out of it.
#[derive(Clone, Copy, Debug, PartialEq, Eq)]
pub struct TreasuryAccount {
    /// The kind of token held.
    pub mint: Address,
    /// Who may move tokens out. For a pool's treasury this is the treasury's
    /// own address, which no person can sign for.
    pub authority: Address,
}

/// The record of one beneficiary's grant under a pool.
#[derive(Clone, Copy, Debug, PartialEq, Eq)]
pub struct EmployeeAccount {
    /// Who may claim.
    pub beneficiary: Address,
    /// The address of the pool under which the grant was made.
    pub vesting_account: Address,
    /// Start of the schedule, in seconds of Unix time.
    pub start_date: u64,
    /// End of the schedule: from then on everything has vested.
    pub end_date: u64,
    /// Before this date nothing can be claimed.
    pub cliff_date: u64,
    /// What the beneficiary receives in all.
    pub total_amount: u64,
    /// What the beneficiary has received so far.
    pub total_withdrawn: u64,
    /// The bump seed of the record's own address.
    pub bump: u8,
}

impl EmployeeAccount {
    /// No more has been withdrawn than was granted.
    pub open spec fn well_formed(&self) -> bool {
        self.total_withdrawn <= self.total_amount
    }
}

/// A record that the ledger holds, with the address at which it holds it.
#[derive(Clone, Debug, PartialEq, Eq)]
pub struct Account<T> {
    pub key: Address,
    pub data: T,
}

/// An address of the ledger with what it holds there, if anything.
#[derive(Clone, Debug, PartialEq, Eq)]
pub struct Slot<T> {
    pub key: Address,
    pub data: Option<T>,
}

} // verus!
