//! Token vesting ledger: pools of locked tokens, per-beneficiary grants, and
//! the rules by which a beneficiary claims what has vested.
//!
//! A company locks tokens in a pool, whose record and treasury live at
//! addresses derived from the company's name. The pool's owner makes grants,
//! one to a beneficiary, each with a start date, an end date, a cliff and a
//! total amount. A beneficiary claims; the ledger decides what the claim
//! releases, orders the transfer out of the treasury, and records the
//! withdrawal once the tokens have moved.
//!
//! - `address`: 32-byte addresses.
//! - `pda`: the derivation of record addresses from seeds.
//! - `state`: the records of pools and grants.
//! - `schedule`: the arithmetic from schedule and time to amount.
//! - `instructions`: the operations, on accounts that the caller has loaded.
//! - `laws`: what holds of the operations taken together.
//! - `error`: why an operation is refused.
//!
//! The library holds no storage and moves no tokens. Its caller loads the
//! accounts, stores what an operation made of them, and has the custodian
//! carry out the transfers.

pub mod address;
pub mod error;
pub mod instructions;
pub mod laws;
pub mod pda;
pub mod schedule;
pub mod state;

pub use crate::address::Address;
pub use crate::error::ErrorCode;
pub use crate::instructions::{
    claim_tokens, claim_tokens_at, create_employee_account, create_employee_account_at,
    create_vesting_account, create_vesting_account_at, settle_claim, ClaimTokens,
    CreateEmployeeAccount, CreateVestingAccount, Transfer, TransferFailure,
};
pub use crate::state::{Account, EmployeeAccount, Slot, TreasuryAccount, VestingAccount};
