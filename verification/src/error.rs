//! The errors with which an operation is refused.

use vstd::prelude::*;

verus! {

/// Why an operation was refused. A refused operation changes nothing.
#[derive(Clone, Copy, Debug, PartialEq, Eq, Structural)]
pub enum ErrorCode {
    /// The claim comes before the cliff date.
    ClaimNotAvailableYet,
    /// The vesting period of the grant is empty.
    InvalidVestingPeriod,
    /// The product of amount and elapsed time does not fit in 64 bits.
    CalculationOverflow,
    /// Nothing has vested beyond what was already withdrawn.
    NothingToClaim,
    /// A record already lives at the address of the pool or grant to create.
    AlreadyExists,
    /// The company name is longer than a pool record can store.
    NameTooLong,
    /// A signer or an account is not the one that the records name.
    Unauthorized,
    /// The custodian refused the transfer: the accounts hold another kind of token.
    AssetMismatch,
    /// The custodian refused the transfer: the treasury holds too little.
    InsufficientFunds,
}

impl ErrorCode {
    /// The message that goes with the error.
    pub fn message(&self) -> (text: &'static str)
        ensures
            text@ == self.message_spec(),
    {
        match self {
            ErrorCode::AlreadyExists => "Record already exists",
            ErrorCode::NameTooLong => "Company name too long",
            ErrorCode::Unauthorized => "Unauthorized",
            ErrorCode::ClaimNotAvailableYet => "Claim not available yet",
            ErrorCode::InvalidVestingPeriod => "Invalid vesting period",
            ErrorCode::CalculationOverflow => "Calculation overflow",
            ErrorCode::NothingToClaim => "Nothing to claim",
            ErrorCode::AssetMismatch => "Asset mismatch",
            ErrorCode::InsufficientFunds => "Insufficient funds",
        }
    }

    /// The text of `message`.
    pub open spec fn message_spec(&self) -> Seq<char> {
        match self {
            ErrorCode::AlreadyExists => "Record already exists"@,
            ErrorCode::NameTooLong => "Company name too long"@,
            ErrorCode::Unauthorized => "Unauthorized"@,
            ErrorCode::ClaimNotAvailableYet => "Claim not available yet"@,
            ErrorCode::InvalidVestingPeriod => "Invalid vesting period"@,
            ErrorCode::CalculationOverflow => "Calculation overflow"@,
            ErrorCode::NothingToClaim => "Nothing to claim"@,
            ErrorCode::AssetMismatch => "Asset mismatch"@,
            ErrorCode::InsufficientFunds => "Insufficient funds"@,
        }
    }
}

} // verus!
