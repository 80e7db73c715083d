//! Why an instruction was refused.

use vstd::prelude::*;

verus! {

/// Every way an instruction can fail. A failed instruction changes nothing.
#[derive(Clone, Copy, Debug, PartialEq, Eq, Structural)]
pub enum ErrorCode {
    /// The claim came before the cliff.
    ClaimNotAvailableYet,
    /// Nothing has vested beyond what was already withdrawn.
    NothingToClaim,
    /// The vested amount cannot be computed in 64 bits.
    CalculationOverflow,
    /// The company name is longer than the bound.
    CompanyNameTooLong,
    /// No address can be derived from the seeds.
    AddressNotDerivable,
    /// A presented address is not the one derived from its seeds.
    AddressMismatch,
    /// The address of a record to create is already occupied.
    AccountInUse,
    /// The caller is not the identity the record names.
    Unauthorized,
    /// A presented account is not the one the record refers to.
    AccountMismatch,
}

impl ErrorCode {
    /// The text of each failure.
    pub open spec fn spec_message(self) -> Seq<char> {
        match self {
            ErrorCode::ClaimNotAvailableYet => "Claiming is not available yet."@,
            ErrorCode::NothingToClaim => "There is nothing to claim."@,
            ErrorCode::CalculationOverflow => "Calculation overflow"@,
            ErrorCode::CompanyNameTooLong => "The company name is too long."@,
            ErrorCode::AddressNotDerivable => "No address can be derived from the seeds."@,
            ErrorCode::AddressMismatch => "An address does not match its seeds."@,
            ErrorCode::AccountInUse => "The account is already in use."@,
            ErrorCode::Unauthorized => "The caller is not authorized."@,
            ErrorCode::AccountMismatch => "A presented account does not match the record."@,
        }
    }

    /// The text shown for this failure.
    pub fn message(&self) -> (text: &'static str)
        ensures
            text@ == self.spec_message(),
    {
        match self {
            ErrorCode::ClaimNotAvailableYet => "Claiming is not available yet.",
            ErrorCode::NothingToClaim => "There is nothing to claim.",
            ErrorCode::CalculationOverflow => "Calculation overflow",
            ErrorCode::CompanyNameTooLong => "The company name is too long.",
            ErrorCode::AddressNotDerivable => "No address can be derived from the seeds.",
            ErrorCode::AddressMismatch => "An address does not match its seeds.",
            ErrorCode::AccountInUse => "The account is already in use.",
            ErrorCode::Unauthorized => "The caller is not authorized.",
            ErrorCode::AccountMismatch => "A presented account does not match the record.",
        }
    }
}

} // verus!
