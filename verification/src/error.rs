//! Reasons for which an operation of the registry is refused.

use vstd::prelude::*;

verus! {

/// Why an operation was refused. Every refusal is final: the operation has
/// changed nothing.
#[derive(Clone, Copy, Debug, PartialEq, Eq, Structural)]
pub enum ErrorCode {
    ConfigInactive,
    Unauthorized,
    NameTooLong,
    DescriptionTooLong,
    RegistrationTooLong,
    ManufacturerTooLong,
    InvalidYear,
    InvalidLength,
    InvalidMint,
    InsufficientFunds,
    InvalidAmount,
    MathOverflow,
    InvalidTreasury,
}

impl ErrorCode {
    /// The sentence that tells a caller what went wrong.
    pub open spec fn message_text(self) -> Seq<char> {
        match self {
            ErrorCode::ConfigInactive => "Config is inactive"@,
            ErrorCode::Unauthorized => "Unauthorized access"@,
            ErrorCode::NameTooLong => "Name too long (max 50 characters)"@,
            ErrorCode::DescriptionTooLong => "Description too long (max 200 characters)"@,
            ErrorCode::RegistrationTooLong => "Registration number too long (max 30 characters)"@,
            ErrorCode::ManufacturerTooLong => "Manufacturer name too long (max 50 characters)"@,
            ErrorCode::InvalidYear => "Invalid year (must be 1900-2030)"@,
            ErrorCode::InvalidLength => "Invalid length (must be 1-1000ft)"@,
            ErrorCode::InvalidMint => "Invalid mint"@,
            ErrorCode::InsufficientFunds => "Insufficient funds"@,
            ErrorCode::InvalidAmount => "Invalid amount"@,
            ErrorCode::MathOverflow => "Math overflow while calculating fee"@,
            ErrorCode::InvalidTreasury => "Treasury account does not match configured treasury"@,
        }
    }

    /// The sentence that tells a caller what went wrong.
    pub fn message(&self) -> (text: &'static str)
        ensures
            text@ == self.message_text(),
    {
        match self {
            ErrorCode::ConfigInactive => "Config is inactive",
            ErrorCode::Unauthorized => "Unauthorized access",
            ErrorCode::NameTooLong => "Name too long (max 50 characters)",
            ErrorCode::DescriptionTooLong => "Description too long (max 200 characters)",
            ErrorCode::RegistrationTooLong => "Registration number too long (max 30 characters)",
            ErrorCode::ManufacturerTooLong => "Manufacturer name too long (max 50 characters)",
            ErrorCode::InvalidYear => "Invalid year (must be 1900-2030)",
            ErrorCode::InvalidLength => "Invalid length (must be 1-1000ft)",
            ErrorCode::InvalidMint => "Invalid mint",
            ErrorCode::InsufficientFunds => "Insufficient funds",
            ErrorCode::InvalidAmount => "Invalid amount",
            ErrorCode::MathOverflow => "Math overflow while calculating fee",
            ErrorCode::InvalidTreasury => "Treasury account does not match configured treasury",
        }
    }
}

} // verus!
