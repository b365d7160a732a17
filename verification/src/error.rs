//! Error kinds of the escrow and the host-level codes they are reported as.

use vstd::prelude::*;
use vstd::std_specs::convert::FromSpecImpl;

verus! {

/// Errors that are specific to the escrow. Each is reported to the host as a
/// custom code: its position in this list, counted from zero.
#[derive(Debug, Clone, Copy, PartialEq, Eq, Structural)]
pub enum EscrowError {
    /// Malformed opcode or amount encoding.
    InvalidInstruction,
    /// The record storage fails the host's minimum-balance rule.
    NotRentExempt,
    /// Expected amount mismatch.
    ExpectedAmountMismatch,
    /// Amount overflow.
    AmountOverflow,
    /// A supplied creator or competitor account does not match the record.
    InvalidAccount,
    /// The amount of a withdrawal does not match the record's stored amount.
    InvalidAmount,
    /// Invalid owner.
    InvalidOwner,
    /// Invalid seeds of a program-derived address.
    InvalidPdaSeeds,
}

impl EscrowError {
    /// The custom code under which the error is reported.
    pub open spec fn spec_code(self) -> u32 {
        match self {
            EscrowError::InvalidInstruction => 0,
            EscrowError::NotRentExempt => 1,
            EscrowError::ExpectedAmountMismatch => 2,
            EscrowError::AmountOverflow => 3,
            EscrowError::InvalidAccount => 4,
            EscrowError::InvalidAmount => 5,
            EscrowError::InvalidOwner => 6,
            EscrowError::InvalidPdaSeeds => 7,
        }
    }

    /// The text that describes the error.
    pub open spec fn spec_message(self) -> Seq<char> {
        match self {
            EscrowError::InvalidInstruction => "Invalid Instruction"@,
            EscrowError::NotRentExempt => "Not Rent Exempt"@,
            EscrowError::ExpectedAmountMismatch => "Expected Amount Mismatch"@,
            EscrowError::AmountOverflow => "Amount Overflow"@,
            EscrowError::InvalidAccount => "Invalid Account"@,
            EscrowError::InvalidAmount => "Invalid Amount"@,
            EscrowError::InvalidOwner => "Invalid Owner"@,
            EscrowError::InvalidPdaSeeds => "Invalid PDA Seeds"@,
        }
    }

    /// Returns the custom code under which the error is reported.
    #[verifier::when_used_as_spec(spec_code)]
    pub fn code(self) -> (c: u32)
        ensures
            c == self.spec_code(),
    {
        match self {
            EscrowError::InvalidInstruction => 0,
            EscrowError::NotRentExempt => 1,
            EscrowError::ExpectedAmountMismatch => 2,
            EscrowError::AmountOverflow => 3,
            EscrowError::InvalidAccount => 4,
            EscrowError::InvalidAmount => 5,
            EscrowError::InvalidOwner => 6,
            EscrowError::InvalidPdaSeeds => 7,
        }
    }

    /// Returns the text that describes the error.
    pub fn message(self) -> (m: String)
        ensures
            m@ == self.spec_message(),
    {
        match self {
            EscrowError::InvalidInstruction => "Invalid Instruction".to_string(),
            EscrowError::NotRentExempt => "Not Rent Exempt".to_string(),
            EscrowError::ExpectedAmountMismatch => "Expected Amount Mismatch".to_string(),
            EscrowError::AmountOverflow => "Amount Overflow".to_string(),
            EscrowError::InvalidAccount => "Invalid Account".to_string(),
            EscrowError::InvalidAmount => "Invalid Amount".to_string(),
            EscrowError::InvalidOwner => "Invalid Owner".to_string(),
            EscrowError::InvalidPdaSeeds => "Invalid PDA Seeds".to_string(),
        }
    }
}

/// The codes with which an invocation is rejected. The host aborts the
/// invocation and discards its effects, whichever code it receives.
#[derive(Debug, Clone, Copy, PartialEq, Eq, Structural)]
pub enum ProgramError {
    /// An error of the escrow, by its custom code.
    Custom(u32),
    /// An argument of the instruction is invalid: the account offered as
    /// minimum-balance attestation is not one.
    InvalidArgument,
    /// The contents of an account's data are invalid: the record storage does
    /// not hold a well-formed record.
    InvalidAccountData,
    /// Missing authorization: the required signer has not signed.
    MissingRequiredSignature,
    /// The record has not been initialized.
    UninitializedAccount,
    /// The instruction was given fewer accounts than it needs.
    NotEnoughAccountKeys,
    /// The seeds yield no program-derived address.
    InvalidSeeds,
}

impl From<EscrowError> for ProgramError {
    fn from(e: EscrowError) -> (r: ProgramError) {
        ProgramError::Custom(e.code())
    }
}

impl FromSpecImpl<EscrowError> for ProgramError {
    open spec fn obeys_from_spec() -> bool {
        true
    }

    open spec fn from_spec(e: EscrowError) -> ProgramError {
        ProgramError::Custom(e.spec_code())
    }
}

} // verus!
