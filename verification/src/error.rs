//! Failures of the program, and the form in which the host sees them.

use vstd::prelude::*;
use vstd::std_specs::convert::FromSpecImpl;

verus! {

/// Failures that are specific to the betting program.
///
/// The host knows such a failure only by its number, see [`BetError::code`].
#[derive(Clone, Copy, Debug, PartialEq, Eq, Structural)]
pub enum BetError {
    /// The instruction data is empty, carries an unknown tag, or is too
    /// short for the payload of its tag.
    InvalidInstruction,
    /// An account does not hold the balance that exempts it from rent.
    NotRentExempt,
}

impl BetError {
    /// The number under which the host reports this failure: the position
    /// of the variant in the declaration.
    pub open spec fn spec_code(self) -> u32 {
        match self {
            BetError::InvalidInstruction => 0,
            BetError::NotRentExempt => 1,
        }
    }

    /// The words that describe this failure.
    pub open spec fn spec_message(self) -> Seq<char> {
        match self {
            BetError::InvalidInstruction => "Invalid Instruction"@,
            BetError::NotRentExempt => "Not Rent Exempt"@,
        }
    }

    /// The words that describe this failure.
    pub fn message(self) -> (text: &'static str)
        ensures
            text@ == self.spec_message(),
    {
        match self {
            BetError::InvalidInstruction => "Invalid Instruction",
            BetError::NotRentExempt => "Not Rent Exempt",
        }
    }

    /// The number under which the host reports this failure.
    #[verifier::when_used_as_spec(spec_code)]
    pub fn code(self) -> (code: u32)
        ensures
            code == self.spec_code(),
    {
        match self {
            BetError::InvalidInstruction => 0,
            BetError::NotRentExempt => 1,
        }
    }
}

/// Why an invocation of the program ended without a transfer.
///
/// The variants are those failures of the host's own error type that the
/// program can end with before it hands a transfer to the host.
#[derive(Clone, Copy, Debug, PartialEq, Eq, Structural)]
pub enum ProgramFault {
    /// A failure of the program's own, by its number.
    Custom(u32),
    /// The account list is shorter than the instruction needs.
    NotEnoughAccountKeys,
    /// An account that has to sign the transaction did not.
    MissingRequiredSignature,
    /// The account in the place of the transfer service is not the token
    /// program.
    IncorrectProgramId,
    /// No nonce turns the seed into a program-derived address.
    InvalidSeeds,
}

impl From<BetError> for ProgramFault {
    fn from(e: BetError) -> (fault: ProgramFault) {
        ProgramFault::Custom(e.code())
    }
}

impl FromSpecImpl<BetError> for ProgramFault {
    open spec fn obeys_from_spec() -> bool {
        true
    }

    open spec fn from_spec(e: BetError) -> ProgramFault {
        ProgramFault::Custom(e.spec_code())
    }
}

} // verus!
