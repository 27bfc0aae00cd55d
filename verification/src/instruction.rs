//! The wire format of the program's instructions.
//!
//! | offset | width | meaning                                  |
//! |--------|-------|------------------------------------------|
//! | 0      | 1     | tag: `0` stake, `1` claim a reward       |
//! | 1      | 8     | amount, unsigned, least significant first |
//!
//! Bytes after the amount are not looked at.

use vstd::prelude::*;
use vstd::std_specs::convert::FromSpec;
use crate::error::{BetError, ProgramFault};

verus! {

/// Tag of [`BetInstruction::Stake`].
pub const TAG_STAKE: u8 = 0;

/// Tag of [`BetInstruction::ClaimReward`].
pub const TAG_CLAIM_REWARD: u8 = 1;

/// Number of bytes that an amount takes on the wire.
pub const AMOUNT_WIDTH: usize = 8;

/// A command to the program.
#[derive(Clone, Copy, Debug, PartialEq, Eq, Structural)]
pub enum BetInstruction {
    /// Move `amount` from the sender to the account of the pool.
    ///
    /// Accounts, by position:
    /// 0. the sender, who signs;
    /// 1. the pool's token account;
    /// 2. the token program.
    Stake { amount: u64 },
    /// Move `amount` out of the pool to a receiver, under the authority of
    /// the program-derived address.
    ///
    /// Accounts, by position:
    /// 0. the receiver;
    /// 1. the pool's token account;
    /// 2. the token program;
    /// 3. the account that the program-derived address controls.
    ClaimReward { amount: u64 },
}

/// The number that the first eight bytes of `bytes` spell when the least
/// significant byte comes first.
pub open spec fn le_u64(bytes: Seq<u8>) -> nat
    recommends
        bytes.len() >= 8,
{
    (bytes[0] as nat)
        + (bytes[1] as nat) * 0x100
        + (bytes[2] as nat) * 0x1_0000
        + (bytes[3] as nat) * 0x100_0000
        + (bytes[4] as nat) * 0x1_0000_0000
        + (bytes[5] as nat) * 0x100_0000_0000
        + (bytes[6] as nat) * 0x1_0000_0000_0000
        + (bytes[7] as nat) * 0x100_0000_0000_0000
}

/// The eight bytes that spell `value`, least significant byte first.
pub open spec fn le_bytes(value: u64) -> Seq<u8> {
    seq![
        (value % 0x100) as u8,
        (value / 0x100 % 0x100) as u8,
        (value / 0x1_0000 % 0x100) as u8,
        (value / 0x100_0000 % 0x100) as u8,
        (value / 0x1_0000_0000 % 0x100) as u8,
        (value / 0x100_0000_0000 % 0x100) as u8,
        (value / 0x1_0000_0000_0000 % 0x100) as u8,
        (value / 0x100_0000_0000_0000 % 0x100) as u8,
    ]
}

impl BetInstruction {
    /// The fault that malformed instruction data ends with.
    pub open spec fn invalid() -> ProgramFault {
        ProgramFault::from_spec(BetError::InvalidInstruction)
    }

    /// What [`BetInstruction::unpack_amount`] makes of `input`.
    pub open spec fn decode_amount(input: Seq<u8>) -> Result<u64, ProgramFault> {
        if input.len() >= 8 {
            Ok(le_u64(input) as u64)
        } else {
            Err(Self::invalid())
        }
    }

    /// What [`BetInstruction::unpack`] makes of `input`.
    pub open spec fn decode(input: Seq<u8>) -> Result<BetInstruction, ProgramFault> {
        if input.len() == 0 {
            Err(Self::invalid())
        } else if input[0] == TAG_STAKE {
            match Self::decode_amount(input.skip(1)) {
                Ok(amount) => Ok(BetInstruction::Stake { amount }),
                Err(fault) => Err(fault),
            }
        } else if input[0] == TAG_CLAIM_REWARD {
            match Self::decode_amount(input.skip(1)) {
                Ok(amount) => Ok(BetInstruction::ClaimReward { amount }),
                Err(fault) => Err(fault),
            }
        } else {
            Err(Self::invalid())
        }
    }

    /// The amount that this instruction moves.
    pub open spec fn spec_amount(self) -> u64 {
        match self {
            BetInstruction::Stake { amount } => amount,
            BetInstruction::ClaimReward { amount } => amount,
        }
    }

    /// Decodes an instruction from its wire format.
    ///
    /// Succeeds exactly on data that starts with a known tag followed by at
    /// least eight bytes; everything else is an invalid instruction.
    pub fn unpack(input: &[u8]) -> (decoded: Result<BetInstruction, ProgramFault>)
        ensures
            decoded == Self::decode(input@),
            // Data without a tag is invalid.
            input@.len() == 0 ==> decoded == Err::<BetInstruction, ProgramFault>(Self::invalid()),
            // So is data with a tag other than the two known ones.
            input@.len() > 0 && input@[0] != TAG_STAKE && input@[0] != TAG_CLAIM_REWARD
                ==> decoded == Err::<BetInstruction, ProgramFault>(Self::invalid()),
            // And data that ends before the amount does.
            0 < input@.len() < 9 ==> decoded == Err::<BetInstruction, ProgramFault>(
                Self::invalid(),
            ),
            // A known tag and eight bytes after it always decode, to the
            // variant of the tag and the amount that those bytes spell.
            input@.len() >= 9 && input@[0] == TAG_STAKE ==> decoded is Ok
                && decoded->Ok_0 is Stake,
            input@.len() >= 9 && input@[0] == TAG_CLAIM_REWARD ==> decoded is Ok
                && decoded->Ok_0 is ClaimReward,
            decoded matches Ok(instruction) ==> instruction.spec_amount() == le_u64(
                input@.subrange(1, 9),
            ),
    {
        if input.len() == 0 {
            return Err(ProgramFault::from(BetError::InvalidInstruction));
        }
        let tag = input[0];
        let rest = &input[1..input.len()];
        if tag == TAG_STAKE {
            match Self::unpack_amount(rest) {
                Ok(amount) => Ok(BetInstruction::Stake { amount }),
                Err(fault) => Err(fault),
            }
        } else if tag == TAG_CLAIM_REWARD {
            match Self::unpack_amount(rest) {
                Ok(amount) => Ok(BetInstruction::ClaimReward { amount }),
                Err(fault) => Err(fault),
            }
        } else {
            Err(ProgramFault::from(BetError::InvalidInstruction))
        }
    }

    /// Reads an amount from the first eight bytes of `input`.
    ///
    /// Fails exactly when `input` has fewer than eight bytes.
    pub fn unpack_amount(input: &[u8]) -> (amount: Result<u64, ProgramFault>)
        ensures
            amount == Self::decode_amount(input@),
            input@.len() < 8 ==> amount == Err::<u64, ProgramFault>(Self::invalid()),
            input@.len() >= 8 ==> amount is Ok && amount->Ok_0 == le_u64(input@),
    {
        if input.len() < AMOUNT_WIDTH {
            return Err(ProgramFault::from(BetError::InvalidInstruction));
        }
        let value: u64 = input[0] as u64
            + (input[1] as u64) * 0x100
            + (input[2] as u64) * 0x1_0000
            + (input[3] as u64) * 0x100_0000
            + (input[4] as u64) * 0x1_0000_0000
            + (input[5] as u64) * 0x100_0000_0000
            + (input[6] as u64) * 0x1_0000_0000_0000
            + (input[7] as u64) * 0x100_0000_0000_0000;
        Ok(value)
    }
}

/// [`le_bytes`] and [`le_u64`] undo each other: the eight bytes of a value
/// spell that value.
pub proof fn lemma_le_bytes_spell_the_value(value: u64)
    ensures
        le_bytes(value).len() == 8,
        le_u64(le_bytes(value)) == value,
{
    assert(value == (value % 0x100) + (value / 0x100 % 0x100) * 0x100 + (value / 0x1_0000 % 0x100)
        * 0x1_0000 + (value / 0x100_0000 % 0x100) * 0x100_0000 + (value / 0x1_0000_0000 % 0x100)
        * 0x1_0000_0000 + (value / 0x100_0000_0000 % 0x100) * 0x100_0000_0000 + (value
        / 0x1_0000_0000_0000 % 0x100) * 0x1_0000_0000_0000 + (value / 0x100_0000_0000_0000 % 0x100)
        * 0x100_0000_0000_0000) by (bit_vector);
}

} // verus!
