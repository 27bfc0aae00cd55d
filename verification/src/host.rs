//! What the library takes from the host's development kit and from the
//! token program's instruction builders.
//!
//! The two functions of this file are not proved. Each makes one call into
//! one of those crates, and its contract records what the source of the
//! called function shows, in the words that the rest of the file defines.

use vstd::prelude::*;
use solana_program::program_error::ProgramError;
use solana_program::pubkey::Pubkey;
use crate::account::Address;
use crate::instruction::le_bytes;
use crate::invocation::{AccountMeta, AccountMetaView, Instruction, InstructionView};

verus! {

/// The host's error type, `solana_program::program_error::ProgramError`.
/// The library looks at no value of it.
#[verifier::external_type_specification]
#[verifier::external_body]
pub struct ExProgramError(ProgramError);

/// The address of the token program: the 32 bytes that
/// `TokenkegQfeZyiNwAJbNbGKPFXCWuBvf9Ss623VQ5DA` spells in base 58.
pub open spec fn token_program_id() -> Seq<u8> {
    seq![
        6u8, 221, 246, 225, 215, 101, 161, 147, 217, 203, 225, 70, 206, 235, 121, 172,
        28, 180, 133, 237, 95, 91, 55, 145, 58, 140, 245, 133, 126, 255, 0, 169,
    ]
}

/// Tag of a transfer in the wire format of the token program.
pub const TRANSFER_TAG: u8 = 3;

/// The instruction by which the token program moves `amount` from `source`
/// to `destination` when `signer` signs for `authority`.
///
/// Source and destination may change and need not sign; the authority and
/// the signer may not change, and of the two only the signer signs. The data
/// is the tag of a transfer followed by the amount.
pub open spec fn transfer_instruction(
    token_program: Seq<u8>,
    source: Seq<u8>,
    destination: Seq<u8>,
    authority: Seq<u8>,
    signer: Seq<u8>,
    amount: u64,
) -> InstructionView {
    InstructionView {
        program: token_program,
        accounts: seq![
            AccountMetaView { key: source, is_signer: false, is_writable: true },
            AccountMetaView { key: destination, is_signer: false, is_writable: true },
            AccountMetaView { key: authority, is_signer: false, is_writable: false },
            AccountMetaView { key: signer, is_signer: true, is_writable: false },
        ],
        data: seq![TRANSFER_TAG] + le_bytes(amount),
    }
}

/// Builds a transfer with `spl_token::instruction::transfer`, with `signer`
/// as the only entry of its list of signers.
///
/// The builder refuses every program but the token program (its error is
/// then `ProgramError::IncorrectProgramId`), and otherwise returns
/// [`transfer_instruction`] of its arguments.
#[verifier::external_body]
pub(crate) fn token_transfer(
    token_program: &Address,
    source: &Address,
    destination: &Address,
    authority: &Address,
    signer: &Address,
    amount: u64,
) -> (made: Result<Instruction, ProgramError>)
    ensures
        made is Ok <==> token_program@ == token_program_id(),
        made matches Ok(instruction) ==> instruction@ == transfer_instruction(
            token_program@,
            source@,
            destination@,
            authority@,
            signer@,
            amount,
        ),
{
    let made = spl_token::instruction::transfer(
        &Pubkey::new_from_array(token_program.bytes),
        &Pubkey::new_from_array(source.bytes),
        &Pubkey::new_from_array(destination.bytes),
        &Pubkey::new_from_array(authority.bytes),
        &[&Pubkey::new_from_array(signer.bytes)],
        amount,
    )?;
    let accounts = made.accounts.iter().map(
        |meta| AccountMeta::new(Address::new(meta.pubkey.to_bytes()), meta.is_signer, meta.is_writable),
    ).collect();
    Ok(Instruction { program: Address::new(made.program_id.to_bytes()), accounts, data: made.data })
}

/// The program-derived address of `program` for the one seed `seed`, with
/// its nonce: what `Pubkey::try_find_program_address` returns for them. It
/// is `None` where no nonce leads to an address.
pub uninterp spec fn program_address(seed: Seq<u8>, program: Seq<u8>) -> Option<(Seq<u8>, u8)>;

/// Derives an address with `Pubkey::try_find_program_address`, with `seed`
/// as the only seed.
///
/// The derivation hashes the seed, a nonce and the address of the program,
/// and tries the nonces from 255 downwards until the hash is no point of
/// the curve. It depends on nothing but its arguments.
#[verifier::external_body]
pub(crate) fn find_program_address(seed: &[u8], program: &Address) -> (found: Option<(Address, u8)>)
    ensures
        found is Some <==> program_address(seed@, program@) is Some,
        found matches Some((address, nonce)) ==> program_address(seed@, program@) == Some(
            (address@, nonce),
        ),
{
    Pubkey::try_find_program_address(&[seed], &Pubkey::new_from_array(program.bytes)).map(
        |(key, nonce)| (Address::new(key.to_bytes()), nonce),
    )
}

} // verus!
