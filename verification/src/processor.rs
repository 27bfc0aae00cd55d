//! From an instruction and its accounts to the transfer that the host is to
//! make.

use vstd::prelude::*;
use vstd::slice::slice_to_vec;
use crate::account::{Account, Address};
use crate::error::ProgramFault;
use crate::host::{find_program_address, program_address, token_program_id, token_transfer, transfer_instruction};
use crate::instruction::BetInstruction;
use crate::invocation::{Invocation, InvocationView};

verus! {

/// The seed of the address under which the program pays out rewards:
/// `minority` in ASCII.
pub const AUTHORITY_SEED: [u8; 8] = [109, 105, 110, 111, 114, 105, 116, 121];

/// Staking: position of the sender, who signs for the transfer.
pub const STAKE_SENDER: usize = 0;

/// Staking: position of the pool's token account.
pub const STAKE_POOL: usize = 1;

/// Staking: position of the token program.
pub const STAKE_TOKEN_PROGRAM: usize = 2;

/// Claiming a reward: position of the receiver.
pub const CLAIM_RECEIVER: usize = 0;

/// Claiming a reward: position of the pool's token account.
pub const CLAIM_POOL: usize = 1;

/// Claiming a reward: position of the token program.
pub const CLAIM_TOKEN_PROGRAM: usize = 2;

/// Claiming a reward: position of the account that the program-derived
/// address controls.
pub const CLAIM_SOURCE: usize = 3;

/// How an invocation of the program ends: with the call that the host is
/// to make, or with a fault.
pub open spec fn outcome_view(outcome: Result<Invocation, ProgramFault>) -> Result<
    InvocationView,
    ProgramFault,
> {
    match outcome {
        Ok(invocation) => Ok(invocation@),
        Err(fault) => Err(fault),
    }
}

/// A derived address and its nonce, the address as its bytes.
pub open spec fn authority_view(authority: Option<(Address, u8)>) -> Option<(Seq<u8>, u8)> {
    match authority {
        Some((address, nonce)) => Some((address@, nonce)),
        None => None,
    }
}

/// The program's entry points.
pub struct Processor;

impl Processor {
    /// The derived address under which `program` pays out rewards, and its
    /// nonce.
    pub open spec fn authority(program: Seq<u8>) -> Option<(Seq<u8>, u8)> {
        program_address(AUTHORITY_SEED@, program)
    }

    /// How staking `amount` ends for `accounts`.
    ///
    /// The sender has to be there and to have signed. Then the pool and the
    /// token program have to be there, and the account in the place of the
    /// token program has to be the token program. If so, the sender's own
    /// transfer to the pool is handed to the host, with the sender and the
    /// token program as the accounts to pass on.
    pub open spec fn stake_outcome(accounts: Seq<Account>, amount: u64) -> Result<
        InvocationView,
        ProgramFault,
    > {
        if accounts.len() <= STAKE_SENDER || !accounts[STAKE_SENDER as int].is_signer {
            Err(ProgramFault::MissingRequiredSignature)
        } else if accounts.len() <= STAKE_TOKEN_PROGRAM {
            Err(ProgramFault::NotEnoughAccountKeys)
        } else if accounts[STAKE_TOKEN_PROGRAM as int].key@ != token_program_id() {
            Err(ProgramFault::IncorrectProgramId)
        } else {
            Ok(
                InvocationView::Direct {
                    instruction: transfer_instruction(
                        accounts[STAKE_TOKEN_PROGRAM as int].key@,
                        accounts[STAKE_SENDER as int].key@,
                        accounts[STAKE_POOL as int].key@,
                        accounts[STAKE_SENDER as int].key@,
                        accounts[STAKE_SENDER as int].key@,
                        amount,
                    ),
                    accounts: seq![STAKE_SENDER, STAKE_TOKEN_PROGRAM],
                },
            )
        }
    }

    /// How claiming `amount` ends for `accounts` when `authority` is the
    /// derived address of the program, with its nonce.
    ///
    /// Receiver, pool and token program have to be there, the address has to
    /// exist, the account that it controls has to be there, and the account
    /// in the place of the token program has to be the token program. If
    /// so, a transfer from that account to the receiver is handed to the
    /// host. Its authority and its signer are the derived address, whatever
    /// the accounts hold; the host is to take it as signed by the address
    /// that the seed and the nonce lead to.
    pub open spec fn claim_reward_outcome(
        accounts: Seq<Account>,
        amount: u64,
        authority: Option<(Seq<u8>, u8)>,
    ) -> Result<InvocationView, ProgramFault> {
        if accounts.len() <= CLAIM_TOKEN_PROGRAM {
            Err(ProgramFault::NotEnoughAccountKeys)
        } else if authority is None {
            Err(ProgramFault::InvalidSeeds)
        } else if accounts.len() <= CLAIM_SOURCE {
            Err(ProgramFault::NotEnoughAccountKeys)
        } else if accounts[CLAIM_TOKEN_PROGRAM as int].key@ != token_program_id() {
            Err(ProgramFault::IncorrectProgramId)
        } else {
            Ok(
                InvocationView::Signed {
                    instruction: transfer_instruction(
                        accounts[CLAIM_TOKEN_PROGRAM as int].key@,
                        accounts[CLAIM_SOURCE as int].key@,
                        accounts[CLAIM_RECEIVER as int].key@,
                        authority->Some_0.0,
                        authority->Some_0.0,
                        amount,
                    ),
                    accounts: seq![CLAIM_SOURCE, CLAIM_TOKEN_PROGRAM],
                    signer_seeds: seq![AUTHORITY_SEED@, seq![authority->Some_0.1]],
                },
            )
        }
    }

    /// How the program ends when `program` is called with `accounts` and
    /// `data`: data that does not decode ends in the decoder's fault, and
    /// every instruction ends as its handler does.
    pub open spec fn outcome(program: Seq<u8>, accounts: Seq<Account>, data: Seq<u8>) -> Result<
        InvocationView,
        ProgramFault,
    > {
        match BetInstruction::decode(data) {
            Err(fault) => Err(fault),
            Ok(BetInstruction::Stake { amount }) => Self::stake_outcome(accounts, amount),
            Ok(BetInstruction::ClaimReward { amount }) => Self::claim_reward_outcome(
                accounts,
                amount,
                Self::authority(program),
            ),
        }
    }

    /// The address of the token program.
    pub fn token_program() -> (address: Address)
        ensures
            address@ == token_program_id(),
    {
        Address::new(
            [
                6, 221, 246, 225, 215, 101, 161, 147, 217, 203, 225, 70, 206, 235, 121, 172,
                28, 180, 133, 237, 95, 91, 55, 145, 58, 140, 245, 133, 126, 255, 0, 169,
            ],
        )
    }

    /// The account at `position`, if the list is that long.
    pub fn account_at(accounts: &[Account], position: usize) -> (account: Result<
        Account,
        ProgramFault,
    >)
        ensures
            position < accounts@.len() ==> account == Ok::<Account, ProgramFault>(
                accounts@[position as int],
            ),
            position >= accounts@.len() ==> account == Err::<Account, ProgramFault>(
                ProgramFault::NotEnoughAccountKeys,
            ),
    {
        if position < accounts.len() {
            Ok(accounts[position])
        } else {
            Err(ProgramFault::NotEnoughAccountKeys)
        }
    }

    /// Decodes `instruction_data` and hands over to the handler of the
    /// instruction.
    pub fn process(program_id: &Address, accounts: &[Account], instruction_data: &[u8]) -> (outcome:
        Result<Invocation, ProgramFault>)
        ensures
            outcome_view(outcome) == Self::outcome(program_id@, accounts@, instruction_data@),
    {
        match BetInstruction::unpack(instruction_data) {
            Err(fault) => Err(fault),
            Ok(BetInstruction::Stake { amount }) => Self::process_stake(accounts, amount, program_id),
            Ok(BetInstruction::ClaimReward { amount }) => Self::process_claim_reward(
                accounts,
                amount,
                program_id,
            ),
        }
    }

    /// Handles a stake of `amount`.
    ///
    /// Nothing is handed to the host unless the sender has signed. The
    /// identity of the program plays no part in a stake.
    #[allow(unused_variables)]
    pub fn process_stake(accounts: &[Account], amount: u64, program_id: &Address) -> (outcome:
        Result<Invocation, ProgramFault>)
        ensures
            outcome_view(outcome) == Self::stake_outcome(accounts@, amount),
            accounts@.len() == 0 || !accounts@[0].is_signer ==> outcome is Err && outcome->Err_0
                == ProgramFault::MissingRequiredSignature,
            outcome is Ok <==> accounts@.len() >= 3 && accounts@[0].is_signer
                && accounts@[2].key@ == token_program_id(),
    {
        let sender = match Self::account_at(accounts, STAKE_SENDER) {
            Ok(account) => account,
            Err(_) => {
                return Err(ProgramFault::MissingRequiredSignature);
            },
        };
        if !sender.is_signer {
            return Err(ProgramFault::MissingRequiredSignature);
        }
        let pool = match Self::account_at(accounts, STAKE_POOL) {
            Ok(account) => account,
            Err(fault) => {
                return Err(fault);
            },
        };
        let token_program = match Self::account_at(accounts, STAKE_TOKEN_PROGRAM) {
            Ok(account) => account,
            Err(fault) => {
                return Err(fault);
            },
        };
        match token_transfer(
            &token_program.key,
            &sender.key,
            &pool.key,
            &sender.key,
            &sender.key,
            amount,
        ) {
            Err(_) => Err(ProgramFault::IncorrectProgramId),
            Ok(instruction) => {
                let mut passed: Vec<usize> = Vec::new();
                passed.push(STAKE_SENDER);
                passed.push(STAKE_TOKEN_PROGRAM);
                assert(passed@ == seq![STAKE_SENDER, STAKE_TOKEN_PROGRAM]);
                Ok(Invocation::Direct { instruction, accounts: passed })
            },
        }
    }

    /// Derives the address under which the program pays out rewards.
    ///
    /// The result is a function of `program_id` alone: the same program
    /// has the same address and the same nonce, whenever it asks.
    pub fn find_authority(program_id: &Address) -> (authority: Option<(Address, u8)>)
        ensures
            authority_view(authority) == Self::authority(program_id@),
    {
        find_program_address(AUTHORITY_SEED.as_slice(), program_id)
    }

    /// Handles a claim of `amount`: once receiver, pool and token program
    /// are there, derives the program's address and goes on as
    /// [`Processor::claim_reward_with_authority`] does.
    pub fn process_claim_reward(accounts: &[Account], amount: u64, program_id: &Address) -> (outcome:
        Result<Invocation, ProgramFault>)
        ensures
            outcome_view(outcome) == Self::claim_reward_outcome(
                accounts@,
                amount,
                Self::authority(program_id@),
            ),
            outcome is Ok <==> accounts@.len() >= 4 && Self::authority(program_id@) is Some
                && accounts@[2].key@ == token_program_id(),
    {
        if accounts.len() <= CLAIM_TOKEN_PROGRAM {
            return Err(ProgramFault::NotEnoughAccountKeys);
        }
        let authority = Self::find_authority(program_id);
        Self::claim_reward_with_authority(accounts, amount, authority)
    }

    /// Handles a claim of `amount` for a program whose derived address and
    /// nonce are `authority`.
    pub fn claim_reward_with_authority(
        accounts: &[Account],
        amount: u64,
        authority: Option<(Address, u8)>,
    ) -> (outcome: Result<Invocation, ProgramFault>)
        ensures
            outcome_view(outcome) == Self::claim_reward_outcome(
                accounts@,
                amount,
                authority_view(authority),
            ),
            outcome is Ok <==> accounts@.len() >= 4 && authority is Some
                && accounts@[2].key@ == token_program_id(),
    {
        let receiver = match Self::account_at(accounts, CLAIM_RECEIVER) {
            Ok(account) => account,
            Err(fault) => {
                return Err(fault);
            },
        };
        let token_program = match Self::account_at(accounts, CLAIM_TOKEN_PROGRAM) {
            Ok(account) => account,
            Err(fault) => {
                return Err(fault);
            },
        };
        let (pda, nonce) = match authority {
            Some(found) => found,
            None => {
                return Err(ProgramFault::InvalidSeeds);
            },
        };
        let source = match Self::account_at(accounts, CLAIM_SOURCE) {
            Ok(account) => account,
            Err(fault) => {
                return Err(fault);
            },
        };
        match token_transfer(&token_program.key, &source.key, &receiver.key, &pda, &pda, amount) {
            Err(_) => Err(ProgramFault::IncorrectProgramId),
            Ok(instruction) => {
                let mut passed: Vec<usize> = Vec::new();
                passed.push(CLAIM_SOURCE);
                passed.push(CLAIM_TOKEN_PROGRAM);
                assert(passed@ == seq![CLAIM_SOURCE, CLAIM_TOKEN_PROGRAM]);
                let mut last: Vec<u8> = Vec::new();
                last.push(nonce);
                let mut signer_seeds: Vec<Vec<u8>> = Vec::new();
                signer_seeds.push(slice_to_vec(AUTHORITY_SEED.as_slice()));
                signer_seeds.push(last);
                assert(signer_seeds.deep_view() =~~= seq![AUTHORITY_SEED@, seq![nonce]]);
                Ok(Invocation::Signed { instruction, accounts: passed, signer_seeds })
            },
        }
    }
}

/// Deriving the address of a program is repeatable: whatever two
/// derivations for the same program return, they return the same address
/// and the same nonce, or both return nothing.
pub proof fn lemma_authority_is_repeatable(
    program: Address,
    first: Option<(Address, u8)>,
    second: Option<(Address, u8)>,
)
    requires
        authority_view(first) == Processor::authority(program@),
        authority_view(second) == Processor::authority(program@),
    ensures
        first == second,
{
    if first is Some {
        assert(first->Some_0.0.bytes =~= second->Some_0.0.bytes);
    }
}

/// A stake whose sender is missing or has not signed ends in
/// [`ProgramFault::MissingRequiredSignature`], whatever the amount and the
/// other accounts are: no call is handed to the host.
pub proof fn lemma_unsigned_stake_is_rejected(
    program: Seq<u8>,
    accounts: Seq<Account>,
    data: Seq<u8>,
)
    requires
        BetInstruction::decode(data) is Ok,
        BetInstruction::decode(data)->Ok_0 is Stake,
        accounts.len() == 0 || !accounts[0].is_signer,
    ensures
        Processor::outcome(program, accounts, data) == Err::<InvocationView, ProgramFault>(
            ProgramFault::MissingRequiredSignature,
        ),
{
}

} // verus!
