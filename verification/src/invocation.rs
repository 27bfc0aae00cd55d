//! The call into another program that the host is asked to make.

use vstd::prelude::*;
use crate::account::Address;

verus! {

/// An account as an instruction names it.
#[derive(Clone, Copy, Debug, PartialEq, Eq)]
pub struct AccountMeta {
    /// The address of the account.
    pub key: Address,
    /// Whether the instruction needs a signature of the account.
    pub is_signer: bool,
    /// Whether the instruction may change the account.
    pub is_writable: bool,
}

/// The view of an [`AccountMeta`]: the same, with the address as its bytes.
pub struct AccountMetaView {
    pub key: Seq<u8>,
    pub is_signer: bool,
    pub is_writable: bool,
}

impl View for AccountMeta {
    type V = AccountMetaView;

    open spec fn view(&self) -> AccountMetaView {
        AccountMetaView { key: self.key@, is_signer: self.is_signer, is_writable: self.is_writable }
    }
}

impl AccountMeta {
    /// The account at `key` with the given marks.
    pub fn new(key: Address, is_signer: bool, is_writable: bool) -> (meta: AccountMeta)
        ensures
            meta.key == key,
            meta.is_signer == is_signer,
            meta.is_writable == is_writable,
    {
        AccountMeta { key, is_signer, is_writable }
    }
}

/// An instruction for another program.
#[derive(Debug, PartialEq, Eq)]
pub struct Instruction {
    /// The program that is to execute the instruction.
    pub program: Address,
    /// The accounts that the instruction works on, in the order in which the
    /// program expects them.
    pub accounts: Vec<AccountMeta>,
    /// The instruction in the wire format of that program.
    pub data: Vec<u8>,
}

/// The view of an [`Instruction`].
pub struct InstructionView {
    pub program: Seq<u8>,
    pub accounts: Seq<AccountMetaView>,
    pub data: Seq<u8>,
}

impl View for Instruction {
    type V = InstructionView;

    open spec fn view(&self) -> InstructionView {
        InstructionView {
            program: self.program@,
            accounts: self.accounts@.map_values(|meta: AccountMeta| meta@),
            data: self.data@,
        }
    }
}

/// A cross-program call, ready for the host.
///
/// `accounts` holds positions in the account list that the program was
/// called with: the accounts that the host is to pass on, in this order.
#[derive(Debug, PartialEq, Eq)]
pub enum Invocation {
    /// A call that the signatures on the transaction authorize.
    Direct { instruction: Instruction, accounts: Vec<usize> },
    /// A call that is authorized by a program-derived address. From
    /// `signer_seeds`, the seed followed by the nonce, the host derives that
    /// address again and takes the call as signed by it.
    Signed { instruction: Instruction, accounts: Vec<usize>, signer_seeds: Vec<Vec<u8>> },
}

/// The view of an [`Invocation`].
pub enum InvocationView {
    Direct { instruction: InstructionView, accounts: Seq<usize> },
    Signed { instruction: InstructionView, accounts: Seq<usize>, signer_seeds: Seq<Seq<u8>> },
}

impl View for Invocation {
    type V = InvocationView;

    open spec fn view(&self) -> InvocationView {
        match self {
            Invocation::Direct { instruction, accounts } => InvocationView::Direct {
                instruction: instruction@,
                accounts: accounts@,
            },
            Invocation::Signed { instruction, accounts, signer_seeds } => InvocationView::Signed {
                instruction: instruction@,
                accounts: accounts@,
                signer_seeds: signer_seeds.deep_view(),
            },
        }
    }
}

} // verus!
