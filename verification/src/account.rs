//! Addresses, and what the program reads of the accounts it is handed.

use vstd::prelude::*;

verus! {

/// The address of an account or of a program.
///
/// Its view is the sequence of its 32 bytes.
#[derive(Clone, Copy, Debug, PartialEq, Eq)]
pub struct Address {
    pub bytes: [u8; 32],
}

impl View for Address {
    type V = Seq<u8>;

    open spec fn view(&self) -> Seq<u8> {
        self.bytes@
    }
}

impl Address {
    /// The address with the given bytes.
    pub fn new(bytes: [u8; 32]) -> (address: Address)
        ensures
            address@ == bytes@,
            address.bytes == bytes,
    {
        Address { bytes }
    }

    /// The bytes of the address.
    pub fn to_bytes(&self) -> (bytes: [u8; 32])
        ensures
            bytes@ == self@,
            bytes == self.bytes,
    {
        self.bytes
    }
}

/// An account as the host hands it to the program, reduced to what the
/// program reads of it.
///
/// What an account is for follows from its position in the list alone, see
/// [`crate::instruction::BetInstruction`].
#[derive(Clone, Copy, Debug, PartialEq, Eq)]
pub struct Account {
    /// The address of the account.
    pub key: Address,
    /// Whether the host has verified a signature of this account on the
    /// transaction.
    pub is_signer: bool,
}

impl Account {
    /// The account at `key`, signed for or not.
    pub fn new(key: Address, is_signer: bool) -> (account: Account)
        ensures
            account.key == key,
            account.is_signer == is_signer,
    {
        Account { key, is_signer }
    }
}

} // verus!
