//! Ledger identities and the capability that stands for a verified caller.

use vstd::prelude::*;

verus! {

/// The two kinds of identity a ledger knows.
#[derive(Clone, Copy, Debug, PartialEq, Eq, Structural, Hash)]
pub enum AddressKind {
    /// A user account, named by its public key.
    Account,
    /// A deployed contract, named by its hash.
    Contract,
}

/// A ledger identity as this library sees it: a kind and a 256-bit name, held
/// as two 128-bit words, the high word first. The name may be the identity's
/// 32-byte key or any other name that whoever hands addresses to the library
/// gives them, as long as different identities get different names.
///
/// Two addresses are the same identity exactly when all three fields agree.
#[derive(Clone, Copy, Debug, PartialEq, Eq, Structural, Hash)]
pub struct Address {
    pub kind: AddressKind,
    pub hi: u128,
    pub lo: u128,
}

impl Address {
    /// The account with the given name.
    pub fn account(hi: u128, lo: u128) -> (a: Address)
        ensures
            a == (Address { kind: AddressKind::Account, hi, lo }),
    {
        Address { kind: AddressKind::Account, hi, lo }
    }

    /// The contract with the given name.
    pub fn contract(hi: u128, lo: u128) -> (a: Address)
        ensures
            a == (Address { kind: AddressKind::Contract, hi, lo }),
    {
        Address { kind: AddressKind::Contract, hi, lo }
    }

    /// Whether `self` and `other` name the same identity.
    pub fn same_as(&self, other: &Address) -> (same: bool)
        ensures
            same == (*self == *other),
    {
        *self == *other
    }
}

/// Proof that an identity authorised the operation it is handed to.
///
/// A value of this type is made only after the host has checked the actor's
/// authorisation; every operation that acts on behalf of someone takes one and
/// compares the identity inside with the identity it expects.
#[derive(Clone, Copy, Debug)]
pub struct AuthenticatedActor {
    address: Address,
}

impl AuthenticatedActor {
    /// The identity whose authorisation this value stands for.
    pub closed spec fn view(&self) -> Address {
        self.address
    }

    /// Records that `address` has authorised the operation in progress.
    pub fn new(address: Address) -> (actor: AuthenticatedActor)
        ensures
            actor@ == address,
    {
        AuthenticatedActor { address }
    }

    /// The identity that authorised.
    pub fn address(&self) -> (a: Address)
        ensures
            a == self@,
    {
        self.address
    }
}

} // verus!
