//! The custody ledger of one challenge's pooled stakes.
//!
//! Stakes come in through [`EscrowVault::deposit`], which only joining uses.
//! They leave only through [`EscrowVault::withdraw`], which asks for a
//! [`SettlementAuthority`]: no code outside this crate can make one, and the
//! crate makes one only on the settlement path.

use vstd::prelude::*;

verus! {

/// The balance held in escrow for one challenge.
#[derive(Clone, Copy, Debug)]
pub struct EscrowVault {
    balance: u64,
}

impl View for EscrowVault {
    type V = u64;

    closed spec fn view(&self) -> u64 {
        self.balance
    }
}

/// Proof that a withdrawal runs on a settlement path: its field is private,
/// so only this crate can make one.
pub struct SettlementAuthority {
    #[allow(dead_code)]
    sealed: (),
}

impl SettlementAuthority {
    pub(crate) fn issue() -> (r: SettlementAuthority) {
        SettlementAuthority { sealed: () }
    }
}

/// Who an outbound movement pays.
#[derive(Clone, Copy, Debug, PartialEq, Eq, Structural)]
pub enum Payee {
    /// The winner recorded at settlement.
    Winner,
    /// The operator, who takes the platform fee.
    Platform,
}

/// One outbound movement of escrowed funds, for the asset mover to carry out
/// to the payee's account in the challenge's denomination.
#[derive(Clone, Copy, Debug)]
pub struct Outflow {
    pub payee: Payee,
    pub amount: u64,
}

impl EscrowVault {
    /// An empty vault, as paired with a new challenge.
    pub fn new() -> (r: EscrowVault)
        ensures
            r@ == 0,
    {
        EscrowVault { balance: 0 }
    }

    /// The vault as it stands with `balance` in custody.
    pub fn holding(balance: u64) -> (r: EscrowVault)
        ensures
            r@ == balance,
    {
        EscrowVault { balance }
    }

    /// The amount in custody.
    pub fn balance(&self) -> (r: u64)
        ensures
            r == self@,
    {
        self.balance
    }

    pub(crate) fn deposit(&mut self, amount: u64)
        requires
            old(self)@ + amount <= u64::MAX,
        ensures
            final(self)@ == old(self)@ + amount,
    {
        self.balance = self.balance + amount;
    }

    /// Releases `amount` to `payee`, on the authority of a settlement.
    pub fn withdraw(&mut self, _authority: &SettlementAuthority, payee: Payee, amount: u64) -> (r: Outflow)
        requires
            amount <= old(self)@,
        ensures
            final(self)@ == old(self)@ - amount,
            r.payee == payee,
            r.amount == amount,
    {
        self.balance = self.balance - amount;
        Outflow { payee, amount }
    }
}

} // verus!
