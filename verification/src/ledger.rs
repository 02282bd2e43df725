//! The player's ledger: what is available to play with, and the running
//! totals of what was deposited, won and spent.
//!
//! Every debit is checked before it is applied, so the available balance
//! never goes below zero, and a refused movement changes nothing.

use crate::amount::{
    saturating_add_attos,
    saturating_sub_attos,
    spec_saturating_add,
    spec_saturating_sub,
};
use crate::errors::BalanceError;
use vstd::prelude::*;

verus! {

/// The ledger of one player, in atto-units.
#[derive(Debug, Clone, Copy, PartialEq, Eq, Structural)]
pub struct PlayerBalance {
    /// What can be staked, spent on rolls or withdrawn.
    pub available_atto: u128,
    /// Everything ever deposited.
    pub total_deposited_atto: u128,
    /// Everything ever paid out as a prize.
    pub total_won_atto: u128,
    /// Everything ever charged as a stake or a roll fee.
    pub total_spent_atto: u128,
}

impl PlayerBalance {
    /// The ledger after a deposit of a positive `amount`.
    pub open spec fn spec_deposited(self, amount: u128) -> PlayerBalance {
        PlayerBalance {
            available_atto: spec_saturating_add(self.available_atto, amount),
            total_deposited_atto: spec_saturating_add(self.total_deposited_atto, amount),
            ..self
        }
    }

    /// The ledger after a withdrawal of an `amount` that is available.
    pub open spec fn spec_withdrawn(self, amount: u128) -> PlayerBalance {
        PlayerBalance { available_atto: spec_saturating_sub(self.available_atto, amount), ..self }
    }

    /// The ledger after a charge of a `fee` that is available.
    pub open spec fn spec_charged(self, fee: u128) -> PlayerBalance {
        PlayerBalance {
            available_atto: spec_saturating_sub(self.available_atto, fee),
            total_spent_atto: spec_saturating_add(self.total_spent_atto, fee),
            ..self
        }
    }

    /// The ledger after a payout of `amount`.
    pub open spec fn spec_credited(self, amount: u128) -> PlayerBalance {
        PlayerBalance {
            available_atto: spec_saturating_add(self.available_atto, amount),
            total_won_atto: spec_saturating_add(self.total_won_atto, amount),
            ..self
        }
    }

    /// The failure of a debit of `amount`, if it fails: the amount is more
    /// than what is available.
    pub open spec fn spec_debit_error(self, amount: u128) -> Option<BalanceError> {
        if amount > self.available_atto {
            Some(
                BalanceError::InsufficientBalance {
                    available: self.available_atto,
                    requested: amount,
                },
            )
        } else {
            None
        }
    }

    /// The running totals of `self` are at least those of `earlier`.
    pub open spec fn totals_not_below(self, earlier: PlayerBalance) -> bool {
        &&& self.total_deposited_atto >= earlier.total_deposited_atto
        &&& self.total_won_atto >= earlier.total_won_atto
        &&& self.total_spent_atto >= earlier.total_spent_atto
    }

    /// An empty ledger.
    pub fn new() -> (ledger: PlayerBalance)
        ensures
            ledger == (PlayerBalance {
                available_atto: 0,
                total_deposited_atto: 0,
                total_won_atto: 0,
                total_spent_atto: 0,
            }),
    {
        PlayerBalance {
            available_atto: 0,
            total_deposited_atto: 0,
            total_won_atto: 0,
            total_spent_atto: 0,
        }
    }

    /// Adds `amount` to the available balance and to the total deposited,
    /// both clamped at the largest amount, and returns the new available
    /// balance. A deposit of nothing is refused.
    pub fn deposit(&mut self, amount: u128) -> (result: Result<u128, BalanceError>)
        ensures
            amount == 0 ==> result == Err::<u128, BalanceError>(BalanceError::ZeroAmount)
                && *final(self) == *old(self),
            amount != 0 ==> *final(self) == old(self).spec_deposited(amount) && result == Ok::<
                u128,
                BalanceError,
            >(final(self).available_atto),
            final(self).totals_not_below(*old(self)),
    {
        if amount == 0 {
            return Err(BalanceError::ZeroAmount);
        }
        self.available_atto = saturating_add_attos(self.available_atto, amount);
        self.total_deposited_atto = saturating_add_attos(self.total_deposited_atto, amount);
        Ok(self.available_atto)
    }

    /// Takes `amount` from the available balance and returns what remains.
    /// An amount larger than the available balance is refused.
    pub fn withdraw(&mut self, amount: u128) -> (result: Result<u128, BalanceError>)
        ensures
            match old(self).spec_debit_error(amount) {
                Some(error) => result == Err::<u128, BalanceError>(error) && *final(self) == *old(
                    self,
                ),
                None => *final(self) == old(self).spec_withdrawn(amount) && result == Ok::<
                    u128,
                    BalanceError,
                >(final(self).available_atto) && final(self).available_atto == old(
                    self,
                ).available_atto - amount,
            },
            final(self).totals_not_below(*old(self)),
    {
        if amount > self.available_atto {
            return Err(
                BalanceError::InsufficientBalance {
                    available: self.available_atto,
                    requested: amount,
                },
            );
        }
        self.available_atto = saturating_sub_attos(self.available_atto, amount);
        Ok(self.available_atto)
    }

    /// Charges `fee` against the available balance and adds it to the total
    /// spent. A fee larger than the available balance is refused, and then
    /// nothing changes.
    pub fn charge_fee(&mut self, fee: u128) -> (result: Result<(), BalanceError>)
        ensures
            match old(self).spec_debit_error(fee) {
                Some(error) => result == Err::<(), BalanceError>(error) && *final(self) == *old(
                    self,
                ),
                None => result == Ok::<(), BalanceError>(()) && *final(self) == old(
                    self,
                ).spec_charged(fee) && final(self).available_atto == old(self).available_atto
                    - fee,
            },
            final(self).totals_not_below(*old(self)),
    {
        if fee > self.available_atto {
            return Err(
                BalanceError::InsufficientBalance {
                    available: self.available_atto,
                    requested: fee,
                },
            );
        }
        self.available_atto = saturating_sub_attos(self.available_atto, fee);
        self.total_spent_atto = saturating_add_attos(self.total_spent_atto, fee);
        Ok(())
    }

    /// Adds a payout to the available balance and to the total won, both
    /// clamped at the largest amount, and returns the new available balance.
    pub fn credit_payout(&mut self, amount: u128) -> (available: u128)
        ensures
            *final(self) == old(self).spec_credited(amount),
            available == final(self).available_atto,
            final(self).totals_not_below(*old(self)),
    {
        self.available_atto = saturating_add_attos(self.available_atto, amount);
        self.total_won_atto = saturating_add_attos(self.total_won_atto, amount);
        self.available_atto
    }
}

impl Default for PlayerBalance {
    /// An empty ledger.
    fn default() -> (ledger: PlayerBalance)
        ensures
            ledger == (PlayerBalance {
                available_atto: 0,
                total_deposited_atto: 0,
                total_won_atto: 0,
                total_spent_atto: 0,
            }),
    {
        PlayerBalance::new()
    }
}

} // verus!
