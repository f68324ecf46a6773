//! The asset-ledger collaborator that moves the pledged funds.
//!
//! The campaign does not move funds itself: it asks an injected ledger to
//! transfer them, and the ledger alone decides whether the transfer goes
//! through.  [`TokenLedger`] is that capability; [`InMemoryLedger`] is a
//! verified in-memory implementation for tests and local runs, able to
//! simulate insufficient-balance failures without a real asset ledger.

use vstd::prelude::*;

use crate::assoc::find_index;
use crate::assoc::lemma_pairs_map_domain;
use crate::assoc::lemma_pairs_map_index;
use crate::assoc::lemma_pairs_map_push;
use crate::assoc::lemma_pairs_map_update;
use crate::assoc::map_get_or_zero;
use crate::assoc::pairs_map;
use crate::assoc::pairs_nonneg;
use crate::assoc::pairs_unique;

verus! {

/// The ledger refused to move the funds; nothing was transferred.
#[derive(Clone, Copy, Debug, PartialEq, Eq, Structural)]
pub struct TransferError;

/// The balances after `amount` has moved from `from` to `to`; a transfer
/// to oneself moves nothing.
pub open spec fn transferred(
    balances: Map<u64, int>,
    from: u64,
    to: u64,
    amount: i128,
) -> Map<u64, int> {
    if from == to {
        balances
    } else {
        balances.insert(from, map_get_or_zero(balances, from) - amount).insert(
            to,
            map_get_or_zero(balances, to) + amount,
        )
    }
}

/// A ledger of a fungible asset, as the campaign sees one.
///
/// A transfer either moves the whole amount or fails atomically: it
/// succeeds exactly when the ledger is able and willing — its own
/// `can_transfer` condition — and then the two balances move by `amount`,
/// while a refused transfer leaves every balance as it was.
pub trait TokenLedger {
    /// The ledger's own consistency condition, preserved by every
    /// transfer.
    spec fn inv(&self) -> bool;

    /// Each address's balance of the asset.
    spec fn balances(&self) -> Map<u64, int>;

    /// Whether the ledger would let `amount` move from `from` to `to` in
    /// its current state.
    spec fn can_transfer(&self, from: u64, to: u64, amount: i128) -> bool;

    /// Move `amount` of the asset from `from` to `to`, entirely or not at
    /// all.
    fn transfer(&mut self, from: u64, to: u64, amount: i128) -> (r: Result<(), TransferError>)
        requires
            old(self).inv(),
        ensures
            final(self).inv(),
            r is Ok <==> old(self).can_transfer(from, to, amount),
            r is Ok ==> final(self).balances() == transferred(
                old(self).balances(),
                from,
                to,
                amount,
            ),
            r is Err ==> final(self).balances() == old(self).balances(),
    ;
}

/// An in-memory asset ledger: each address's balance, kept as an
/// association list with distinct keys and non-negative amounts.
pub struct InMemoryLedger {
    balances: Vec<(u64, i128)>,
}

impl View for InMemoryLedger {
    type V = Map<u64, int>;

    closed spec fn view(&self) -> Map<u64, int> {
        pairs_map(self.balances@)
    }
}

impl InMemoryLedger {
    /// Distinct keys holding non-negative balances.
    pub closed spec fn wf(self) -> bool {
        &&& pairs_unique(self.balances@)
        &&& pairs_nonneg(self.balances@)
    }

    /// The balance held by `who`, or zero if never funded.
    pub open spec fn balance(self, who: u64) -> int {
        map_get_or_zero(self@, who)
    }

    /// An empty ledger: every balance is zero.
    pub fn new() -> (l: Self)
        ensures
            l.wf(),
            l@ == Map::<u64, int>::empty(),
    {
        InMemoryLedger { balances: Vec::new() }
    }

    /// Set the balance of `who` to `amount`, creating the account if
    /// needed.
    pub fn set_balance(&mut self, who: u64, amount: i128)
        requires
            old(self).wf(),
            amount >= 0,
        ensures
            final(self).wf(),
            final(self)@ == old(self)@.insert(who, amount as int),
    {
        match find_index(&self.balances, who) {
            Some(i) => {
                proof {
                    lemma_pairs_map_update(self.balances@, i as int, amount);
                }
                self.balances[i] = (who, amount);
            },
            None => {
                proof {
                    lemma_pairs_map_push(self.balances@, who, amount);
                }
                self.balances.push((who, amount));
            },
        }
    }

    /// The balance held by `who`, or zero if never funded.
    pub fn balance_of(&self, who: u64) -> (r: i128)
        requires
            self.wf(),
        ensures
            r as int == self.balance(who),
    {
        match find_index(&self.balances, who) {
            Some(i) => {
                proof {
                    lemma_pairs_map_index(self.balances@, i as int);
                }
                self.balances[i].1
            },
            None => {
                proof {
                    lemma_pairs_map_domain(self.balances@, who);
                }
                0
            },
        }
    }

    /// Move `amount` from `from` to `to`.  The transfer goes through
    /// exactly when the amount is positive, `from` holds at least that
    /// much, and crediting `to` stays within range; otherwise nothing
    /// changes.
    fn do_transfer(&mut self, from: u64, to: u64, amount: i128) -> (r: Result<(), TransferError>)
        requires
            old(self).wf(),
        ensures
            final(self).wf(),
            r is Ok <==> {
                &&& amount > 0
                &&& old(self).balance(from) >= amount
                &&& (from == to || old(self).balance(to) + amount <= i128::MAX)
            },
            r is Ok && from != to ==> final(self)@ == old(self)@.insert(
                from,
                old(self).balance(from) - amount,
            ).insert(to, old(self).balance(to) + amount),
            r is Ok && from == to ==> *final(self) == *old(self),
            r is Err ==> *final(self) == *old(self),
    {
        if amount <= 0 {
            return Err(TransferError);
        }
        let from_pos = find_index(&self.balances, from);
        match from_pos {
            None => {
                proof {
                    lemma_pairs_map_domain(self.balances@, from);
                }
                Err(TransferError)
            },
            Some(i) => {
                let from_balance = self.balances[i].1;
                proof {
                    lemma_pairs_map_index(self.balances@, i as int);
                }
                if from_balance < amount {
                    return Err(TransferError);
                }
                if from == to {
                    return Ok(());
                }
                let to_pos = find_index(&self.balances, to);
                let to_balance = match to_pos {
                    Some(j) => {
                        proof {
                            lemma_pairs_map_index(self.balances@, j as int);
                        }
                        self.balances[j].1
                    },
                    None => {
                        proof {
                            lemma_pairs_map_domain(self.balances@, to);
                        }
                        0
                    },
                };
                if to_balance > i128::MAX - amount {
                    return Err(TransferError);
                }
                let new_from = from_balance - amount;
                let new_to = to_balance + amount;
                proof {
                    lemma_pairs_map_update(self.balances@, i as int, new_from);
                }
                self.balances[i] = (from, new_from);
                match to_pos {
                    Some(j) => {
                        proof {
                            assert(self.balances@[j as int] == (to, to_balance));
                            lemma_pairs_map_update(self.balances@, j as int, new_to);
                        }
                        self.balances[j] = (to, new_to);
                    },
                    None => {
                        proof {
                            lemma_pairs_map_push(self.balances@, to, new_to);
                        }
                        self.balances.push((to, new_to));
                    },
                }
                Ok(())
            },
        }
    }
}

impl TokenLedger for InMemoryLedger {
    open spec fn inv(&self) -> bool {
        self.wf()
    }

    open spec fn balances(&self) -> Map<u64, int> {
        self@
    }

    open spec fn can_transfer(&self, from: u64, to: u64, amount: i128) -> bool {
        &&& amount > 0
        &&& self.balance(from) >= amount
        &&& (from == to || self.balance(to) + amount <= i128::MAX)
    }

    fn transfer(&mut self, from: u64, to: u64, amount: i128) -> (r: Result<(), TransferError>) {
        self.do_transfer(from, to, amount)
    }
}

} // verus!
