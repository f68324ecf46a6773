//! The campaign record and its operations.

use vstd::prelude::*;

use crate::assoc::find_index;
use crate::assoc::lemma_pairs_map_domain;
use crate::assoc::lemma_pairs_map_index;
use crate::assoc::lemma_pairs_map_push;
use crate::assoc::lemma_pairs_map_sum;
use crate::assoc::lemma_pairs_map_update;
use crate::assoc::lemma_pairs_sum_bounds_entry;
use crate::assoc::lemma_pairs_sum_push;
use crate::assoc::lemma_pairs_sum_update;
use crate::assoc::map_sum;
use crate::assoc::pairs_map;
use crate::assoc::pairs_nonneg;
use crate::assoc::pairs_sum;
use crate::assoc::pairs_unique;
use crate::errors::Error;
use crate::ledger::transferred;
use crate::ledger::TokenLedger;
use crate::model::deposit_check;
use crate::model::deposit_of;
use crate::model::deposit_step;
use crate::model::init_check;
use crate::model::init_step;
use crate::model::refund_check;
use crate::model::refund_step;
use crate::model::status_of;
use crate::model::uninitialized_model;
use crate::model::withdraw_check;
use crate::model::withdraw_step;
use crate::model::CampaignModel;

verus! {

/// The names of the campaign record's fields, as the persistent key-value
/// store keys them.  The store itself is a collaborator outside this
/// library; a host that persists the record keys each field by one of
/// these.
#[derive(Clone, Debug, PartialEq, Eq)]
pub enum DataKey {
    /// Campaign owner address.
    Owner,
    /// Target amount to be raised.
    TargetAmount,
    /// Campaign deadline, a ledger sequence number.
    Deadline,
    /// Address of the asset ledger used for deposits.
    TokenAddress,
    /// Total amount currently raised.
    TotalRaised,
    /// Map of contributor addresses to their deposit amounts.
    Deposits,
    /// Whether the campaign has been finalized (funds withdrawn).
    IsFinalized,
}

/// A snapshot of the campaign, as `get_status` reports it.
#[derive(Clone, Copy, Debug, PartialEq, Eq, Structural)]
pub struct CampaignStatus {
    /// Total amount raised so far.
    pub total_raised: i128,
    /// Target amount for the campaign.
    pub target_amount: i128,
    /// Campaign deadline, a ledger sequence number.
    pub deadline: u32,
    /// Whether the target has been reached.
    pub target_reached: bool,
    /// Whether the deadline has passed.
    pub deadline_passed: bool,
    /// Whether funds have been withdrawn.
    pub is_finalized: bool,
}

/// A notification emitted by a mutating operation, for external watchers.
/// The contract never reads these back.
#[derive(Clone, Copy, Debug, PartialEq, Eq, Structural)]
pub enum CampaignEvent {
    /// A deposit was accepted; carries the new raised total.
    Deposit { contributor: u64, amount: i128, total_raised: i128 },
    /// The owner withdrew the whole raised total.
    Withdraw { owner: u64, amount: i128 },
    /// A contributor's whole outstanding deposit was returned.
    Refund { contributor: u64, amount: i128 },
}

/// One crowdfunding campaign instance.
///
/// Addresses — the owner, the asset ledger, the contributors and the
/// instance's own holding address — are plain `u64` identities; logical
/// time is the host's monotonically increasing sequence number, handed in
/// as `now`; the caller's identity is handed in as `caller`, vouched for
/// by the host's authorization capability.
pub struct CrowdfundingContract {
    contract_id: u64,
    initialized: bool,
    owner: u64,
    token: u64,
    target_amount: i128,
    deadline: u32,
    total_raised: i128,
    deposits: Vec<(u64, i128)>,
    is_finalized: bool,
    events: Vec<CampaignEvent>,
}

impl View for CrowdfundingContract {
    type V = CampaignModel;

    closed spec fn view(&self) -> CampaignModel {
        CampaignModel {
            contract_id: self.contract_id,
            initialized: self.initialized,
            owner: self.owner,
            token: self.token,
            target: self.target_amount as int,
            deadline: self.deadline,
            total: self.total_raised as int,
            deposits: pairs_map(self.deposits@),
            finalized: self.is_finalized,
            events: self.events@,
        }
    }
}

impl CrowdfundingContract {
    /// The record's internal consistency: distinct deposit keys holding
    /// non-negative amounts whose sum is the raised total, zeroed fields
    /// before initialization, and a positive target after.
    pub closed spec fn wf(self) -> bool {
        &&& pairs_unique(self.deposits@)
        &&& pairs_nonneg(self.deposits@)
        &&& self.total_raised as int == pairs_sum(self.deposits@)
        &&& self.total_raised >= 0
        &&& !self.initialized ==> {
            &&& self.owner == 0
            &&& self.token == 0
            &&& self.target_amount == 0
            &&& self.deadline == 0
            &&& self.deposits@.len() == 0
            &&& !self.is_finalized
        }
        &&& self.initialized ==> self.target_amount > 0
    }

    /// Deploy a fresh, not yet initialized instance whose own holding
    /// address is `contract_id`.
    pub fn new(contract_id: u64) -> (c: Self)
        ensures
            c.wf(),
            c@ == uninitialized_model(contract_id),
    {
        let c = CrowdfundingContract {
            contract_id,
            initialized: false,
            owner: 0,
            token: 0,
            target_amount: 0,
            deadline: 0,
            total_raised: 0,
            deposits: Vec::new(),
            is_finalized: false,
            events: Vec::new(),
        };
        proof {
            assert(c@ =~= uninitialized_model(contract_id));
        }
        c
    }

    /// Create the campaign record: owner, asset ledger, target and
    /// deadline, with nothing raised and nothing finalized.
    ///
    /// Fails with `AlreadyInitialized` on a second call, `InvalidTarget`
    /// if the target is not strictly positive, `InvalidDeadline` if the
    /// deadline is not strictly in the future, and `Unauthorized` if the
    /// caller is not the owner; a failed call changes nothing.
    pub fn initialize(
        &mut self,
        caller: u64,
        owner: u64,
        token: u64,
        target_amount: i128,
        deadline: u32,
        now: u32,
    ) -> (r: Result<(), Error>)
        requires
            old(self).wf(),
        ensures
            final(self).wf(),
            r == init_check(old(self)@, target_amount, deadline, caller, owner, now),
            r is Ok ==> final(self)@ == init_step(
                old(self)@,
                owner,
                token,
                target_amount,
                deadline,
            ),
            r is Err ==> *final(self) == *old(self),
    {
        if self.initialized {
            return Err(Error::AlreadyInitialized);
        }
        if target_amount <= 0 {
            return Err(Error::InvalidTarget);
        }
        if deadline <= now {
            return Err(Error::InvalidDeadline);
        }
        if caller != owner {
            return Err(Error::Unauthorized);
        }
        self.owner = owner;
        self.token = token;
        self.target_amount = target_amount;
        self.deadline = deadline;
        self.total_raised = 0;
        self.is_finalized = false;
        self.deposits = Vec::new();
        self.initialized = true;
        proof {
            assert(self@ =~= init_step(old(self)@, owner, token, target_amount, deadline));
        }
        Ok(())
    }

    /// Accept a deposit of `amount` from `contributor`, moving the funds
    /// into the contract's own holding address through `ledger` before
    /// any bookkeeping, so that a refused transfer leaves the record
    /// byte-for-byte unchanged.
    ///
    /// The caller must be the contributor, the amount strictly positive,
    /// the campaign initialized, not finalized, and `now` strictly before
    /// the deadline; otherwise the matching error is returned and nothing
    /// changes, the ledger included.  When every check passes, the call
    /// succeeds exactly when the ledger lets `amount` move from the
    /// contributor to the contract's holding address; then that amount
    /// has moved and the raised total and the contributor's recorded
    /// deposit both grow by it, while a refused transfer yields
    /// `TransferFailed` with every balance and field as it was.
    pub fn deposit<L: TokenLedger>(
        &mut self,
        ledger: &mut L,
        caller: u64,
        contributor: u64,
        amount: i128,
        now: u32,
    ) -> (r: Result<(), Error>)
        requires
            old(self).wf(),
            old(ledger).inv(),
            deposit_check(old(self)@, caller, contributor, amount, now) is Ok ==> old(self)@.total
                + amount <= i128::MAX,
        ensures
            final(self).wf(),
            final(ledger).inv(),
            deposit_check(old(self)@, caller, contributor, amount, now) is Err ==> r
                == deposit_check(old(self)@, caller, contributor, amount, now) && *final(self)
                == *old(self) && *final(ledger) == *old(ledger),
            deposit_check(old(self)@, caller, contributor, amount, now) is Ok ==> (r == Ok::<
                (),
                Error,
            >(()) <==> old(ledger).can_transfer(contributor, old(self)@.contract_id, amount)),
            deposit_check(old(self)@, caller, contributor, amount, now) is Ok ==> ((r == Ok::<
                (),
                Error,
            >(()) && final(self)@ == deposit_step(old(self)@, contributor, amount)) || (r
                == Err::<(), Error>(Error::TransferFailed) && *final(self) == *old(self))),
            r is Ok ==> final(ledger).balances() == transferred(
                old(ledger).balances(),
                contributor,
                old(self)@.contract_id,
                amount,
            ),
            r is Err ==> *final(self) == *old(self) && final(ledger).balances() == old(
                ledger,
            ).balances(),
    {
        if caller != contributor {
            return Err(Error::Unauthorized);
        }
        if amount <= 0 {
            return Err(Error::InvalidAmount);
        }
        if self.is_finalized {
            return Err(Error::CampaignFinalized);
        }
        if !self.initialized {
            return Err(Error::Uninitialized);
        }
        if now >= self.deadline {
            return Err(Error::DeadlinePassed);
        }
        match ledger.transfer(contributor, self.contract_id, amount) {
            Err(_) => {
                return Err(Error::TransferFailed);
            },
            Ok(_) => {},
        }
        self.total_raised = self.total_raised + amount;
        match find_index(&self.deposits, contributor) {
            Some(i) => {
                proof {
                    lemma_pairs_map_index(self.deposits@, i as int);
                    lemma_pairs_sum_bounds_entry(self.deposits@, i as int);
                }
                let current = self.deposits[i].1;
                let updated = current + amount;
                proof {
                    lemma_pairs_map_update(self.deposits@, i as int, updated);
                    lemma_pairs_sum_update(self.deposits@, i as int, updated);
                }
                self.deposits[i] = (contributor, updated);
            },
            None => {
                proof {
                    lemma_pairs_map_domain(self.deposits@, contributor);
                    lemma_pairs_map_push(self.deposits@, contributor, amount);
                    lemma_pairs_sum_push(self.deposits@, contributor, amount);
                }
                self.deposits.push((contributor, amount));
            },
        }
        self.events.push(
            CampaignEvent::Deposit { contributor, amount, total_raised: self.total_raised },
        );
        proof {
            assert(self@ =~= deposit_step(old(self)@, contributor, amount));
        }
        Ok(())
    }

    /// Release the whole raised total to the owner of a successful
    /// campaign and finalize it, transferring through `ledger` before the
    /// record is touched.
    ///
    /// The caller must be the owner, the campaign initialized, not yet
    /// finalized, `now` at or past the deadline, and the raised total at
    /// least the target; otherwise the matching error is returned and
    /// nothing changes, the ledger included.  When every check passes,
    /// the call succeeds exactly when the ledger lets the whole raised
    /// total move from the contract's holding address to the owner; then
    /// that amount has moved, while a refused transfer yields
    /// `TransferFailed` with every balance and field as it was.  The
    /// raised total is kept unchanged as the historical amount;
    /// `is_finalized` is the sole success marker.
    pub fn withdraw<L: TokenLedger>(
        &mut self,
        ledger: &mut L,
        caller: u64,
        now: u32,
    ) -> (r: Result<(), Error>)
        requires
            old(self).wf(),
            old(ledger).inv(),
        ensures
            final(self).wf(),
            final(ledger).inv(),
            withdraw_check(old(self)@, caller, now) is Err ==> r == withdraw_check(
                old(self)@,
                caller,
                now,
            ) && *final(self) == *old(self) && *final(ledger) == *old(ledger),
            withdraw_check(old(self)@, caller, now) is Ok ==> (r == Ok::<(), Error>(()) <==> old(
                ledger,
            ).can_transfer(old(self)@.contract_id, old(self)@.owner, old(self)@.total as i128)),
            withdraw_check(old(self)@, caller, now) is Ok ==> ((r == Ok::<(), Error>(())
                && final(self)@ == withdraw_step(old(self)@)) || (r == Err::<(), Error>(
                Error::TransferFailed,
            ) && *final(self) == *old(self))),
            r is Ok ==> final(ledger).balances() == transferred(
                old(ledger).balances(),
                old(self)@.contract_id,
                old(self)@.owner,
                old(self)@.total as i128,
            ),
            r is Err ==> *final(self) == *old(self) && final(ledger).balances() == old(
                ledger,
            ).balances(),
    {
        if !self.initialized {
            return Err(Error::Uninitialized);
        }
        if caller != self.owner {
            return Err(Error::Unauthorized);
        }
        if self.is_finalized {
            return Err(Error::AlreadyFinalized);
        }
        if now < self.deadline {
            return Err(Error::DeadlineNotReached);
        }
        if self.total_raised < self.target_amount {
            return Err(Error::TargetNotReached);
        }
        match ledger.transfer(self.contract_id, self.owner, self.total_raised) {
            Err(_) => {
                return Err(Error::TransferFailed);
            },
            Ok(_) => {},
        }
        self.is_finalized = true;
        self.events.push(CampaignEvent::Withdraw { owner: self.owner, amount: self.total_raised });
        proof {
            assert(self@ =~= withdraw_step(old(self)@));
        }
        Ok(())
    }

    /// Return a contributor's whole outstanding deposit after a failed
    /// campaign, transferring through `ledger` before the record is
    /// touched.  The entry is zeroed — kept, not removed — so a repeat
    /// attempt fails deterministically with `NoDeposit`.
    ///
    /// The caller must be the contributor, the campaign initialized, not
    /// finalized, `now` at or past the deadline, the raised total
    /// strictly below the target, and the recorded deposit strictly
    /// positive; otherwise the matching error is returned and nothing
    /// changes, the ledger included.  When every check passes, the call
    /// succeeds exactly when the ledger lets the whole recorded deposit
    /// move from the contract's holding address back to the contributor;
    /// then that amount has moved, while a refused transfer yields
    /// `TransferFailed` with every balance and field as it was.
    pub fn refund<L: TokenLedger>(
        &mut self,
        ledger: &mut L,
        caller: u64,
        contributor: u64,
        now: u32,
    ) -> (r: Result<(), Error>)
        requires
            old(self).wf(),
            old(ledger).inv(),
        ensures
            final(self).wf(),
            final(ledger).inv(),
            refund_check(old(self)@, caller, contributor, now) is Err ==> r == refund_check(
                old(self)@,
                caller,
                contributor,
                now,
            ) && *final(self) == *old(self) && *final(ledger) == *old(ledger),
            refund_check(old(self)@, caller, contributor, now) is Ok ==> (r == Ok::<(), Error>(())
                <==> old(ledger).can_transfer(
                old(self)@.contract_id,
                contributor,
                deposit_of(old(self)@, contributor) as i128,
            )),
            refund_check(old(self)@, caller, contributor, now) is Ok ==> ((r == Ok::<(), Error>(())
                && final(self)@ == refund_step(old(self)@, contributor)) || (r == Err::<(), Error>(
                Error::TransferFailed,
            ) && *final(self) == *old(self))),
            r is Ok ==> final(ledger).balances() == transferred(
                old(ledger).balances(),
                old(self)@.contract_id,
                contributor,
                deposit_of(old(self)@, contributor) as i128,
            ),
            r is Err ==> *final(self) == *old(self) && final(ledger).balances() == old(
                ledger,
            ).balances(),
    {
        if caller != contributor {
            return Err(Error::Unauthorized);
        }
        if self.is_finalized {
            return Err(Error::CampaignFinalized);
        }
        if !self.initialized {
            return Err(Error::Uninitialized);
        }
        if now < self.deadline {
            return Err(Error::DeadlineNotReached);
        }
        if self.total_raised >= self.target_amount {
            return Err(Error::CampaignSucceeded);
        }
        let i = match find_index(&self.deposits, contributor) {
            Some(i) => i,
            None => {
                proof {
                    lemma_pairs_map_domain(self.deposits@, contributor);
                }
                return Err(Error::NoDeposit);
            },
        };
        proof {
            lemma_pairs_map_index(self.deposits@, i as int);
        }
        let deposit_amount = self.deposits[i].1;
        if deposit_amount <= 0 {
            return Err(Error::NoDeposit);
        }
        match ledger.transfer(self.contract_id, contributor, deposit_amount) {
            Err(_) => {
                return Err(Error::TransferFailed);
            },
            Ok(_) => {},
        }
        proof {
            lemma_pairs_sum_bounds_entry(self.deposits@, i as int);
            lemma_pairs_map_update(self.deposits@, i as int, 0);
            lemma_pairs_sum_update(self.deposits@, i as int, 0);
        }
        self.deposits[i] = (contributor, 0);
        self.total_raised = self.total_raised - deposit_amount;
        self.events.push(CampaignEvent::Refund { contributor, amount: deposit_amount });
        proof {
            assert(self@ =~= refund_step(old(self)@, contributor));
        }
        Ok(())
    }

    /// The current status of the campaign, read at logical time `now`.
    ///
    /// Read-only and unauthenticated.  Before initialization it reports
    /// the zero defaults of every field rather than failing, so the
    /// derived flags then read `target_reached == (0 >= 0)` and
    /// `deadline_passed == (now >= 0)` — a deliberate soft-default kept
    /// for existing callers.
    pub fn get_status(&self, now: u32) -> (r: CampaignStatus)
        ensures
            r == status_of(self@, now),
    {
        CampaignStatus {
            total_raised: self.total_raised,
            target_amount: self.target_amount,
            deadline: self.deadline,
            target_reached: self.total_raised >= self.target_amount,
            deadline_passed: now >= self.deadline,
            is_finalized: self.is_finalized,
        }
    }

    /// The contributor's current outstanding deposit, or zero if none was
    /// ever recorded.  Read-only and unauthenticated.
    pub fn get_deposit(&self, contributor: u64) -> (r: i128)
        requires
            self.wf(),
        ensures
            r as int == deposit_of(self@, contributor),
    {
        match find_index(&self.deposits, contributor) {
            Some(i) => {
                proof {
                    lemma_pairs_map_index(self.deposits@, i as int);
                }
                self.deposits[i].1
            },
            None => {
                proof {
                    lemma_pairs_map_domain(self.deposits@, contributor);
                }
                0
            },
        }
    }

    /// The raised total equals the sum over all contributors of their
    /// outstanding deposits.  Every well-formed record satisfies it, and
    /// every operation above both demands and returns a well-formed
    /// record, so it holds throughout a campaign's life.
    pub proof fn lemma_total_is_deposit_sum(self)
        requires
            self.wf(),
        ensures
            self@.deposits.dom().finite(),
            self@.total == map_sum(self@.deposits),
    {
        lemma_pairs_map_sum(self.deposits@);
    }

    /// What else every well-formed record guarantees of its model: the
    /// raised total and every recorded deposit are non-negative, an
    /// initialized campaign has a positive target, only an initialized
    /// one can be finalized, and before initialization every field holds
    /// its zero default with an empty deposit table.
    pub proof fn lemma_record_invariants(self)
        requires
            self.wf(),
        ensures
            self@.total >= 0,
            forall|contributor: u64| #[trigger] deposit_of(self@, contributor) >= 0,
            self@.initialized ==> self@.target > 0,
            self@.finalized ==> self@.initialized,
            !self@.initialized ==> self@.owner == 0 && self@.token == 0 && self@.target == 0
                && self@.deadline == 0 && self@.total == 0 && self@.deposits == Map::<
                u64,
                int,
            >::empty() && !self@.finalized,
    {
        assert forall|contributor: u64| #[trigger] deposit_of(self@, contributor) >= 0 by {
            if pairs_map(self.deposits@).contains_key(contributor) {
                lemma_pairs_map_domain(self.deposits@, contributor);
                let i = choose|i: int|
                    0 <= i < self.deposits@.len() && self.deposits@[i].0 == contributor;
                lemma_pairs_map_index(self.deposits@, i);
            }
        }
        if !self.initialized {
            assert(pairs_map(self.deposits@) =~= Map::<u64, int>::empty());
        }
    }

    /// Every notification emitted so far, oldest first.
    pub fn events(&self) -> (r: &Vec<CampaignEvent>)
        ensures
            r@ == self@.events,
    {
        &self.events
    }

    /// The instance's own holding address, fixed at deployment.
    pub fn contract_id(&self) -> (r: u64)
        ensures
            r == self@.contract_id,
    {
        self.contract_id
    }
}

} // verus!
