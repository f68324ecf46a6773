//! The mathematical model of the campaign record.
//!
//! [`CampaignModel`] is the ghost reading of a [`crate::CrowdfundingContract`]:
//! amounts as unbounded integers and the deposit table as a map.  Each
//! operation of the contract is described here twice — a *check* that maps
//! a state and a request to the error the operation raises, if any, and a
//! *step* that maps a state to the state after a successful call.  The
//! executable operations promise in their contracts to return exactly what
//! the check says and, on success, to land exactly on the stepped state.

use vstd::prelude::*;

use crate::campaign::CampaignEvent;
use crate::campaign::CampaignStatus;
use crate::errors::Error;

verus! {

/// The abstract state of one campaign instance.
#[verifier::ext_equal]
pub ghost struct CampaignModel {
    /// The holding address of the contract instance itself.
    pub contract_id: u64,
    /// Whether `initialize` has run; no other field is meaningful before.
    pub initialized: bool,
    /// The address entitled to withdraw on success.
    pub owner: u64,
    /// The address of the asset ledger used for all transfers.
    pub token: u64,
    /// The minimum total that must be raised for the campaign to succeed.
    pub target: int,
    /// The logical time at which the campaign closes to deposits.
    pub deadline: u32,
    /// The sum of all outstanding deposits.
    pub total: int,
    /// Each contributor's outstanding deposit; refunds zero the entry.
    pub deposits: Map<u64, int>,
    /// True exactly once a withdrawal has succeeded; never reset.
    pub finalized: bool,
    /// Every notification emitted so far, oldest first.
    pub events: Seq<CampaignEvent>,
}

/// The state of a freshly deployed, not yet initialized instance.
pub open spec fn uninitialized_model(contract_id: u64) -> CampaignModel {
    CampaignModel {
        contract_id,
        initialized: false,
        owner: 0,
        token: 0,
        target: 0,
        deadline: 0,
        total: 0,
        deposits: Map::empty(),
        finalized: false,
        events: Seq::empty(),
    }
}

/// The contributor's outstanding deposit, or zero if never recorded.
pub open spec fn deposit_of(m: CampaignModel, contributor: u64) -> int {
    crate::assoc::map_get_or_zero(m.deposits, contributor)
}

/// The error `initialize` raises on `m`, if any, checked in this order:
/// an existing record, a non-positive target, a deadline not strictly in
/// the future, and finally the caller's control of the owner address.
pub open spec fn init_check(
    m: CampaignModel,
    target_amount: i128,
    deadline: u32,
    caller: u64,
    owner: u64,
    now: u32,
) -> Result<(), Error> {
    if m.initialized {
        Err(Error::AlreadyInitialized)
    } else if target_amount <= 0 {
        Err(Error::InvalidTarget)
    } else if deadline <= now {
        Err(Error::InvalidDeadline)
    } else if caller != owner {
        Err(Error::Unauthorized)
    } else {
        Ok(())
    }
}

/// The state after a successful `initialize`.
pub open spec fn init_step(
    m: CampaignModel,
    owner: u64,
    token: u64,
    target_amount: i128,
    deadline: u32,
) -> CampaignModel {
    CampaignModel {
        initialized: true,
        owner,
        token,
        target: target_amount as int,
        deadline,
        total: 0,
        deposits: Map::empty(),
        finalized: false,
        ..m
    }
}

/// The error `deposit` raises on `m`, if any, checked in this order:
/// the contributor's authorization, a non-positive amount, a finalized
/// campaign, a missing record, and a deadline already reached.
pub open spec fn deposit_check(
    m: CampaignModel,
    caller: u64,
    contributor: u64,
    amount: i128,
    now: u32,
) -> Result<(), Error> {
    if caller != contributor {
        Err(Error::Unauthorized)
    } else if amount <= 0 {
        Err(Error::InvalidAmount)
    } else if m.finalized {
        Err(Error::CampaignFinalized)
    } else if !m.initialized {
        Err(Error::Uninitialized)
    } else if now >= m.deadline {
        Err(Error::DeadlinePassed)
    } else {
        Ok(())
    }
}

/// The state after a successful `deposit`: the total and the contributor's
/// entry grow by `amount` and a deposit notification is emitted.
pub open spec fn deposit_step(m: CampaignModel, contributor: u64, amount: i128) -> CampaignModel {
    CampaignModel {
        total: m.total + amount,
        deposits: m.deposits.insert(contributor, deposit_of(m, contributor) + amount),
        events: m.events.push(
            CampaignEvent::Deposit {
                contributor,
                amount,
                total_raised: (m.total + amount) as i128,
            },
        ),
        ..m
    }
}

/// The error `withdraw` raises on `m`, if any, checked in this order:
/// a missing record, the owner's authorization, a finalized campaign, a
/// deadline not yet reached, and a total below target.
pub open spec fn withdraw_check(m: CampaignModel, caller: u64, now: u32) -> Result<(), Error> {
    if !m.initialized {
        Err(Error::Uninitialized)
    } else if caller != m.owner {
        Err(Error::Unauthorized)
    } else if m.finalized {
        Err(Error::AlreadyFinalized)
    } else if now < m.deadline {
        Err(Error::DeadlineNotReached)
    } else if m.total < m.target {
        Err(Error::TargetNotReached)
    } else {
        Ok(())
    }
}

/// The state after a successful `withdraw`: the campaign is finalized and
/// a withdrawal notification is emitted.  The raised total is kept as the
/// historical amount; `finalized` is the sole success marker.
pub open spec fn withdraw_step(m: CampaignModel) -> CampaignModel {
    CampaignModel {
        finalized: true,
        events: m.events.push(
            CampaignEvent::Withdraw { owner: m.owner, amount: m.total as i128 },
        ),
        ..m
    }
}

/// The error `refund` raises on `m`, if any, checked in this order:
/// the contributor's authorization, a finalized campaign, a missing
/// record, a deadline not yet reached, a campaign that met its target,
/// and a contributor with no outstanding deposit.
pub open spec fn refund_check(
    m: CampaignModel,
    caller: u64,
    contributor: u64,
    now: u32,
) -> Result<(), Error> {
    if caller != contributor {
        Err(Error::Unauthorized)
    } else if m.finalized {
        Err(Error::CampaignFinalized)
    } else if !m.initialized {
        Err(Error::Uninitialized)
    } else if now < m.deadline {
        Err(Error::DeadlineNotReached)
    } else if m.total >= m.target {
        Err(Error::CampaignSucceeded)
    } else if deposit_of(m, contributor) <= 0 {
        Err(Error::NoDeposit)
    } else {
        Ok(())
    }
}

/// The state after a successful `refund`: the contributor's whole deposit
/// leaves the total, the entry is zeroed — kept, not removed — and a
/// refund notification is emitted.
pub open spec fn refund_step(m: CampaignModel, contributor: u64) -> CampaignModel {
    CampaignModel {
        total: m.total - deposit_of(m, contributor),
        deposits: m.deposits.insert(contributor, 0),
        events: m.events.push(
            CampaignEvent::Refund { contributor, amount: deposit_of(m, contributor) as i128 },
        ),
        ..m
    }
}

/// What `get_status` reports for state `m` at time `now`.  Before
/// initialization every stored field reads as its zero default, so the
/// derived flags read as `0 >= 0` and `now >= 0` — the soft-default
/// behavior existing callers depend on.
pub open spec fn status_of(m: CampaignModel, now: u32) -> CampaignStatus {
    CampaignStatus {
        total_raised: m.total as i128,
        target_amount: m.target as i128,
        deadline: m.deadline,
        target_reached: m.total >= m.target,
        deadline_passed: now >= m.deadline,
        is_finalized: m.finalized,
    }
}

} // verus!
