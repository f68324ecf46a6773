//! The laws of the campaign state machine.
//!
//! Each proof function here states one guarantee of the campaign over
//! the model of [`crate::model`], exactly in the terms the executable
//! operations' contracts use, so that what holds of the model holds of
//! every run of the contract.

use vstd::prelude::*;

use crate::assoc::lemma_map_sum_insert;
use crate::assoc::map_sum;
use crate::campaign::CampaignStatus;
use crate::errors::Error;
use crate::model::deposit_check;
use crate::model::deposit_of;
use crate::model::deposit_step;
use crate::model::init_check;
use crate::model::init_step;
use crate::model::refund_check;
use crate::model::refund_step;
use crate::model::status_of;
use crate::model::withdraw_check;
use crate::model::withdraw_step;
use crate::model::CampaignModel;

verus! {

/// After any valid `initialize`, the status read at the same instant
/// shows a raised total of zero, the supplied target and deadline echoed
/// back exactly, and all three derived flags false.
pub proof fn lemma_initialize_fresh_status(
    m: CampaignModel,
    caller: u64,
    owner: u64,
    token: u64,
    target_amount: i128,
    deadline: u32,
    now: u32,
)
    requires
        init_check(m, target_amount, deadline, caller, owner, now) is Ok,
    ensures
        status_of(init_step(m, owner, token, target_amount, deadline), now) == (CampaignStatus {
            total_raised: 0,
            target_amount,
            deadline,
            target_reached: false,
            deadline_passed: false,
            is_finalized: false,
        }),
{
}

/// A second `initialize` on an initialized instance fails with
/// `AlreadyInitialized`, whatever its arguments.  The operation's
/// contract adds that a failed call leaves every field unchanged.
pub proof fn lemma_initialize_only_once(
    m: CampaignModel,
    caller: u64,
    owner: u64,
    token: u64,
    target_amount: i128,
    deadline: u32,
    now: u32,
    caller2: u64,
    owner2: u64,
    target_amount2: i128,
    deadline2: u32,
    now2: u32,
)
    requires
        init_check(m, target_amount, deadline, caller, owner, now) is Ok,
    ensures
        init_check(
            init_step(m, owner, token, target_amount, deadline),
            target_amount2,
            deadline2,
            caller2,
            owner2,
            now2,
        ) == Err::<(), Error>(Error::AlreadyInitialized),
{
}

/// The state after the successful deposits `amounts`, all by the same
/// contributor, applied oldest first.
pub open spec fn apply_deposits(
    m: CampaignModel,
    contributor: u64,
    amounts: Seq<i128>,
) -> CampaignModel
    decreases amounts.len(),
{
    if amounts.len() == 0 {
        m
    } else {
        apply_deposits(deposit_step(m, contributor, amounts[0]), contributor, amounts.drop_first())
    }
}

/// The sum of a sequence of deposit amounts.
pub open spec fn sum_amounts(amounts: Seq<i128>) -> int
    decreases amounts.len(),
{
    if amounts.len() == 0 {
        0
    } else {
        amounts[0] + sum_amounts(amounts.drop_first())
    }
}

/// Any sequence of successful deposits by one contributor raises that
/// contributor's recorded deposit and the campaign total by exactly the
/// sum of the amounts, and leaves every other contributor's deposit
/// unchanged.
pub proof fn lemma_deposits_accumulate(m: CampaignModel, contributor: u64, amounts: Seq<i128>)
    ensures
        deposit_of(apply_deposits(m, contributor, amounts), contributor) == deposit_of(
            m,
            contributor,
        ) + sum_amounts(amounts),
        apply_deposits(m, contributor, amounts).total == m.total + sum_amounts(amounts),
        forall|other: u64|
            other != contributor ==> deposit_of(apply_deposits(m, contributor, amounts), other)
                == deposit_of(m, other),
    decreases amounts.len(),
{
    if amounts.len() > 0 {
        let stepped = deposit_step(m, contributor, amounts[0]);
        lemma_deposits_accumulate(stepped, contributor, amounts.drop_first());
        assert forall|other: u64| other != contributor implies deposit_of(
            apply_deposits(m, contributor, amounts),
            other,
        ) == deposit_of(m, other) by {
            assert(deposit_of(stepped, other) == deposit_of(m, other));
        }
    }
}

/// The raised total tracks the sum of all outstanding deposits through
/// every transition: initialization starts both at zero, a deposit adds
/// its amount to both, a refund takes the contributor's whole deposit out
/// of both, and a withdrawal touches neither.  Together with
/// [`crate::CrowdfundingContract::lemma_total_is_deposit_sum`] this is
/// the campaign's central bookkeeping invariant.
pub proof fn lemma_steps_preserve_deposit_sum(
    m: CampaignModel,
    owner: u64,
    token: u64,
    target_amount: i128,
    deadline: u32,
    contributor: u64,
    amount: i128,
)
    requires
        m.deposits.dom().finite(),
        m.total == map_sum(m.deposits),
    ensures
        ({
            let stepped = init_step(m, owner, token, target_amount, deadline);
            stepped.total == map_sum(stepped.deposits)
        }),
        ({
            let stepped = deposit_step(m, contributor, amount);
            stepped.total == map_sum(stepped.deposits)
        }),
        ({
            let stepped = withdraw_step(m);
            stepped.total == map_sum(stepped.deposits)
        }),
        ({
            let stepped = refund_step(m, contributor);
            stepped.total == map_sum(stepped.deposits)
        }),
{
    assert(Map::<u64, int>::empty().dom() =~= Set::<u64>::empty());
    lemma_map_sum_insert(m.deposits, contributor, deposit_of(m, contributor) + amount);
    lemma_map_sum_insert(m.deposits, contributor, 0);
}

/// A deposit attempted at or after the deadline fails with
/// `DeadlinePassed`; one strictly before the deadline passes every check,
/// and by the operation's contract it then succeeds exactly when the
/// ledger lets the amount move.
pub proof fn lemma_deposit_deadline(
    m: CampaignModel,
    caller: u64,
    contributor: u64,
    amount: i128,
    now: u32,
)
    requires
        caller == contributor,
        amount > 0,
        !m.finalized,
        m.initialized,
    ensures
        now >= m.deadline ==> deposit_check(m, caller, contributor, amount, now) == Err::<
            (),
            Error,
        >(Error::DeadlinePassed),
        now < m.deadline ==> deposit_check(m, caller, contributor, amount, now) is Ok,
{
}

/// A withdrawal strictly before the deadline fails with
/// `DeadlineNotReached`, regardless of the amount raised.
pub proof fn lemma_withdraw_before_deadline(m: CampaignModel, caller: u64, now: u32)
    requires
        m.initialized,
        caller == m.owner,
        !m.finalized,
        now < m.deadline,
    ensures
        withdraw_check(m, caller, now) == Err::<(), Error>(Error::DeadlineNotReached),
{
}

/// A withdrawal at or after the deadline with the raised total below the
/// target fails with `TargetNotReached`.
pub proof fn lemma_withdraw_target_not_reached(m: CampaignModel, caller: u64, now: u32)
    requires
        m.initialized,
        caller == m.owner,
        !m.finalized,
        now >= m.deadline,
        m.total < m.target,
    ensures
        withdraw_check(m, caller, now) == Err::<(), Error>(Error::TargetNotReached),
{
}

/// A withdrawal succeeds at most once: after a successful one the
/// campaign is finalized, the raised total is unchanged, and any further
/// attempt by the owner fails with `AlreadyFinalized`.  The operation's
/// contract carries the other half: with every check passed it succeeds
/// exactly when the ledger lets the raised total move.
pub proof fn lemma_withdraw_only_once(
    m: CampaignModel,
    caller: u64,
    now: u32,
    caller2: u64,
    now2: u32,
)
    requires
        withdraw_check(m, caller, now) is Ok,
        caller2 == m.owner,
    ensures
        withdraw_step(m).finalized,
        withdraw_step(m).total == m.total,
        withdraw_check(withdraw_step(m), caller2, now2) == Err::<(), Error>(
            Error::AlreadyFinalized,
        ),
{
}

/// A refund on a campaign whose raised total met the target fails with
/// `CampaignSucceeded`, even after the deadline.
pub proof fn lemma_refund_after_success(m: CampaignModel, caller: u64, contributor: u64, now: u32)
    requires
        caller == contributor,
        !m.finalized,
        m.initialized,
        now >= m.deadline,
        m.total >= m.target,
    ensures
        refund_check(m, caller, contributor, now) == Err::<(), Error>(Error::CampaignSucceeded),
{
}

/// A refund for a contributor with no outstanding deposit — never
/// deposited, or already refunded — fails with `NoDeposit`.
pub proof fn lemma_refund_needs_deposit(m: CampaignModel, caller: u64, contributor: u64, now: u32)
    requires
        caller == contributor,
        !m.finalized,
        m.initialized,
        now >= m.deadline,
        m.total < m.target,
        deposit_of(m, contributor) <= 0,
    ensures
        refund_check(m, caller, contributor, now) == Err::<(), Error>(Error::NoDeposit),
{
}

/// A refund is non-repeatable: after a successful refund the same
/// contributor's next attempt, at any later instant past the deadline,
/// fails with `NoDeposit`.
pub proof fn lemma_refund_only_once(
    m: CampaignModel,
    caller: u64,
    contributor: u64,
    now: u32,
    now2: u32,
)
    requires
        refund_check(m, caller, contributor, now) is Ok,
        now2 >= m.deadline,
    ensures
        refund_check(refund_step(m, contributor), caller, contributor, now2) == Err::<(), Error>(
            Error::NoDeposit,
        ),
{
}

} // verus!
