//! The error conditions of the campaign operations.

use vstd::prelude::*;

verus! {

/// Every way a campaign operation can fail.
///
/// All failures are fatal to the call that raised them: an operation that
/// returns an error leaves the campaign record unchanged.
#[derive(Clone, Copy, Debug, PartialEq, Eq, Structural)]
pub enum Error {
    /// `initialize` was called on an instance that already holds a record.
    AlreadyInitialized,
    /// The target amount handed to `initialize` was not strictly positive.
    InvalidTarget,
    /// The deadline handed to `initialize` was not strictly in the future.
    InvalidDeadline,
    /// The caller did not prove control of the required address.
    Unauthorized,
    /// The per-call deposit amount was not strictly positive.
    InvalidAmount,
    /// The campaign was already finalized by a successful withdrawal.
    CampaignFinalized,
    /// A second withdrawal was attempted; the funds are already gone.
    AlreadyFinalized,
    /// A deposit arrived at or after the deadline.
    DeadlinePassed,
    /// A withdrawal or refund was attempted strictly before the deadline.
    DeadlineNotReached,
    /// A withdrawal was attempted although the raised total is below target.
    TargetNotReached,
    /// A refund was attempted although the raised total met the target.
    CampaignSucceeded,
    /// A refund was attempted by a contributor with no outstanding deposit.
    NoDeposit,
    /// The asset ledger refused the transfer; nothing was moved.
    TransferFailed,
    /// A mutating operation was attempted before `initialize`.
    Uninitialized,
}

} // verus!
