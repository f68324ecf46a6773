//! A single-campaign crowdfunding ledger.
//!
//! The library tracks pledges of a fungible asset toward a fixed target,
//! enforces a deadline, and releases the funds to the campaign owner on
//! success or returns them to the contributors on failure.  The campaign
//! itself is a deterministic state machine over one record; the asset
//! ledger that actually moves funds is an injected collaborator behind the
//! [`ledger::TokenLedger`] trait, and an in-memory implementation of that
//! trait is provided for tests and local runs.

pub mod assoc;
pub mod campaign;
pub mod errors;
pub mod laws;
pub mod ledger;
pub mod model;

pub use campaign::CampaignEvent;
pub use campaign::CampaignStatus;
pub use campaign::CrowdfundingContract;
pub use campaign::DataKey;
pub use errors::Error;
pub use ledger::InMemoryLedger;
pub use ledger::TokenLedger;
pub use ledger::TransferError;
