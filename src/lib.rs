//! A crowdfunding campaign as a verified state machine.
//!
//! The campaign record, its contribution ledger and its append-only logs are
//! plain values; the host environment (authentication, storage, clock and
//! asset transfer) stays outside and hands the library what it observed.

pub mod address;
pub mod contract;
pub mod laws;
pub mod ledger;

pub use address::Address;
pub use contract::{CampaignStats, CrowdfundingContract, CrowdfundingError};
