//! A liquidation-queue bidding proxy: the decision logic of a contract that
//! forwards bids to a liquidation queue, keeps its configuration and admin,
//! and records which queued bids belong to which user.
pub mod chain_types;
pub mod contract;
pub mod error;
pub mod laws;
pub mod msg;
pub mod msg_ancliqque;
pub mod query;
pub mod response;
pub mod state;

pub use crate::error::ContractError;
