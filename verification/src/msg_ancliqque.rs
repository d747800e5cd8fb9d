//! The part of the liquidation queue's interface that the contract uses.
use vstd::prelude::*;
use cosmwasm_std::{Decimal256, Uint256};

verus! {

/// Requests the contract sends to the liquidation queue.
#[derive(Debug, PartialEq)]
pub enum ExecuteMsg {
    SubmitBid { collateral_token: String, premium_slot: u8 },
    ActivateBids { collateral_token: String, bids_idx: Option<Vec<u128>> },
    ClaimLiquidations { collateral_token: String, bids_idx: Option<Vec<u128>> },
    RetractBid { bid_idx: u128, amount: Option<Uint256> },
}

/// Questions the contract asks the liquidation queue.
#[derive(Clone, Debug, PartialEq)]
pub enum QueryMsg {
    Config {},
    Bid { bid_idx: u128 },
    BidsByUser {
        collateral_token: String,
        bidder: String,
        start_after: Option<u128>,
        limit: Option<u8>,
    },
}

/// One bid as the liquidation queue reports it.
#[derive(Debug, PartialEq)]
pub struct BidResponse {
    pub idx: u128,
    pub collateral_token: String,
    pub premium_slot: u8,
    pub bidder: String,
    pub amount: Uint256,
    pub product_snapshot: Decimal256,
    pub sum_snapshot: Decimal256,
    pub pending_liquidated_collateral: Uint256,
    pub wait_end: Option<u64>,
    pub epoch_snapshot: u128,
    pub scale_snapshot: u128,
}

/// A list of bids as the liquidation queue reports it.
#[derive(Debug, PartialEq)]
pub struct BidsResponse {
    pub bids: Vec<BidResponse>,
}

} // verus!
