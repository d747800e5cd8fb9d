//! The messages the contract accepts and the answers it gives.
use vstd::prelude::*;
use cosmwasm_std::Uint256;

verus! {

/// Configuration handed to the contract when it is created.
#[derive(Clone, Debug, PartialEq)]
pub struct InstantiateMsg {
    pub admin: String,
    pub anc_liq_que_contract: String,
    pub bluna_contract: String,
    pub astroport_router: String,
}

/// The state-changing requests.
#[derive(Debug, PartialEq)]
pub enum ExecuteMsg {
    UpdateAdmin { new_admin: String },
    SubmitBid { collateral_token: String, premium_slot: u8 },
    ClaimLiquidations { collateral_token: String, bids_idx: Option<Vec<u128>> },
    ActivateBids { collateral_token: String, bids_idx: Option<Vec<u128>> },
    RetractBid { bid_idx: u128, amount: Option<Uint256> },
}

/// The read-only requests.
#[derive(Clone, Debug, PartialEq)]
pub enum QueryMsg {
    GetOwner {},
    GetAdmin {},
    /// The current UST balance of an account.
    GetUstBalance { account_addr: String },
    GetConfig {},
    GetBidInfo { bid_idx: u128 },
    GetBidsByContract { collateral_token: String, start_after: Option<u128>, limit: Option<u8> },
    GetBidsByUser {
        collateral_token: String,
        bidder: String,
        start_after: Option<u128>,
        limit: Option<u8>,
    },
}

/// The answer to `GetOwner`.
#[derive(Clone, Debug, PartialEq)]
pub struct OwnerResponse {
    pub owner: String,
}

} // verus!
