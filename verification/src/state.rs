//! What the contract keeps between messages.
use vstd::prelude::*;

verus! {

/// The contract's configuration, saved at instantiation.
#[derive(Clone, Debug, PartialEq)]
pub struct State {
    pub owner: String,
    pub anc_liq_que_contract: String,
    pub bluna_contract: String,
    pub astroport_router: String,
    pub last_bid_idx: u128,
}

/// What the contract knows of a customer.
#[derive(Clone, Debug, PartialEq)]
pub struct CustInfo {
    pub wallet_addr: String,
    pub ust_bal: u128,
}

/// The name and version recorded for migrations.
#[derive(Clone, Debug, PartialEq)]
pub struct ContractVersion {
    pub contract: String,
    pub version: String,
}

/// The contract name recorded for migrations.
pub open spec fn spec_contract_name() -> Seq<char> {
    "crates.io:liquidproof"@
}

/// The contract name recorded for migrations.
pub fn contract_name() -> (name: String)
    ensures
        name@ == spec_contract_name(),
        name@ == "crates.io:liquidproof"@,
{
    "crates.io:liquidproof".to_owned()
}

} // verus!
