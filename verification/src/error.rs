use vstd::prelude::*;
use cosmwasm_std::StdError;

verus! {

/// Why an execute message was refused.
#[derive(Debug)]
pub enum ContractError {
    /// A storage read or a query failed with the chain's error.
    Std(StdError),
    /// An address in the message did not validate, or the sender may not
    /// change the admin.
    ArgumentError {},
}

} // verus!
