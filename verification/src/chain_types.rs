//! Values of the chain's standard library that the contract carries through
//! without looking inside them.
use vstd::prelude::*;

verus! {

/// `cosmwasm_std::Uint256`: a 256-bit unsigned amount, as the liquidation
/// queue reports and accepts it. Opaque: nothing is claimed of its values,
/// which are only carried through.
#[verifier::external_type_specification]
#[verifier::external_body]
pub struct ExUint256(cosmwasm_std::Uint256);

/// `cosmwasm_std::Decimal256`: a 256-bit fixed-point decimal, as the
/// liquidation queue reports it. Opaque: nothing is claimed of its values,
/// which are only carried through.
#[verifier::external_type_specification]
#[verifier::external_body]
pub struct ExDecimal256(cosmwasm_std::Decimal256);

/// `cosmwasm_std::StdError`: the chain's standard error, what a failed
/// storage read, address check or query reports. Opaque: nothing is claimed
/// of its values, which are only passed on.
#[verifier::external_type_specification]
#[verifier::external_body]
pub struct ExStdError(cosmwasm_std::StdError);

} // verus!
