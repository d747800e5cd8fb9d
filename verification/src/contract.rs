//! Instantiation and the state-changing requests.
//!
//! The chain's storage, its address checks and its queries stay with the
//! caller: each handler takes what they returned (a loaded value, or the
//! error the load or the check gave) and returns what to save and what to
//! answer.
use vstd::prelude::*;
use cosmwasm_std::{StdError, Uint256};
use crate::error::ContractError;
use crate::msg::ExecuteMsg;
use crate::msg_ancliqque::{BidsResponse, ExecuteMsg as QueueExecuteMsg, QueryMsg as QueueQueryMsg};
use crate::query::query_bids_by_contract;
use crate::response::{
    queue_call_response, is_queue_call, is_queue_query, response_with, ChainQuery, Coin,
    Cw20Transfer, OutgoingMsg, Response,
};
use crate::state::{contract_name, spec_contract_name, ContractVersion, State};

verus! {

/// The outcomes of validating each address of an `InstantiateMsg`, in the
/// order the contract checks them.
#[derive(Debug)]
pub struct InstantiateChecks {
    pub anc_liq_que_contract: Result<String, StdError>,
    pub bluna_contract: Result<String, StdError>,
    pub astroport_router: Result<String, StdError>,
    pub admin: Result<String, StdError>,
}

/// What instantiation saves and answers.
#[derive(Debug)]
pub struct Instantiated {
    pub state: State,
    pub admin: Option<String>,
    pub contract_version: ContractVersion,
    pub response: Response,
}

/// The first failed address check of an instantiation, in checking order.
pub open spec fn first_failed_check(checks: InstantiateChecks) -> Option<StdError> {
    if checks.anc_liq_que_contract is Err {
        Some(checks.anc_liq_que_contract->Err_0)
    } else if checks.bluna_contract is Err {
        Some(checks.bluna_contract->Err_0)
    } else if checks.astroport_router is Err {
        Some(checks.astroport_router->Err_0)
    } else if checks.admin is Err {
        Some(checks.admin->Err_0)
    } else {
        None
    }
}

/// `r` is the outcome of instantiating with sender `sender`, version
/// `version` and address checks `checks`.
pub open spec fn instantiate_outcome(sender: String, version: String, checks: InstantiateChecks, r: Result<Instantiated, ContractError>) -> bool {
    match first_failed_check(checks) {
        Some(e) => r == Err::<Instantiated, ContractError>(ContractError::Std(e)),
        None => {
            &&& r is Ok
            &&& r->Ok_0.state == (State {
                owner: sender,
                anc_liq_que_contract: checks.anc_liq_que_contract->Ok_0,
                bluna_contract: checks.bluna_contract->Ok_0,
                astroport_router: checks.astroport_router->Ok_0,
                last_bid_idx: 0,
            })
            &&& r->Ok_0.admin == Some(checks.admin->Ok_0)
            &&& r->Ok_0.contract_version.contract@ == "crates.io:liquidproof"@
            &&& r->Ok_0.contract_version.version == version
            &&& r->Ok_0.response.messages@.len() == 0
            &&& r->Ok_0.response.attribute_views() == seq![("method"@, "instantiate"@), ("owner"@, sender@)]
        },
    }
}

/// Creates the contract for an `InstantiateMsg` sent by `sender`, whose
/// addresses were validated with the outcomes `checks`; `version` is
/// recorded with the contract's name.
pub fn instantiate(sender: String, version: String, checks: InstantiateChecks) -> (r: Result<Instantiated, ContractError>)
    ensures
        instantiate_outcome(sender, version, checks, r),
{
    let anc_liq_que_contract = match checks.anc_liq_que_contract {
        Ok(a) => a,
        Err(e) => return Err(ContractError::Std(e)),
    };
    let bluna_contract = match checks.bluna_contract {
        Ok(a) => a,
        Err(e) => return Err(ContractError::Std(e)),
    };
    let astroport_router = match checks.astroport_router {
        Ok(a) => a,
        Err(e) => return Err(ContractError::Std(e)),
    };
    let state = State {
        owner: sender.clone(),
        anc_liq_que_contract,
        bluna_contract,
        astroport_router,
        last_bid_idx: 0,
    };
    let contract_version = ContractVersion { contract: contract_name(), version };
    let admin = match checks.admin {
        Ok(a) => a,
        Err(e) => return Err(ContractError::Std(e)),
    };
    let mut response = response_with(Vec::new(), "method", "instantiate");
    response.add_attribute("owner", sender);
    assert(seq![("method"@, "instantiate"@)].push(("owner"@, sender@)) =~= seq![("method"@, "instantiate"@), ("owner"@, sender@)]);
    Ok(Instantiated { state, admin: Some(admin), contract_version, response })
}

/// `caller` is the admin recorded in `admin`.
pub open spec fn spec_is_admin(admin: Option<String>, caller: String) -> bool {
    admin matches Some(a) && a@ == caller@
}

/// Whether `caller` is the admin recorded in `admin`.
pub fn is_admin(admin: &Option<String>, caller: &String) -> (r: bool)
    ensures
        r == (*admin matches Some(a) && a@ == caller@),
{
    match admin {
        Some(owner) => *caller == *owner,
        None => false,
    }
}

/// What a successful admin change saves and answers.
#[derive(Debug)]
pub struct AdminUpdate {
    pub admin: Option<String>,
    pub response: Response,
}

/// `r` is the outcome of `sender` asking to make `new_admin` the admin,
/// where loading the current admin gave `admin` and validating `new_admin`
/// gave `new_admin_check`.
pub open spec fn update_admin_outcome(
    admin: Result<Option<String>, StdError>,
    sender: String,
    new_admin: String,
    new_admin_check: Result<String, StdError>,
    r: Result<AdminUpdate, ContractError>,
) -> bool {
    if new_admin_check is Ok && (admin matches Ok(Some(a)) && a@ == sender@) {
        &&& r is Ok
        &&& r->Ok_0.admin == Some(new_admin)
        &&& r->Ok_0.response.messages@.len() == 0
        &&& r->Ok_0.response.attribute_views() == seq![("method"@, "try_update_admin"@)]
    } else {
        r == Err::<AdminUpdate, ContractError>(ContractError::ArgumentError {})
    }
}

/// Makes `new_admin` the admin, if `sender` is the current admin.
pub fn try_update_admin(admin: Result<Option<String>, StdError>, sender: String, new_admin: String, new_admin_check: Result<String, StdError>) -> (r: Result<AdminUpdate, ContractError>)
    ensures
        update_admin_outcome(admin, sender, new_admin, new_admin_check, r),
{
    if new_admin_check.is_err() {
        return Err(ContractError::ArgumentError {});
    }
    let current = match admin {
        Ok(a) => a,
        Err(_) => return Err(ContractError::ArgumentError {}),
    };
    if !is_admin(&current, &sender) {
        return Err(ContractError::ArgumentError {});
    }
    Ok(AdminUpdate {
        admin: Some(new_admin),
        response: response_with(Vec::new(), "method", "try_update_admin"),
    })
}

/// `r` forwards `msg` with `funds` to the liquidation queue named in the
/// loaded state and reports `("action", action)`; or it is the error
/// loading the state gave.
pub open spec fn forward_outcome(state: Result<State, StdError>, msg: QueueExecuteMsg, funds: Seq<Coin>, action: Seq<char>, r: Result<Response, ContractError>) -> bool {
    match state {
        Err(e) => r == Err::<Response, ContractError>(ContractError::Std(e)),
        Ok(s) => {
            &&& r is Ok
            &&& r->Ok_0.messages@.len() == 1
            &&& is_queue_call(r->Ok_0.messages@[0], s.anc_liq_que_contract@, msg, funds)
            &&& r->Ok_0.attribute_views() == seq![("action"@, action)]
        },
    }
}

/// As `forward_outcome`, after the collateral token's address check: a
/// failed check is an `ArgumentError`, before the state is read.
pub open spec fn checked_forward_outcome(
    token_check: Result<String, StdError>,
    state: Result<State, StdError>,
    msg: QueueExecuteMsg,
    funds: Seq<Coin>,
    action: Seq<char>,
    r: Result<Response, ContractError>,
) -> bool {
    if token_check is Err {
        r == Err::<Response, ContractError>(ContractError::ArgumentError {})
    } else {
        forward_outcome(state, msg, funds, action, r)
    }
}

/// Forwards `msg` with `funds` to the liquidation queue named in the state.
fn forward_to_queue(state: Result<State, StdError>, msg: QueueExecuteMsg, funds: Vec<Coin>, action: &str) -> (r: Result<Response, ContractError>)
    ensures
        forward_outcome(state, msg, funds@, action@, r),
{
    match state {
        Ok(s) => Ok(queue_call_response(s.anc_liq_que_contract, msg, funds, "action", action)),
        Err(e) => Err(ContractError::Std(e)),
    }
}

/// The first step of submitting a bid: what to answer, and the question
/// whose answer tells which bid the queue recorded.
#[derive(Debug)]
pub struct PendingSubmitBid {
    pub response: Response,
    pub bids_query: ChainQuery,
}

/// Where the listing of the contract's bids starts after a submission: after
/// the last recorded bid, or at the beginning when none was recorded.
pub open spec fn submit_start_after(last_bid_idx: u128) -> Option<u128> {
    if last_bid_idx != 0 { Some(last_bid_idx) } else { None }
}

/// `r` is the first step of submitting a bid on `collateral_token` in
/// `premium_slot` with `funds`, by this contract at `contract_address`.
pub open spec fn submit_bid_outcome(
    state: Result<State, StdError>,
    funds: Seq<Coin>,
    contract_address: String,
    collateral_token: String,
    premium_slot: u8,
    token_check: Result<String, StdError>,
    r: Result<PendingSubmitBid, ContractError>,
) -> bool {
    if token_check is Err {
        r == Err::<PendingSubmitBid, ContractError>(ContractError::ArgumentError {})
    } else if state is Err {
        r == Err::<PendingSubmitBid, ContractError>(ContractError::Std(state->Err_0))
    } else {
        let s = state->Ok_0;
        &&& r is Ok
        &&& r->Ok_0.response.messages@.len() == 1
        &&& is_queue_call(r->Ok_0.response.messages@[0], s.anc_liq_que_contract@,
                QueueExecuteMsg::SubmitBid { collateral_token, premium_slot }, funds)
        &&& r->Ok_0.response.attribute_views() == seq![("action"@, "deposit to project"@)]
        &&& is_queue_query(r->Ok_0.bids_query, s.anc_liq_que_contract@,
                QueueQueryMsg::BidsByUser {
                    collateral_token,
                    bidder: contract_address,
                    start_after: if s.last_bid_idx != 0 { Some(s.last_bid_idx) } else { None },
                    limit: None,
                })
    }
}

/// Submits a bid on `collateral_token` in `premium_slot` to the liquidation
/// queue, paid with the sender's `funds`.
pub fn try_submit_bid(
    state: Result<State, StdError>,
    funds: Vec<Coin>,
    contract_address: String,
    collateral_token: String,
    premium_slot: u8,
    token_check: Result<String, StdError>,
) -> (r: Result<PendingSubmitBid, ContractError>)
    ensures
        submit_bid_outcome(state, funds@, contract_address, collateral_token, premium_slot, token_check, r),
{
    if token_check.is_err() {
        return Err(ContractError::ArgumentError {});
    }
    let s = match state {
        Ok(s) => s,
        Err(e) => return Err(ContractError::Std(e)),
    };
    let response = queue_call_response(
        s.anc_liq_que_contract.clone(),
        QueueExecuteMsg::SubmitBid { collateral_token: collateral_token.clone(), premium_slot },
        funds,
        "action",
        "deposit to project",
    );
    let start_after = if s.last_bid_idx != 0 { Some(s.last_bid_idx) } else { None };
    match query_bids_by_contract(Ok(s), contract_address, collateral_token, start_after, None) {
        Ok(bids_query) => Ok(PendingSubmitBid { response, bids_query }),
        Err(e) => Err(ContractError::Std(e)),
    }
}

/// `r` is what finishing a submission saves as the sender's recorded bid
/// indices (`None`: nothing), given the queue's answer `bids` and what
/// loading the sender's record gave (`None`: no record yet).
///
/// Only a first submission is recorded: an existing record is read and left
/// as it was.
pub open spec fn finish_submit_bid_outcome(
    bids: Result<BidsResponse, StdError>,
    recorded: Option<Result<Vec<u128>, StdError>>,
    r: Result<Option<Vec<u128>>, ContractError>,
) -> bool {
    match bids {
        Err(e) => r == Err::<Option<Vec<u128>>, ContractError>(ContractError::Std(e)),
        Ok(answer) => if answer.bids@.len() == 0 {
            r == Ok::<Option<Vec<u128>>, ContractError>(None)
        } else {
            match recorded {
                None => r matches Ok(Some(saved)) && saved@ == seq![answer.bids@.last().idx],
                Some(Err(e)) => r == Err::<Option<Vec<u128>>, ContractError>(ContractError::Std(e)),
                Some(Ok(_)) => r == Ok::<Option<Vec<u128>>, ContractError>(None),
            }
        },
    }
}

/// Finishes submitting a bid: records the newest bid of the queue's answer
/// for the sender, when the sender has no record yet.
pub fn finish_submit_bid(bids: Result<BidsResponse, StdError>, recorded: Option<Result<Vec<u128>, StdError>>) -> (r: Result<Option<Vec<u128>>, ContractError>)
    ensures
        finish_submit_bid_outcome(bids, recorded, r),
{
    let answer = match bids {
        Ok(a) => a,
        Err(e) => return Err(ContractError::Std(e)),
    };
    let n = answer.bids.len();
    if n == 0 {
        return Ok(None);
    }
    let last_bid_idx = answer.bids[n - 1].idx;
    match recorded {
        None => {
            let mut saved: Vec<u128> = Vec::new();
            saved.push(last_bid_idx);
            assert(saved@ =~= seq![answer.bids@.last().idx]);
            Ok(Some(saved))
        },
        Some(Err(e)) => Err(ContractError::Std(e)),
        Some(Ok(_)) => Ok(None),
    }
}

/// Activates the given bids (all, for `None`) on `collateral_token`.
pub fn try_activate_bid(state: Result<State, StdError>, collateral_token: String, bids_idx: Option<Vec<u128>>, token_check: Result<String, StdError>) -> (r: Result<Response, ContractError>)
    ensures
        checked_forward_outcome(token_check, state,
            QueueExecuteMsg::ActivateBids { collateral_token, bids_idx }, seq![], "activate bid"@, r),
{
    if token_check.is_err() {
        return Err(ContractError::ArgumentError {});
    }
    forward_to_queue(state, QueueExecuteMsg::ActivateBids { collateral_token, bids_idx }, Vec::new(), "activate bid")
}

/// Retracts `amount` (everything, for `None`) of bid `bid_idx`.
pub fn try_retract_bid(state: Result<State, StdError>, bid_idx: u128, amount: Option<Uint256>) -> (r: Result<Response, ContractError>)
    ensures
        forward_outcome(state, QueueExecuteMsg::RetractBid { bid_idx, amount }, seq![], "deposit to project"@, r),
{
    forward_to_queue(state, QueueExecuteMsg::RetractBid { bid_idx, amount }, Vec::new(), "deposit to project")
}

/// Claims the collateral liquidated into the given bids (all, for `None`)
/// on `collateral_token`.
pub fn try_claim_liquidation(state: Result<State, StdError>, collateral_token: String, bids_idx: Option<Vec<u128>>, token_check: Result<String, StdError>) -> (r: Result<Response, ContractError>)
    ensures
        checked_forward_outcome(token_check, state,
            QueueExecuteMsg::ClaimLiquidations { collateral_token, bids_idx }, seq![], "claim liquidation"@, r),
{
    if token_check.is_err() {
        return Err(ContractError::ArgumentError {});
    }
    forward_to_queue(state, QueueExecuteMsg::ClaimLiquidations { collateral_token, bids_idx }, Vec::new(), "claim liquidation")
}

/// The amount of bLuna a withdrawal transfers.
pub open spec fn spec_withdraw_amount() -> u128 {
    10_000_000
}

/// `r` transfers the withdrawal amount of bLuna, from the token contract
/// named in the state, to the empty recipient; or it is the error loading
/// the state gave.
pub open spec fn withdraw_bluna_outcome(state: Result<State, StdError>, r: Result<Response, ContractError>) -> bool {
    match state {
        Err(e) => r == Err::<Response, ContractError>(ContractError::Std(e)),
        Ok(s) => {
            &&& r is Ok
            &&& r->Ok_0.messages@.len() == 1
            &&& r->Ok_0.messages@[0] matches OutgoingMsg::Token { contract_addr, transfer, funds }
            &&& contract_addr@ == s.bluna_contract@
            &&& transfer.recipient@ == Seq::<char>::empty()
            &&& transfer.amount == 10_000_000
            &&& funds@.len() == 0
            &&& r->Ok_0.attributes@.len() == 0
        },
    }
}

/// Withdraws bLuna from the contract's balance.
pub fn withdraw_bluna(state: Result<State, StdError>) -> (r: Result<Response, ContractError>)
    ensures
        withdraw_bluna_outcome(state, r),
{
    let s = match state {
        Ok(s) => s,
        Err(e) => return Err(ContractError::Std(e)),
    };
    let transfer = Cw20Transfer { recipient: String::new(), amount: 10_000_000 };
    let mut messages: Vec<OutgoingMsg> = Vec::new();
    messages.push(OutgoingMsg::Token { contract_addr: s.bluna_contract, transfer, funds: Vec::new() });
    Ok(Response { messages, attributes: Vec::new() })
}

/// What the chain hands an execute message besides the message itself: the
/// sender and its funds, this contract's address, the loaded state and
/// admin, and the outcome of validating the address that
/// `address_to_check` names for the message.
#[derive(Debug)]
pub struct ExecuteContext {
    pub sender: String,
    pub funds: Vec<Coin>,
    pub contract_address: String,
    pub state: Result<State, StdError>,
    pub admin: Result<Option<String>, StdError>,
    pub address_check: Option<Result<String, StdError>>,
}

/// What a handled execute message asks the caller to do.
#[derive(Debug)]
pub enum ExecuteOutcome {
    /// Answer with the response.
    Respond(Response),
    /// Save the new admin and answer with the response.
    UpdateAdmin(AdminUpdate),
    /// Ask the liquidation queue for the contract's bids, finish with
    /// `finish_submit_bid`, and answer with the response.
    SubmitBid(PendingSubmitBid),
}

/// The address that an execute message asks to validate.
pub open spec fn spec_address_to_check(msg: ExecuteMsg) -> Option<String> {
    match msg {
        ExecuteMsg::UpdateAdmin { new_admin } => Some(new_admin),
        ExecuteMsg::SubmitBid { collateral_token, .. } => Some(collateral_token),
        ExecuteMsg::ClaimLiquidations { collateral_token, .. } => Some(collateral_token),
        ExecuteMsg::ActivateBids { collateral_token, .. } => Some(collateral_token),
        ExecuteMsg::RetractBid { .. } => None,
    }
}

/// The address that an execute message asks to validate.
pub fn address_to_check(msg: &ExecuteMsg) -> (r: Option<String>)
    ensures
        r == spec_address_to_check(*msg),
        match *msg {
            ExecuteMsg::UpdateAdmin { new_admin } => r == Some(new_admin),
            ExecuteMsg::SubmitBid { collateral_token, .. } => r == Some(collateral_token),
            ExecuteMsg::ClaimLiquidations { collateral_token, .. } => r == Some(collateral_token),
            ExecuteMsg::ActivateBids { collateral_token, .. } => r == Some(collateral_token),
            ExecuteMsg::RetractBid { .. } => r is None,
        },
{
    match msg {
        ExecuteMsg::UpdateAdmin { new_admin } => Some(new_admin.clone()),
        ExecuteMsg::SubmitBid { collateral_token, .. } => Some(collateral_token.clone()),
        ExecuteMsg::ClaimLiquidations { collateral_token, .. } => Some(collateral_token.clone()),
        ExecuteMsg::ActivateBids { collateral_token, .. } => Some(collateral_token.clone()),
        ExecuteMsg::RetractBid { .. } => None,
    }
}

/// The response of an outcome that answers directly.
pub open spec fn responded(r: Result<ExecuteOutcome, ContractError>) -> Result<Response, ContractError> {
    match r {
        Ok(ExecuteOutcome::Respond(resp)) => Ok(resp),
        Ok(_) => Err(ContractError::ArgumentError {}),
        Err(e) => Err(e),
    }
}

/// The admin change of an outcome.
pub open spec fn admin_changed(r: Result<ExecuteOutcome, ContractError>) -> Result<AdminUpdate, ContractError> {
    match r {
        Ok(ExecuteOutcome::UpdateAdmin(u)) => Ok(u),
        Ok(_) => Err(ContractError::ArgumentError {}),
        Err(e) => Err(e),
    }
}

/// The pending submission of an outcome.
pub open spec fn bid_submitted(r: Result<ExecuteOutcome, ContractError>) -> Result<PendingSubmitBid, ContractError> {
    match r {
        Ok(ExecuteOutcome::SubmitBid(p)) => Ok(p),
        Ok(_) => Err(ContractError::ArgumentError {}),
        Err(e) => Err(e),
    }
}

/// `r` is the outcome of handling `msg` in `ctx`: the outcome of the
/// message's handler.
pub open spec fn execute_outcome(ctx: ExecuteContext, msg: ExecuteMsg, r: Result<ExecuteOutcome, ContractError>) -> bool {
    let check = ctx.address_check->Some_0;
    match msg {
        ExecuteMsg::UpdateAdmin { new_admin } => {
            &&& r matches Ok(o) ==> o is UpdateAdmin
            &&& update_admin_outcome(ctx.admin, ctx.sender, new_admin, check, admin_changed(r))
        },
        ExecuteMsg::SubmitBid { collateral_token, premium_slot } => {
            &&& r matches Ok(o) ==> o is SubmitBid
            &&& submit_bid_outcome(ctx.state, ctx.funds@, ctx.contract_address, collateral_token,
                    premium_slot, check, bid_submitted(r))
        },
        ExecuteMsg::ClaimLiquidations { collateral_token, bids_idx } => {
            &&& r matches Ok(o) ==> o is Respond
            &&& checked_forward_outcome(check, ctx.state,
                    QueueExecuteMsg::ClaimLiquidations { collateral_token, bids_idx }, seq![],
                    "claim liquidation"@, responded(r))
        },
        ExecuteMsg::ActivateBids { collateral_token, bids_idx } => {
            &&& r matches Ok(o) ==> o is Respond
            &&& checked_forward_outcome(check, ctx.state,
                    QueueExecuteMsg::ActivateBids { collateral_token, bids_idx }, seq![],
                    "activate bid"@, responded(r))
        },
        ExecuteMsg::RetractBid { bid_idx, amount } => {
            &&& r matches Ok(o) ==> o is Respond
            &&& forward_outcome(ctx.state, QueueExecuteMsg::RetractBid { bid_idx, amount }, seq![],
                    "deposit to project"@, responded(r))
        },
    }
}

/// Handles an execute message.
pub fn execute(ctx: ExecuteContext, msg: ExecuteMsg) -> (r: Result<ExecuteOutcome, ContractError>)
    requires
        ctx.address_check is Some <==> spec_address_to_check(msg) is Some,
    ensures
        execute_outcome(ctx, msg, r),
{
    let ExecuteContext { sender, funds, contract_address, state, admin, address_check } = ctx;
    match msg {
        ExecuteMsg::UpdateAdmin { new_admin } => {
            let check = address_check.unwrap();
            match try_update_admin(admin, sender, new_admin, check) {
                Ok(u) => Ok(ExecuteOutcome::UpdateAdmin(u)),
                Err(e) => Err(e),
            }
        },
        ExecuteMsg::SubmitBid { collateral_token, premium_slot } => {
            let check = address_check.unwrap();
            match try_submit_bid(state, funds, contract_address, collateral_token, premium_slot, check) {
                Ok(p) => Ok(ExecuteOutcome::SubmitBid(p)),
                Err(e) => Err(e),
            }
        },
        ExecuteMsg::ActivateBids { collateral_token, bids_idx } => {
            let check = address_check.unwrap();
            match try_activate_bid(state, collateral_token, bids_idx, check) {
                Ok(resp) => Ok(ExecuteOutcome::Respond(resp)),
                Err(e) => Err(e),
            }
        },
        ExecuteMsg::RetractBid { bid_idx, amount } => {
            match try_retract_bid(state, bid_idx, amount) {
                Ok(resp) => Ok(ExecuteOutcome::Respond(resp)),
                Err(e) => Err(e),
            }
        },
        ExecuteMsg::ClaimLiquidations { collateral_token, bids_idx } => {
            let check = address_check.unwrap();
            match try_claim_liquidation(state, collateral_token, bids_idx, check) {
                Ok(resp) => Ok(ExecuteOutcome::Respond(resp)),
                Err(e) => Err(e),
            }
        },
    }
}

} // verus!
