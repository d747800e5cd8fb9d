//! The read-only requests, and the filtering of the liquidation queue's bids
//! down to those a user submitted through the contract.
use vstd::prelude::*;
use cosmwasm_std::StdError;
use crate::msg::{OwnerResponse, QueryMsg};
use crate::msg_ancliqque::{BidResponse, BidsResponse, QueryMsg as QueueQueryMsg};
use crate::response::{is_queue_query, ChainQuery};
use crate::state::State;

verus! {

/// The owner's answer, or the error loading the state gave.
pub open spec fn query_owner_outcome(state: Result<State, StdError>, r: Result<OwnerResponse, StdError>) -> bool {
    match state {
        Ok(s) => r == Ok::<OwnerResponse, StdError>(OwnerResponse { owner: s.owner }),
        Err(e) => r == Err::<OwnerResponse, StdError>(e),
    }
}

/// Answers `GetOwner` from the loaded state.
pub fn query_owner(state: Result<State, StdError>) -> (r: Result<OwnerResponse, StdError>)
    ensures
        query_owner_outcome(state, r),
{
    match state {
        Ok(s) => Ok(OwnerResponse { owner: s.owner }),
        Err(e) => Err(e),
    }
}

/// The bank question for the balance of `account_addr` in `denom`.
pub fn query_balance(account_addr: String, denom: String) -> (q: ChainQuery)
    ensures
        q == (ChainQuery::Balance { address: account_addr, denom }),
{
    ChainQuery::Balance { address: account_addr, denom }
}

/// `r` is the question `msg` to the liquidation queue named in the loaded
/// state, or the error loading the state gave.
pub open spec fn queue_query_outcome(state: Result<State, StdError>, msg: QueueQueryMsg, r: Result<ChainQuery, StdError>) -> bool {
    match state {
        Ok(s) => r matches Ok(q) && is_queue_query(q, s.anc_liq_que_contract@, msg),
        Err(e) => r == Err::<ChainQuery, StdError>(e),
    }
}

/// Asks the liquidation queue named in the loaded state the question `msg`.
fn ask_queue(state: Result<State, StdError>, msg: QueueQueryMsg) -> (r: Result<ChainQuery, StdError>)
    ensures
        queue_query_outcome(state, msg, r),
{
    match state {
        Ok(s) => Ok(ChainQuery::LiquidationQueue { contract_addr: s.anc_liq_que_contract, msg }),
        Err(e) => Err(e),
    }
}

/// The question for the liquidation queue's configuration.
pub fn query_config(state: Result<State, StdError>) -> (r: Result<ChainQuery, StdError>)
    ensures
        queue_query_outcome(state, QueueQueryMsg::Config {}, r),
{
    ask_queue(state, QueueQueryMsg::Config {})
}

/// The question for one bid of the liquidation queue.
pub fn query_bid_info(state: Result<State, StdError>, bid_idx: u128) -> (r: Result<ChainQuery, StdError>)
    ensures
        queue_query_outcome(state, QueueQueryMsg::Bid { bid_idx }, r),
{
    ask_queue(state, QueueQueryMsg::Bid { bid_idx })
}

/// The liquidation queue's question for the bids that `contract_address`
/// holds on `collateral_token`.
pub open spec fn spec_bids_by_contract(contract_address: String, collateral_token: String, start_after: Option<u128>, limit: Option<u8>) -> QueueQueryMsg {
    QueueQueryMsg::BidsByUser { collateral_token, bidder: contract_address, start_after, limit }
}

/// The question for the bids that this contract, at `contract_address`,
/// holds in the liquidation queue on `collateral_token`.
pub fn query_bids_by_contract(state: Result<State, StdError>, contract_address: String, collateral_token: String, start_after: Option<u128>, limit: Option<u8>) -> (r: Result<ChainQuery, StdError>)
    ensures
        queue_query_outcome(state,
            QueueQueryMsg::BidsByUser { collateral_token, bidder: contract_address, start_after, limit }, r),
{
    ask_queue(state, QueueQueryMsg::BidsByUser { collateral_token, bidder: contract_address, start_after, limit })
}

/// The first step of answering `GetBidsByUser`: the question to ask the
/// liquidation queue, and the validated bidder whose recorded bids select
/// from its answer.
#[derive(Debug)]
pub struct BidsByUserQuery {
    pub request: ChainQuery,
    pub bidder: String,
}

/// `r` is the first step of answering `GetBidsByUser`: the state's load
/// error first, then the bidder's validation error, else the contract's own
/// bids question and the validated bidder.
pub open spec fn query_bids_by_user_outcome(
    state: Result<State, StdError>,
    bidder_check: Result<String, StdError>,
    contract_address: String,
    collateral_token: String,
    start_after: Option<u128>,
    limit: Option<u8>,
    r: Result<BidsByUserQuery, StdError>,
) -> bool {
    if state is Err {
        r == Err::<BidsByUserQuery, StdError>(state->Err_0)
    } else if bidder_check is Err {
        r == Err::<BidsByUserQuery, StdError>(bidder_check->Err_0)
    } else {
        &&& r matches Ok(step)
        &&& step.bidder == bidder_check->Ok_0
        &&& is_queue_query(step.request, state->Ok_0.anc_liq_que_contract@,
                QueueQueryMsg::BidsByUser { collateral_token, bidder: contract_address, start_after, limit })
    }
}

/// Starts answering `GetBidsByUser` from the loaded state and the outcome of
/// validating the bidder.
pub fn query_bids_by_user(
    state: Result<State, StdError>,
    bidder_check: Result<String, StdError>,
    contract_address: String,
    collateral_token: String,
    start_after: Option<u128>,
    limit: Option<u8>,
) -> (r: Result<BidsByUserQuery, StdError>)
    ensures
        query_bids_by_user_outcome(state, bidder_check, contract_address, collateral_token, start_after, limit, r),
{
    if let Err(e) = state {
        return Err(e);
    }
    let bidder = match bidder_check {
        Ok(b) => b,
        Err(e) => return Err(e),
    };
    match query_bids_by_contract(state, contract_address, collateral_token, start_after, limit) {
        Ok(request) => Ok(BidsByUserQuery { request, bidder }),
        Err(e) => Err(e),
    }
}

/// The bid is one of the recorded bid indices.
pub open spec fn is_recorded(recorded: Seq<u128>) -> spec_fn(BidResponse) -> bool {
    |b: BidResponse| recorded.contains(b.idx)
}

/// Whether `idx` is among `recorded`.
pub fn contains_idx(recorded: &Vec<u128>, idx: u128) -> (r: bool)
    ensures
        r == recorded@.contains(idx),
{
    let n = recorded.len();
    let mut i: usize = 0;
    while i < n
        invariant
            n == recorded@.len(),
            i <= n,
            forall|j: int| 0 <= j < i ==> recorded@[j] != idx,
        decreases n - i,
    {
        if recorded[i] == idx {
            return true;
        }
        i = i + 1;
    }
    false
}

/// The bids, in the queue's order, whose index is among `recorded`.
pub fn select_recorded(bids: Vec<BidResponse>, recorded: &Vec<u128>) -> (r: Vec<BidResponse>)
    ensures
        r@ == bids@.filter(is_recorded(recorded@)),
{
    let ghost all = bids@;
    let ghost p = is_recorded(recorded@);
    let mut rest = bids;
    let mut kept: Vec<BidResponse> = Vec::new();
    while rest.len() > 0
        invariant
            p == is_recorded(recorded@),
            kept@ + rest@.filter(p) == all.filter(p),
        decreases rest@.len(),
    {
        let ghost before = rest@;
        let bid = rest.remove(0);
        proof {
            assert(before =~= seq![bid] + rest@);
            rest@.lemma_filter_prepend(bid, p);
        }
        if contains_idx(recorded, bid.idx) {
            proof {
                assert(kept@.push(bid) + rest@.filter(p) =~= kept@ + (seq![bid] + rest@.filter(p)));
            }
            kept.push(bid);
        } else {
            proof {
                assert(Seq::<BidResponse>::empty() + rest@.filter(p) =~= rest@.filter(p));
            }
        }
    }
    proof {
        reveal(Seq::filter);
        assert(kept@ + rest@.filter(p) =~= kept@);
    }
    kept
}

/// `r` is the answer to `GetBidsByUser`, given the liquidation queue's
/// answer `bids` and what loading the bidder's recorded bid indices gave
/// (`None`: nothing recorded).
pub open spec fn filter_bids_by_user_outcome(
    bids: Result<BidsResponse, StdError>,
    recorded: Option<Result<Vec<u128>, StdError>>,
    r: Result<BidsResponse, StdError>,
) -> bool {
    match bids {
        Err(e) => r == Err::<BidsResponse, StdError>(e),
        Ok(answer) => match recorded {
            None => r matches Ok(found) && found.bids@.len() == 0,
            Some(Err(e)) => r == Err::<BidsResponse, StdError>(e),
            Some(Ok(indices)) => r matches Ok(found)
                && found.bids@ == answer.bids@.filter(is_recorded(indices@)),
        },
    }
}

/// Finishes answering `GetBidsByUser`: keeps the bids of the queue's answer
/// that the bidder submitted through the contract.
pub fn filter_bids_by_user(bids: Result<BidsResponse, StdError>, recorded: Option<Result<Vec<u128>, StdError>>) -> (r: Result<BidsResponse, StdError>)
    ensures
        filter_bids_by_user_outcome(bids, recorded, r),
{
    let answer = match bids {
        Ok(a) => a,
        Err(e) => return Err(e),
    };
    match recorded {
        None => Ok(BidsResponse { bids: Vec::new() }),
        Some(Err(e)) => Err(e),
        Some(Ok(indices)) => Ok(BidsResponse { bids: select_recorded(answer.bids, &indices) }),
    }
}

/// What the chain hands a query besides the query itself: this contract's
/// address, the loaded state and admin, and the outcome of validating the
/// address that `bidder_to_check` names for the query.
#[derive(Debug)]
pub struct QueryContext {
    pub contract_address: String,
    pub state: Result<State, StdError>,
    pub admin: Result<Option<String>, StdError>,
    pub bidder_check: Option<Result<String, StdError>>,
}

/// What a handled query asks the caller to do.
#[derive(Debug)]
pub enum QueryOutcome {
    /// Answer with the owner.
    Owner(OwnerResponse),
    /// Answer with the admin.
    Admin(Option<String>),
    /// Ask the bank, and answer with the amount of the balance.
    Balance(ChainQuery),
    /// Ask the liquidation queue, and answer with its answer.
    Forward(ChainQuery),
    /// Ask the liquidation queue, and answer with what `filter_bids_by_user`
    /// keeps of its answer.
    BidsByUser(BidsByUserQuery),
}

/// The denomination of UST balances.
pub open spec fn spec_ust_denom() -> Seq<char> {
    "uusd"@
}

/// The address that a query asks to validate.
pub open spec fn spec_bidder_to_check(msg: QueryMsg) -> Option<String> {
    match msg {
        QueryMsg::GetBidsByUser { bidder, .. } => Some(bidder),
        _ => None,
    }
}

/// The address that a query asks to validate.
pub fn bidder_to_check(msg: &QueryMsg) -> (r: Option<String>)
    ensures
        r == spec_bidder_to_check(*msg),
        match *msg {
            QueryMsg::GetBidsByUser { bidder, .. } => r == Some(bidder),
            _ => r is None,
        },
{
    match msg {
        QueryMsg::GetBidsByUser { bidder, .. } => Some(bidder.clone()),
        _ => None,
    }
}

/// The owner answer of an outcome.
pub open spec fn owner_answered(r: Result<QueryOutcome, StdError>) -> Result<OwnerResponse, StdError> {
    match r {
        Ok(QueryOutcome::Owner(o)) => Ok(o),
        Ok(_) => Ok(OwnerResponse { owner: arbitrary() }),
        Err(e) => Err(e),
    }
}

/// The forwarded question of an outcome.
pub open spec fn forwarded(r: Result<QueryOutcome, StdError>) -> Result<ChainQuery, StdError> {
    match r {
        Ok(QueryOutcome::Forward(q)) => Ok(q),
        Ok(_) => Ok(arbitrary()),
        Err(e) => Err(e),
    }
}

/// The first step of answering `GetBidsByUser`, of an outcome.
pub open spec fn bids_by_user_started(r: Result<QueryOutcome, StdError>) -> Result<BidsByUserQuery, StdError> {
    match r {
        Ok(QueryOutcome::BidsByUser(q)) => Ok(q),
        Ok(_) => Ok(arbitrary()),
        Err(e) => Err(e),
    }
}

/// `r` is the outcome of handling the query `msg` in `ctx`.
pub open spec fn query_outcome(ctx: QueryContext, msg: QueryMsg, r: Result<QueryOutcome, StdError>) -> bool {
    match msg {
        QueryMsg::GetOwner {} => {
            &&& r matches Ok(o) ==> o is Owner
            &&& query_owner_outcome(ctx.state, owner_answered(r))
        },
        QueryMsg::GetAdmin {} => match ctx.admin {
            Ok(a) => r == Ok::<QueryOutcome, StdError>(QueryOutcome::Admin(a)),
            Err(e) => r == Err::<QueryOutcome, StdError>(e),
        },
        QueryMsg::GetUstBalance { account_addr } => {
            &&& r matches Ok(QueryOutcome::Balance(ChainQuery::Balance { address, denom }))
            &&& address == account_addr
            &&& denom@ == "uusd"@
        },
        QueryMsg::GetConfig {} => {
            &&& r matches Ok(o) ==> o is Forward
            &&& queue_query_outcome(ctx.state, QueueQueryMsg::Config {}, forwarded(r))
        },
        QueryMsg::GetBidInfo { bid_idx } => {
            &&& r matches Ok(o) ==> o is Forward
            &&& queue_query_outcome(ctx.state, QueueQueryMsg::Bid { bid_idx }, forwarded(r))
        },
        QueryMsg::GetBidsByContract { collateral_token, start_after, limit } => {
            &&& r matches Ok(o) ==> o is Forward
            &&& queue_query_outcome(ctx.state,
                    QueueQueryMsg::BidsByUser { collateral_token, bidder: ctx.contract_address, start_after, limit },
                    forwarded(r))
        },
        QueryMsg::GetBidsByUser { collateral_token, bidder, start_after, limit } => {
            &&& r matches Ok(o) ==> o is BidsByUser
            &&& query_bids_by_user_outcome(ctx.state, ctx.bidder_check->Some_0, ctx.contract_address,
                    collateral_token, start_after, limit, bids_by_user_started(r))
        },
    }
}

/// Handles a query.
pub fn query(ctx: QueryContext, msg: QueryMsg) -> (r: Result<QueryOutcome, StdError>)
    requires
        ctx.bidder_check is Some <==> spec_bidder_to_check(msg) is Some,
    ensures
        query_outcome(ctx, msg, r),
{
    let QueryContext { contract_address, state, admin, bidder_check } = ctx;
    match msg {
        QueryMsg::GetOwner {} => match query_owner(state) {
            Ok(o) => Ok(QueryOutcome::Owner(o)),
            Err(e) => Err(e),
        },
        QueryMsg::GetAdmin {} => match admin {
            Ok(a) => Ok(QueryOutcome::Admin(a)),
            Err(e) => Err(e),
        },
        QueryMsg::GetUstBalance { account_addr } => {
            Ok(QueryOutcome::Balance(query_balance(account_addr, "uusd".to_owned())))
        },
        QueryMsg::GetConfig {} => match query_config(state) {
            Ok(q) => Ok(QueryOutcome::Forward(q)),
            Err(e) => Err(e),
        },
        QueryMsg::GetBidInfo { bid_idx } => match query_bid_info(state, bid_idx) {
            Ok(q) => Ok(QueryOutcome::Forward(q)),
            Err(e) => Err(e),
        },
        QueryMsg::GetBidsByContract { collateral_token, start_after, limit } => {
            match query_bids_by_contract(state, contract_address, collateral_token, start_after, limit) {
                Ok(q) => Ok(QueryOutcome::Forward(q)),
                Err(e) => Err(e),
            }
        },
        QueryMsg::GetBidsByUser { collateral_token, bidder: _, start_after, limit } => {
            let check = bidder_check.unwrap();
            match query_bids_by_user(state, check, contract_address, collateral_token, start_after, limit) {
                Ok(q) => Ok(QueryOutcome::BidsByUser(q)),
                Err(e) => Err(e),
            }
        },
    }
}

} // verus!
