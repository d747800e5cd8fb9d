use cosmwasm_std::testing::{mock_info, MockApi, MOCK_CONTRACT_ADDR};
use cosmwasm_std::{coins, Api, StdError, Uint256};

use liquidproof::contract::{
    address_to_check, execute, finish_submit_bid, instantiate, is_admin, try_activate_bid,
    try_claim_liquidation, try_retract_bid, try_submit_bid, try_update_admin, withdraw_bluna,
    ExecuteContext, ExecuteOutcome, InstantiateChecks, Instantiated,
};
use liquidproof::msg::{ExecuteMsg, InstantiateMsg, QueryMsg};
use liquidproof::msg_ancliqque::{BidsResponse, ExecuteMsg as QueueExecuteMsg, QueryMsg as QueueQueryMsg};
use liquidproof::query::{query, QueryContext, QueryOutcome};
use liquidproof::response::{ChainQuery, Coin, OutgoingMsg, Response};
use liquidproof::state::{contract_name, State};
use liquidproof::ContractError;

const ANC_LIQ_QUE: &str = "terra18j0wd0f62afcugw2rx5y8e6j5qjxd7d6qsc87r";
const BLUNA: &str = "terra1u0t35drzyy0mujj8rkdyzhe264uls4ug3wdp3x";
const ROUTER: &str = "terra13wf295fj9u209nknz2cgqmmna7ry3d3j5kv7t4";

fn validate(addr: &str) -> Result<String, StdError> {
    MockApi::default().addr_validate(addr).map(|a| a.into_string())
}

fn instantiate_msg() -> InstantiateMsg {
    InstantiateMsg {
        admin: "admin".to_string(),
        anc_liq_que_contract: ANC_LIQ_QUE.to_string(),
        bluna_contract: BLUNA.to_string(),
        astroport_router: ROUTER.to_string(),
    }
}

fn checks_for(msg: &InstantiateMsg) -> InstantiateChecks {
    InstantiateChecks {
        anc_liq_que_contract: validate(&msg.anc_liq_que_contract),
        bluna_contract: validate(&msg.bluna_contract),
        astroport_router: validate(&msg.astroport_router),
        admin: validate(&msg.admin),
    }
}

fn setup_test(sender: &str) -> Instantiated {
    let msg = instantiate_msg();
    let checks = checks_for(&msg);
    let res = instantiate(sender.to_string(), "0.1.0".to_string(), checks).unwrap();
    assert_eq!(0, res.response.messages.len());
    res
}

fn attrs(resp: &Response) -> Vec<(String, String)> {
    resp.attributes.iter().map(|a| (a.key.clone(), a.value.clone())).collect()
}

fn query_ctx(done: &Instantiated, admin: Option<String>) -> QueryContext {
    QueryContext {
        contract_address: MOCK_CONTRACT_ADDR.to_string(),
        state: Ok(done.state.clone()),
        admin: Ok(admin),
        bidder_check: None,
    }
}

fn execute_ctx(sender: &str, funds: Vec<Coin>, state: Result<State, StdError>, admin: Result<Option<String>, StdError>, msg: &ExecuteMsg) -> ExecuteContext {
    ExecuteContext {
        sender: sender.to_string(),
        funds,
        contract_address: MOCK_CONTRACT_ADDR.to_string(),
        state,
        admin,
        address_check: address_to_check(msg).map(|a| validate(&a)),
    }
}

fn queried_admin(ctx: QueryContext) -> Option<String> {
    match query(ctx, QueryMsg::GetAdmin {}).unwrap() {
        QueryOutcome::Admin(a) => a,
        _ => panic!("not an admin answer"),
    }
}

#[test]
fn proper_initialization() {
    let info = mock_info("creator", &coins(2, "token"));
    let sender = info.sender.to_string();
    let done = setup_test(&sender);

    let old_admin_addr = "admin".to_string();

    // query the owner
    match query(query_ctx(&done, done.admin.clone()), QueryMsg::GetOwner {}).unwrap() {
        QueryOutcome::Owner(value) => assert_eq!(sender, value.owner),
        _ => panic!("not an owner answer"),
    }

    // query the admin
    let value = queried_admin(query_ctx(&done, done.admin.clone()));
    assert_eq!(old_admin_addr, value.unwrap());

    // update the admin
    let new_admin_info = mock_info("admin2", &coins(2, "token"));
    let msg = ExecuteMsg::UpdateAdmin { new_admin: new_admin_info.sender.to_string() };
    let old_admin_info = mock_info("admin", &coins(2, "token"));
    let funds = vec![Coin { denom: "token".to_string(), amount: 2 }];
    let ctx = execute_ctx(old_admin_info.sender.as_str(), funds, Ok(done.state.clone()), Ok(done.admin.clone()), &msg);
    let update = match execute(ctx, msg).unwrap() {
        ExecuteOutcome::UpdateAdmin(u) => u,
        _ => panic!("not an admin update"),
    };
    assert_eq!(0, update.response.messages.len());

    // query the admin
    let value = queried_admin(query_ctx(&done, update.admin.clone()));
    assert_eq!(new_admin_info.sender.to_string(), value.unwrap());
}

#[test]
fn balance_related() {
    let info = mock_info("creator", &coins(99, "uusd"));
    let sender = info.sender.to_string();
    let _done = setup_test(&sender);
    assert_eq!(info.funds, coins(99, "uusd"));
}

#[test]
fn instantiate_records_configuration() {
    let done = setup_test("creator");
    assert_eq!(
        done.state,
        State {
            owner: "creator".to_string(),
            anc_liq_que_contract: ANC_LIQ_QUE.to_string(),
            bluna_contract: BLUNA.to_string(),
            astroport_router: ROUTER.to_string(),
            last_bid_idx: 0,
        }
    );
    assert_eq!(done.admin, Some("admin".to_string()));
    assert_eq!(done.contract_version.contract, "crates.io:liquidproof");
    assert_eq!(done.contract_version.version, "0.1.0");
    assert_eq!(contract_name(), "crates.io:liquidproof");
    assert_eq!(
        attrs(&done.response),
        vec![
            ("method".to_string(), "instantiate".to_string()),
            ("owner".to_string(), "creator".to_string()),
        ]
    );
}

fn std_message(e: ContractError) -> String {
    match e {
        ContractError::Std(e) => e.to_string(),
        other => panic!("expected a chain error, got {:?}", other),
    }
}

#[test]
fn instantiate_reports_first_bad_address() {
    // too short, then not normalized: the first one is reported
    let mut msg = instantiate_msg();
    msg.anc_liq_que_contract = "ab".to_string();
    msg.bluna_contract = "Terra1".to_string();
    let checks = checks_for(&msg);
    let err = instantiate("creator".to_string(), "0.1.0".to_string(), checks).unwrap_err();
    assert!(std_message(err).contains("too short"));

    let mut msg = instantiate_msg();
    msg.bluna_contract = "Terra1".to_string();
    msg.admin = "ad".to_string();
    let checks = checks_for(&msg);
    let err = instantiate("creator".to_string(), "0.1.0".to_string(), checks).unwrap_err();
    assert!(std_message(err).contains("not normalized"));

    let mut msg = instantiate_msg();
    msg.astroport_router = "xY".to_string();
    let checks = checks_for(&msg);
    let err = instantiate("creator".to_string(), "0.1.0".to_string(), checks).unwrap_err();
    assert!(std_message(err).contains("too short"));

    let mut msg = instantiate_msg();
    msg.admin = "ad".to_string();
    let checks = checks_for(&msg);
    let err = instantiate("creator".to_string(), "0.1.0".to_string(), checks).unwrap_err();
    assert!(std_message(err).contains("too short"));
}

#[test]
fn admin_checks() {
    assert!(is_admin(&Some("admin".to_string()), &"admin".to_string()));
    assert!(!is_admin(&Some("admin".to_string()), &"admin2".to_string()));
    assert!(!is_admin(&None, &"admin".to_string()));
}

#[test]
fn update_admin_refusals() {
    let current = Ok(Some("admin".to_string()));
    // not the admin
    let r = try_update_admin(current, "other".to_string(), "admin2".to_string(), validate("admin2"));
    assert!(matches!(r, Err(ContractError::ArgumentError {})));
    // invalid new admin
    let r = try_update_admin(Ok(Some("admin".to_string())), "admin".to_string(), "A".to_string(), validate("A"));
    assert!(matches!(r, Err(ContractError::ArgumentError {})));
    // no admin at all
    let r = try_update_admin(Ok(None), "admin".to_string(), "admin2".to_string(), validate("admin2"));
    assert!(matches!(r, Err(ContractError::ArgumentError {})));
    // the admin cannot be read
    let r = try_update_admin(Err(StdError::not_found("admin")), "admin".to_string(), "admin2".to_string(), validate("admin2"));
    assert!(matches!(r, Err(ContractError::ArgumentError {})));
    // the admin itself
    let u = try_update_admin(Ok(Some("admin".to_string())), "admin".to_string(), "admin2".to_string(), validate("admin2")).unwrap();
    assert_eq!(u.admin, Some("admin2".to_string()));
    assert_eq!(attrs(&u.response), vec![("method".to_string(), "try_update_admin".to_string())]);
}

fn single_queue_call(resp: &Response) -> (&String, &QueueExecuteMsg, &Vec<Coin>) {
    assert_eq!(resp.messages.len(), 1);
    match &resp.messages[0] {
        OutgoingMsg::LiquidationQueue { contract_addr, msg, funds } => (contract_addr, msg, funds),
        other => panic!("unexpected message {:?}", other),
    }
}

#[test]
fn submit_bid_forwards_funds_and_asks_for_bids() {
    let done = setup_test("creator");
    let funds = vec![Coin { denom: "uusd".to_string(), amount: 1_000_000 }];
    let pending = try_submit_bid(
        Ok(done.state.clone()),
        funds.clone(),
        MOCK_CONTRACT_ADDR.to_string(),
        BLUNA.to_string(),
        3,
        validate(BLUNA),
    )
    .unwrap();
    let (addr, msg, sent) = single_queue_call(&pending.response);
    assert_eq!(addr, ANC_LIQ_QUE);
    assert_eq!(msg, &QueueExecuteMsg::SubmitBid { collateral_token: BLUNA.to_string(), premium_slot: 3 });
    assert_eq!(sent, &funds);
    assert_eq!(attrs(&pending.response), vec![("action".to_string(), "deposit to project".to_string())]);
    assert_eq!(
        pending.bids_query,
        ChainQuery::LiquidationQueue {
            contract_addr: ANC_LIQ_QUE.to_string(),
            msg: QueueQueryMsg::BidsByUser {
                collateral_token: BLUNA.to_string(),
                bidder: MOCK_CONTRACT_ADDR.to_string(),
                start_after: None,
                limit: None,
            },
        }
    );

    // a recorded last bid index starts the listing after it
    let mut state = done.state.clone();
    state.last_bid_idx = 42;
    let pending = try_submit_bid(Ok(state), vec![], MOCK_CONTRACT_ADDR.to_string(), BLUNA.to_string(), 1, validate(BLUNA)).unwrap();
    match pending.bids_query {
        ChainQuery::LiquidationQueue { msg: QueueQueryMsg::BidsByUser { start_after, .. }, .. } => {
            assert_eq!(start_after, Some(42))
        }
        other => panic!("unexpected query {:?}", other),
    }
}

#[test]
fn submit_bid_refusals() {
    let done = setup_test("creator");
    let r = try_submit_bid(Ok(done.state.clone()), vec![], MOCK_CONTRACT_ADDR.to_string(), "X".to_string(), 1, validate("X"));
    assert!(matches!(r, Err(ContractError::ArgumentError {})));
    // the address check comes before reading the state
    let r = try_submit_bid(Err(StdError::not_found("state")), vec![], MOCK_CONTRACT_ADDR.to_string(), "X".to_string(), 1, validate("X"));
    assert!(matches!(r, Err(ContractError::ArgumentError {})));
    let r = try_submit_bid(Err(StdError::not_found("state")), vec![], MOCK_CONTRACT_ADDR.to_string(), BLUNA.to_string(), 1, validate(BLUNA));
    assert!(std_message(r.err().unwrap()).contains("not found"));
}

#[test]
fn activate_and_claim_forward_to_queue() {
    let done = setup_test("creator");
    let r = try_activate_bid(Ok(done.state.clone()), BLUNA.to_string(), Some(vec![1, 2]), validate(BLUNA)).unwrap();
    let (addr, msg, funds) = single_queue_call(&r);
    assert_eq!(addr, ANC_LIQ_QUE);
    assert_eq!(msg, &QueueExecuteMsg::ActivateBids { collateral_token: BLUNA.to_string(), bids_idx: Some(vec![1, 2]) });
    assert!(funds.is_empty());
    assert_eq!(attrs(&r), vec![("action".to_string(), "activate bid".to_string())]);

    let r = try_claim_liquidation(Ok(done.state.clone()), BLUNA.to_string(), None, validate(BLUNA)).unwrap();
    let (addr, msg, funds) = single_queue_call(&r);
    assert_eq!(addr, ANC_LIQ_QUE);
    assert_eq!(msg, &QueueExecuteMsg::ClaimLiquidations { collateral_token: BLUNA.to_string(), bids_idx: None });
    assert!(funds.is_empty());
    assert_eq!(attrs(&r), vec![("action".to_string(), "claim liquidation".to_string())]);

    let r = try_activate_bid(Ok(done.state.clone()), "Q".to_string(), None, validate("Q"));
    assert!(matches!(r, Err(ContractError::ArgumentError {})));
    let r = try_claim_liquidation(Ok(done.state.clone()), "Q".to_string(), None, validate("Q"));
    assert!(matches!(r, Err(ContractError::ArgumentError {})));
    let r = try_claim_liquidation(Err(StdError::not_found("state")), BLUNA.to_string(), None, validate(BLUNA));
    assert!(matches!(r, Err(ContractError::Std(_))));
}

#[test]
fn retract_forwards_amount() {
    let done = setup_test("creator");
    let amount = Some(Uint256::from(500u128));
    let r = try_retract_bid(Ok(done.state.clone()), 7, amount).unwrap();
    let (addr, msg, funds) = single_queue_call(&r);
    assert_eq!(addr, ANC_LIQ_QUE);
    assert_eq!(msg, &QueueExecuteMsg::RetractBid { bid_idx: 7, amount: Some(Uint256::from(500u128)) });
    assert!(funds.is_empty());
    assert_eq!(attrs(&r), vec![("action".to_string(), "deposit to project".to_string())]);
    let r = try_retract_bid(Err(StdError::not_found("state")), 7, None);
    assert!(matches!(r, Err(ContractError::Std(_))));
}

#[test]
fn withdraw_bluna_transfers_fixed_amount() {
    let done = setup_test("creator");
    let r = withdraw_bluna(Ok(done.state.clone())).unwrap();
    assert_eq!(r.messages.len(), 1);
    match &r.messages[0] {
        OutgoingMsg::Token { contract_addr, transfer, funds } => {
            assert_eq!(contract_addr, BLUNA);
            assert_eq!(transfer.recipient, "");
            assert_eq!(transfer.amount, 10_000_000);
            assert!(funds.is_empty());
        }
        other => panic!("unexpected message {:?}", other),
    }
    assert!(r.attributes.is_empty());
    assert!(matches!(withdraw_bluna(Err(StdError::not_found("state"))), Err(ContractError::Std(_))));
}

#[test]
fn execute_dispatches() {
    let done = setup_test("creator");
    let msg = ExecuteMsg::RetractBid { bid_idx: 3, amount: None };
    let ctx = execute_ctx("creator", vec![], Ok(done.state.clone()), Ok(done.admin.clone()), &msg);
    assert!(ctx.address_check.is_none());
    match execute(ctx, msg).unwrap() {
        ExecuteOutcome::Respond(r) => {
            let (_, m, _) = single_queue_call(&r);
            assert_eq!(m, &QueueExecuteMsg::RetractBid { bid_idx: 3, amount: None });
        }
        _ => panic!("expected a direct answer"),
    }

    let msg = ExecuteMsg::SubmitBid { collateral_token: BLUNA.to_string(), premium_slot: 2 };
    let ctx = execute_ctx("creator", vec![], Ok(done.state.clone()), Ok(done.admin.clone()), &msg);
    assert!(matches!(execute(ctx, msg), Ok(ExecuteOutcome::SubmitBid(_))));

    let msg = ExecuteMsg::ActivateBids { collateral_token: "X".to_string(), bids_idx: None };
    let ctx = execute_ctx("creator", vec![], Ok(done.state.clone()), Ok(done.admin.clone()), &msg);
    assert!(matches!(execute(ctx, msg), Err(ContractError::ArgumentError {})));

    let msg = ExecuteMsg::UpdateAdmin { new_admin: "admin2".to_string() };
    let ctx = execute_ctx("creator", vec![], Ok(done.state.clone()), Ok(done.admin.clone()), &msg);
    assert!(matches!(execute(ctx, msg), Err(ContractError::ArgumentError {})));
}

#[test]
fn finish_submit_bid_records_first_bid_only() {
    let answer = || BidsResponse { bids: vec![queue_bid(4, "b"), queue_bid(9, "b")] };
    assert_eq!(finish_submit_bid(Ok(answer()), None).unwrap(), Some(vec![9]));
    assert_eq!(finish_submit_bid(Ok(answer()), Some(Ok(vec![1]))).unwrap(), None);
    assert_eq!(finish_submit_bid(Ok(BidsResponse { bids: vec![] }), None).unwrap(), None);
    assert!(matches!(finish_submit_bid(Ok(answer()), Some(Err(StdError::not_found("entry")))), Err(ContractError::Std(_))));
    assert!(matches!(finish_submit_bid(Err(StdError::generic_err("no answer")), None), Err(ContractError::Std(_))));
}

fn queue_bid(idx: u128, bidder: &str) -> liquidproof::msg_ancliqque::BidResponse {
    liquidproof::msg_ancliqque::BidResponse {
        idx,
        collateral_token: BLUNA.to_string(),
        premium_slot: 1,
        bidder: bidder.to_string(),
        amount: Uint256::from(100u128),
        product_snapshot: cosmwasm_std::Decimal256::one(),
        sum_snapshot: cosmwasm_std::Decimal256::zero(),
        pending_liquidated_collateral: Uint256::zero(),
        wait_end: None,
        epoch_snapshot: 0,
        scale_snapshot: 0,
    }
}
