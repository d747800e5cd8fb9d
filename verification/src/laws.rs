//! Properties of the contract that relate several of its operations.
use vstd::prelude::*;
use cosmwasm_std::StdError;
use crate::contract::{
    checked_forward_outcome, execute_outcome, finish_submit_bid_outcome, forward_outcome, instantiate_outcome, update_admin_outcome,
    spec_address_to_check, spec_is_admin, spec_withdraw_amount, submit_bid_outcome, submit_start_after, withdraw_bluna_outcome, AdminUpdate,
    ExecuteContext, ExecuteOutcome, InstantiateChecks, Instantiated, PendingSubmitBid,
};
use crate::error::ContractError;
use crate::msg::{ExecuteMsg, OwnerResponse, QueryMsg};
use crate::msg_ancliqque::{BidsResponse, ExecuteMsg as QueueExecuteMsg, QueryMsg as QueueQueryMsg};
use crate::query::{
    spec_bids_by_contract, spec_ust_denom, filter_bids_by_user_outcome, is_recorded, query_outcome, query_owner_outcome,
    spec_bidder_to_check, QueryContext, QueryOutcome,
};
use crate::response::{is_queue_call, ChainQuery, Coin, OutgoingMsg, Response};
use crate::state::{spec_contract_name, State};

verus! {

/// The owner of a contract is whoever instantiated it.
pub proof fn lemma_owner_is_instantiator(
    sender: String,
    version: String,
    checks: InstantiateChecks,
    done: Instantiated,
    answer: Result<OwnerResponse, StdError>,
)
    requires
        instantiate_outcome(sender, version, checks, Ok(done)),
        query_owner_outcome(Ok(done.state), answer),
    ensures
        answer == Ok::<OwnerResponse, StdError>(OwnerResponse { owner: sender }),
{
}

/// After instantiation, the admin is the validated admin of the message.
pub proof fn lemma_admin_after_instantiate(
    sender: String,
    version: String,
    checks: InstantiateChecks,
    done: Instantiated,
    ctx: QueryContext,
    answer: Result<QueryOutcome, StdError>,
)
    requires
        instantiate_outcome(sender, version, checks, Ok(done)),
        ctx.admin == Ok::<Option<String>, StdError>(done.admin),
        query_outcome(ctx, QueryMsg::GetAdmin {}, answer),
    ensures
        answer == Ok::<QueryOutcome, StdError>(QueryOutcome::Admin(Some(checks.admin->Ok_0))),
{
}

/// After a successful admin change, the admin is the new admin.
pub proof fn lemma_admin_after_update(
    admin: Result<Option<String>, StdError>,
    sender: String,
    new_admin: String,
    new_admin_check: Result<String, StdError>,
    update: AdminUpdate,
    ctx: QueryContext,
    answer: Result<QueryOutcome, StdError>,
)
    requires
        update_admin_outcome(admin, sender, new_admin, new_admin_check, Ok(update)),
        ctx.admin == Ok::<Option<String>, StdError>(update.admin),
        query_outcome(ctx, QueryMsg::GetAdmin {}, answer),
    ensures
        answer == Ok::<QueryOutcome, StdError>(QueryOutcome::Admin(Some(new_admin))),
{
}

/// Only the current admin can change the admin: anyone else is refused and
/// nothing is saved.
pub proof fn lemma_only_admin_updates(
    current: Option<String>,
    sender: String,
    new_admin: String,
    new_admin_check: Result<String, StdError>,
    r: Result<AdminUpdate, ContractError>,
)
    requires
        update_admin_outcome(Ok(current), sender, new_admin, new_admin_check, r),
        !spec_is_admin(current, sender),
    ensures
        r == Err::<AdminUpdate, ContractError>(ContractError::ArgumentError {}),
{
}

/// Every request the contract forwards goes to the liquidation queue that
/// was validated at instantiation.
pub proof fn lemma_requests_go_to_configured_queue(
    sender: String,
    version: String,
    checks: InstantiateChecks,
    done: Instantiated,
    msg: QueueExecuteMsg,
    funds: Seq<Coin>,
    action: Seq<char>,
    r: Result<Response, ContractError>,
)
    requires
        instantiate_outcome(sender, version, checks, Ok(done)),
        forward_outcome(Ok(done.state), msg, funds, action, r),
    ensures
        r is Ok,
        is_queue_call(r->Ok_0.messages@[0], (checks.anc_liq_que_contract->Ok_0)@, msg, funds),
        r->Ok_0.messages@.len() == 1,
        r->Ok_0.messages@[0] matches OutgoingMsg::LiquidationQueue { contract_addr, msg: sent, funds: paid }
            && contract_addr@ == (checks.anc_liq_que_contract->Ok_0)@ && sent == msg && paid@ == funds,
{
}

/// Filtering a sequence twice by the same test keeps what filtering once
/// keeps.
proof fn lemma_filter_twice<A>(s: Seq<A>, p: spec_fn(A) -> bool)
    ensures
        s.filter(p).filter(p) == s.filter(p),
    decreases s.len(),
{
    reveal(Seq::filter);
    if s.len() > 0 {
        lemma_filter_twice(s.drop_last(), p);
        let inner = s.drop_last().filter(p);
        if p(s.last()) {
            inner.lemma_filter_push(s.last(), p);
        }
    }
}

/// A user's bids are exactly the queue's bids whose index the user has
/// recorded: each returned bid is in the queue's answer with a recorded
/// index, and each such bid of the answer is returned.
pub proof fn lemma_user_bids_are_recorded_bids(
    answer: BidsResponse,
    indices: Vec<u128>,
    r: Result<BidsResponse, StdError>,
)
    requires
        filter_bids_by_user_outcome(Ok(answer), Some(Ok(indices)), r),
    ensures
        r is Ok,
        forall|i: int| 0 <= i < r->Ok_0.bids@.len() ==>
            indices@.contains(#[trigger] r->Ok_0.bids@[i].idx) && answer.bids@.contains(r->Ok_0.bids@[i]),
        forall|i: int| 0 <= i < answer.bids@.len() && indices@.contains(#[trigger] answer.bids@[i].idx) ==>
            r->Ok_0.bids@.contains(answer.bids@[i]),
        r->Ok_0.bids@.len() <= answer.bids@.len(),
{
    let p = is_recorded(indices@);
    let kept = r->Ok_0.bids@;
    broadcast use vstd::seq_lib::group_filter_ensures;
    assert forall|i: int| 0 <= i < kept.len() implies
        indices@.contains(#[trigger] kept[i].idx) && answer.bids@.contains(kept[i]) by {
        answer.bids@.lemma_filter_pred(p, i);
        answer.bids@.lemma_filter_contains_rev(p, kept[i]);
    }
    assert forall|i: int| 0 <= i < answer.bids@.len() && indices@.contains(#[trigger] answer.bids@[i].idx) implies
        kept.contains(answer.bids@[i]) by {
        answer.bids@.lemma_filter_contains(p, i);
    }
    answer.bids@.lemma_filter_len(p);
}

/// Selecting a user's bids from an answer that already holds only that
/// user's bids changes nothing.
pub proof fn lemma_user_bids_selected_once(
    answer: BidsResponse,
    indices: Vec<u128>,
    first: Result<BidsResponse, StdError>,
    second: Result<BidsResponse, StdError>,
)
    requires
        filter_bids_by_user_outcome(Ok(answer), Some(Ok(indices)), first),
        filter_bids_by_user_outcome(first, Some(Ok(indices)), second),
    ensures
        first is Ok,
        second is Ok,
        second->Ok_0.bids@ == first->Ok_0.bids@,
{
    lemma_filter_twice(answer.bids@, is_recorded(indices@));
}

/// After a user's first submission, the user sees exactly the queue's bids
/// with the index of the newest bid the queue reported at submission.
pub proof fn lemma_first_submission_is_visible(
    submitted: BidsResponse,
    saved: Vec<u128>,
    later: BidsResponse,
    r: Result<BidsResponse, StdError>,
)
    requires
        finish_submit_bid_outcome(Ok(submitted), None, Ok(Some(saved))),
        filter_bids_by_user_outcome(Ok(later), Some(Ok(saved)), r),
    ensures
        r is Ok,
        forall|i: int| 0 <= i < r->Ok_0.bids@.len() ==>
            #[trigger] r->Ok_0.bids@[i].idx == submitted.bids@.last().idx,
        forall|i: int| 0 <= i < later.bids@.len() && #[trigger] later.bids@[i].idx == submitted.bids@.last().idx ==>
            r->Ok_0.bids@.contains(later.bids@[i]),
{
    let newest = submitted.bids@.last().idx;
    assert(saved@ == seq![newest]);
    assert forall|x: u128| saved@.contains(x) <==> x == newest by {
        if x == newest {
            assert(saved@[0] == x);
        }
    }
    lemma_user_bids_are_recorded_bids(later, saved, r);
}

/// Instantiation fails with the error of the first address that does not
/// validate, in the order queue, bLuna token, router, admin; when all
/// validate, the state holds the sender as owner and the validated
/// addresses, the admin is the validated admin, no bid is recorded yet, and
/// the contract is named `crates.io:liquidproof` with the given version.
pub proof fn lemma_instantiate_checks_in_order(
    sender: String,
    version: String,
    checks: InstantiateChecks,
    r: Result<Instantiated, ContractError>,
)
    requires
        instantiate_outcome(sender, version, checks, r),
    ensures
        checks.anc_liq_que_contract matches Err(e)
            ==> r == Err::<Instantiated, ContractError>(ContractError::Std(e)),
        checks.anc_liq_que_contract is Ok && checks.bluna_contract is Err
            ==> r == Err::<Instantiated, ContractError>(ContractError::Std(checks.bluna_contract->Err_0)),
        checks.anc_liq_que_contract is Ok && checks.bluna_contract is Ok
            && checks.astroport_router is Err
            ==> r == Err::<Instantiated, ContractError>(ContractError::Std(checks.astroport_router->Err_0)),
        checks.anc_liq_que_contract is Ok && checks.bluna_contract is Ok
            && checks.astroport_router is Ok && checks.admin is Err
            ==> r == Err::<Instantiated, ContractError>(ContractError::Std(checks.admin->Err_0)),
        r matches Ok(done) ==> {
            &&& checks.anc_liq_que_contract == Ok::<String, StdError>(done.state.anc_liq_que_contract)
            &&& checks.bluna_contract == Ok::<String, StdError>(done.state.bluna_contract)
            &&& checks.astroport_router == Ok::<String, StdError>(done.state.astroport_router)
            &&& checks.admin matches Ok(a) && done.admin == Some(a)
            &&& done.state.owner == sender
            &&& done.state.last_bid_idx == 0
            &&& done.contract_version.contract@ == "crates.io:liquidproof"@
            &&& done.contract_version.version == version
            &&& done.response.messages@.len() == 0
        },
        (checks.anc_liq_que_contract is Ok && checks.bluna_contract is Ok
            && checks.astroport_router is Ok && checks.admin is Ok) ==> r is Ok,
{
}

/// `caller` counts as the admin exactly when an admin is recorded and its
/// address is the caller's address, character for character.
pub proof fn lemma_admin_is_the_recorded_address(admin: Option<String>, caller: String)
    ensures
        spec_is_admin(admin, caller) <==> (admin is Some && admin->Some_0@ == caller@),
        admin is None ==> !spec_is_admin(admin, caller),
{
}

/// An admin change is accepted exactly when the new admin validates and
/// the sender's address is the recorded admin's address; then the new
/// admin is the one named in the message. Any other sender is refused with
/// `ArgumentError` and nothing is saved.
pub proof fn lemma_update_admin_accepts_exactly_the_admin(
    admin: Result<Option<String>, StdError>,
    sender: String,
    new_admin: String,
    new_admin_check: Result<String, StdError>,
    r: Result<AdminUpdate, ContractError>,
)
    requires
        update_admin_outcome(admin, sender, new_admin, new_admin_check, r),
    ensures
        r is Ok <==> (new_admin_check is Ok && admin is Ok && admin->Ok_0 is Some
            && admin->Ok_0->Some_0@ == sender@),
        r matches Ok(u) ==> u.admin == Some(new_admin) && u.response.messages@.len() == 0,
        r is Err ==> r == Err::<AdminUpdate, ContractError>(ContractError::ArgumentError {}),
        forall|a: String| admin == Ok::<Option<String>, StdError>(Some(a)) && a@ != sender@ ==>
            r == Err::<AdminUpdate, ContractError>(ContractError::ArgumentError {}),
{
}

/// The address an execute message asks to validate is the message's own
/// address argument: the new admin, or the collateral token; a retraction
/// asks for none.
pub proof fn lemma_execute_checks_the_message_address(msg: ExecuteMsg)
    ensures
        msg matches ExecuteMsg::UpdateAdmin { new_admin } ==> spec_address_to_check(msg) == Some(new_admin),
        msg matches ExecuteMsg::SubmitBid { collateral_token, .. }
            ==> spec_address_to_check(msg) == Some(collateral_token),
        msg matches ExecuteMsg::ActivateBids { collateral_token, .. }
            ==> spec_address_to_check(msg) == Some(collateral_token),
        msg matches ExecuteMsg::ClaimLiquidations { collateral_token, .. }
            ==> spec_address_to_check(msg) == Some(collateral_token),
        msg is RetractBid ==> spec_address_to_check(msg) is None,
{
}

/// A submission pays the queue with the sender's funds, and then lists this
/// contract's bids on the same collateral, after the last recorded bid (from
/// the start when none is recorded), with no limit.
pub proof fn lemma_submission_lists_the_contracts_bids(
    s: State,
    funds: Seq<Coin>,
    contract_address: String,
    collateral_token: String,
    premium_slot: u8,
    checked: String,
    r: Result<PendingSubmitBid, ContractError>,
)
    requires
        submit_bid_outcome(Ok(s), funds, contract_address, collateral_token, premium_slot,
            Ok(checked), r),
    ensures
        r is Ok,
        r->Ok_0.response.messages@[0] matches OutgoingMsg::LiquidationQueue { contract_addr, msg, funds: paid }
            && contract_addr@ == s.anc_liq_que_contract@ && paid@ == funds
            && msg == (QueueExecuteMsg::SubmitBid { collateral_token, premium_slot }),
        r->Ok_0.bids_query matches ChainQuery::LiquidationQueue {
            contract_addr,
            msg: QueueQueryMsg::BidsByUser { collateral_token: token, bidder, start_after, limit },
        } && {
            &&& contract_addr@ == s.anc_liq_que_contract@
            &&& token == collateral_token
            &&& bidder == contract_address
            &&& limit is None
            &&& s.last_bid_idx == 0 ==> start_after is None
            &&& s.last_bid_idx != 0 ==> start_after == Some(s.last_bid_idx)
        },
{
}

/// The address a query asks to validate is the bidder of `GetBidsByUser`,
/// and no other query asks for one.
pub proof fn lemma_query_checks_the_bidder(msg: QueryMsg)
    ensures
        msg matches QueryMsg::GetBidsByUser { bidder, .. } ==> spec_bidder_to_check(msg) == Some(bidder),
        !(msg is GetBidsByUser) ==> spec_bidder_to_check(msg) is None,
{
}

/// Listing a user's bids validates the user named in the query, looks up
/// the record of the validated user, and asks the queue for this contract's
/// bids on the same collateral with the caller's paging unchanged.
pub proof fn lemma_bids_by_user_looks_up_the_bidder(
    ctx: QueryContext,
    collateral_token: String,
    bidder: String,
    start_after: Option<u128>,
    limit: Option<u8>,
    validated: String,
    r: Result<QueryOutcome, StdError>,
)
    requires
        ctx.state is Ok,
        ctx.bidder_check == Some(Ok::<String, StdError>(validated)),
        query_outcome(ctx, QueryMsg::GetBidsByUser { collateral_token, bidder, start_after, limit }, r),
    ensures
        spec_bidder_to_check(QueryMsg::GetBidsByUser { collateral_token, bidder, start_after, limit })
            == Some(bidder),
        r matches Ok(QueryOutcome::BidsByUser(step)) && (step.bidder == validated
            && (step.request matches ChainQuery::LiquidationQueue {
                contract_addr,
                msg: QueueQueryMsg::BidsByUser { collateral_token: token, bidder: asked, start_after: after, limit: most },
            } && {
                &&& contract_addr@ == ctx.state->Ok_0.anc_liq_que_contract@
                &&& token == collateral_token
                &&& asked == ctx.contract_address
                &&& after == start_after
                &&& most == limit
            })),
{
}

/// Listing the contract's bids asks the queue for the bids that this
/// contract holds on the collateral, with the caller's paging unchanged.
pub proof fn lemma_bids_by_contract_keeps_paging(
    ctx: QueryContext,
    collateral_token: String,
    start_after: Option<u128>,
    limit: Option<u8>,
    r: Result<QueryOutcome, StdError>,
)
    requires
        ctx.state is Ok,
        query_outcome(ctx, QueryMsg::GetBidsByContract { collateral_token, start_after, limit }, r),
    ensures
        r matches Ok(QueryOutcome::Forward(ChainQuery::LiquidationQueue {
            contract_addr,
            msg: QueueQueryMsg::BidsByUser { collateral_token: token, bidder: asked, start_after: after, limit: most },
        })) && {
            &&& contract_addr@ == ctx.state->Ok_0.anc_liq_que_contract@
            &&& token == collateral_token
            &&& asked == ctx.contract_address
            &&& after == start_after
            &&& most == limit
        },
{
}

/// A UST balance query asks the bank for the account's `uusd` balance.
pub proof fn lemma_balance_is_in_uusd(ctx: QueryContext, account_addr: String, r: Result<QueryOutcome, StdError>)
    requires
        query_outcome(ctx, QueryMsg::GetUstBalance { account_addr }, r),
    ensures
        r matches Ok(QueryOutcome::Balance(ChainQuery::Balance { address, denom }))
            && address == account_addr && denom@ == "uusd"@,
{
}

/// A bLuna withdrawal sends one transfer of 10 000 000 from the configured
/// bLuna token contract to the empty recipient, with no funds attached.
pub proof fn lemma_withdrawal_amount(s: State, r: Result<Response, ContractError>)
    requires
        withdraw_bluna_outcome(Ok(s), r),
    ensures
        r is Ok,
        r->Ok_0.messages@.len() == 1,
        r->Ok_0.messages@[0] matches OutgoingMsg::Token { contract_addr, transfer, funds }
            && contract_addr@ == s.bluna_contract@ && transfer.amount == 10_000_000
            && transfer.recipient@.len() == 0 && funds@.len() == 0,
{
}

/// The constants of the contract: its recorded name, the UST denomination,
/// the amount of a bLuna withdrawal, where a submission's listing starts,
/// and the queue question for the contract's own bids.
pub proof fn lemma_contract_constants(
    last_bid_idx: u128,
    contract_address: String,
    collateral_token: String,
    start_after: Option<u128>,
    limit: Option<u8>,
)
    ensures
        spec_contract_name() == "crates.io:liquidproof"@,
        spec_ust_denom() == "uusd"@,
        spec_withdraw_amount() == 10_000_000,
        last_bid_idx == 0 ==> submit_start_after(last_bid_idx) is None,
        last_bid_idx != 0 ==> submit_start_after(last_bid_idx) == Some(last_bid_idx),
        spec_bids_by_contract(contract_address, collateral_token, start_after, limit)
            == (QueueQueryMsg::BidsByUser { collateral_token, bidder: contract_address, start_after, limit }),
{
}

/// A forwarded request sends exactly one message: to the liquidation queue
/// named in the state, carrying the request and the given funds; and it
/// reports the single attribute `("action", action)`. A failed collateral
/// check refuses the request with `ArgumentError`, whatever the state.
pub proof fn lemma_forward_sends_the_request(
    token_check: Result<String, StdError>,
    state: Result<State, StdError>,
    msg: QueueExecuteMsg,
    funds: Seq<Coin>,
    action: Seq<char>,
    r: Result<Response, ContractError>,
)
    requires
        checked_forward_outcome(token_check, state, msg, funds, action, r),
    ensures
        token_check is Err ==> r == Err::<Response, ContractError>(ContractError::ArgumentError {}),
        token_check is Ok && state is Err
            ==> r == Err::<Response, ContractError>(ContractError::Std(state->Err_0)),
        token_check is Ok && state is Ok ==> {
            &&& r is Ok
            &&& r->Ok_0.messages@.len() == 1
            &&& r->Ok_0.messages@[0] matches OutgoingMsg::LiquidationQueue { contract_addr, msg: sent, funds: paid }
                && contract_addr@ == state->Ok_0.anc_liq_que_contract@ && sent == msg && paid@ == funds
            &&& r->Ok_0.attributes@.len() == 1
            &&& r->Ok_0.attributes@[0].key@ == "action"@
            &&& r->Ok_0.attributes@[0].value@ == action
        },
{
    if token_check is Ok && state is Ok {
        let resp = r->Ok_0;
        assert(resp.attribute_views().len() == 1);
        assert(resp.attributes@.len() == 1);
        assert(resp.attribute_views()[0] == (resp.attributes@[0].key@, resp.attributes@[0].value@));
        assert(resp.attribute_views()[0] == ("action"@, action));
    }
}

/// An `UpdateAdmin` message changes the admin to the named one exactly when
/// its sender is the recorded admin and the name validates; otherwise it is
/// refused with `ArgumentError`.
pub proof fn lemma_execute_update_admin(
    ctx: ExecuteContext,
    new_admin: String,
    r: Result<ExecuteOutcome, ContractError>,
)
    requires
        ctx.address_check is Some,
        execute_outcome(ctx, ExecuteMsg::UpdateAdmin { new_admin }, r),
    ensures
        (ctx.address_check->Some_0 is Ok && ctx.admin is Ok && ctx.admin->Ok_0 is Some
            && ctx.admin->Ok_0->Some_0@ == ctx.sender@) ==> (r matches Ok(ExecuteOutcome::UpdateAdmin(u))
                && u.admin == Some(new_admin)),
        !(ctx.address_check->Some_0 is Ok && ctx.admin is Ok && ctx.admin->Ok_0 is Some
            && ctx.admin->Ok_0->Some_0@ == ctx.sender@)
            ==> r == Err::<ExecuteOutcome, ContractError>(ContractError::ArgumentError {}),
{
}

/// An `ActivateBids` message with a valid collateral and a readable state
/// answers directly with one request to the configured queue, carrying the
/// same collateral and bid indices and no funds.
pub proof fn lemma_execute_activate(
    ctx: ExecuteContext,
    collateral_token: String,
    bids_idx: Option<Vec<u128>>,
    r: Result<ExecuteOutcome, ContractError>,
)
    requires
        ctx.address_check matches Some(Ok(_)),
        ctx.state is Ok,
        execute_outcome(ctx, ExecuteMsg::ActivateBids { collateral_token, bids_idx }, r),
    ensures
        r matches Ok(ExecuteOutcome::Respond(resp)) && (resp.messages@.len() == 1
            && (resp.messages@[0] matches OutgoingMsg::LiquidationQueue { contract_addr, msg, funds }
            && contract_addr@ == ctx.state->Ok_0.anc_liq_que_contract@
            && msg == (QueueExecuteMsg::ActivateBids { collateral_token, bids_idx })
            && funds@.len() == 0)),
{
}

/// A `SubmitBid` message with a valid collateral and a readable state sends
/// the sender's funds to the configured queue with the same collateral and
/// premium slot, and waits for the queue's listing of the contract's bids.
pub proof fn lemma_execute_submit(
    ctx: ExecuteContext,
    collateral_token: String,
    premium_slot: u8,
    r: Result<ExecuteOutcome, ContractError>,
)
    requires
        ctx.address_check matches Some(Ok(_)),
        ctx.state is Ok,
        execute_outcome(ctx, ExecuteMsg::SubmitBid { collateral_token, premium_slot }, r),
    ensures
        r matches Ok(ExecuteOutcome::SubmitBid(pending)) && (pending.response.messages@.len() == 1
            && (pending.response.messages@[0] matches OutgoingMsg::LiquidationQueue { contract_addr, msg, funds }
            && contract_addr@ == ctx.state->Ok_0.anc_liq_que_contract@
            && msg == (QueueExecuteMsg::SubmitBid { collateral_token, premium_slot })
            && funds@ == ctx.funds@)),
{
}

/// The owner query answers the owner saved in the state.
pub proof fn lemma_query_owner_answers_saved_owner(ctx: QueryContext, r: Result<QueryOutcome, StdError>)
    requires
        ctx.state is Ok,
        query_outcome(ctx, QueryMsg::GetOwner {}, r),
    ensures
        r == Ok::<QueryOutcome, StdError>(QueryOutcome::Owner(OwnerResponse { owner: ctx.state->Ok_0.owner })),
{
}

/// The configuration and bid queries ask the configured queue for its
/// configuration, and for the bid with the given index.
pub proof fn lemma_queue_questions(
    ctx: QueryContext,
    bid_idx: u128,
    config: Result<QueryOutcome, StdError>,
    bid: Result<QueryOutcome, StdError>,
)
    requires
        ctx.state is Ok,
        query_outcome(ctx, QueryMsg::GetConfig {}, config),
        query_outcome(ctx, QueryMsg::GetBidInfo { bid_idx }, bid),
    ensures
        config matches Ok(QueryOutcome::Forward(ChainQuery::LiquidationQueue { contract_addr, msg }))
            && contract_addr@ == ctx.state->Ok_0.anc_liq_que_contract@ && msg == (QueueQueryMsg::Config {}),
        bid matches Ok(QueryOutcome::Forward(ChainQuery::LiquidationQueue { contract_addr, msg }))
            && contract_addr@ == ctx.state->Ok_0.anc_liq_que_contract@ && msg == (QueueQueryMsg::Bid { bid_idx }),
{
}

} // verus!
