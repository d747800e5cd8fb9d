//! What a handled message produces: the messages the contract sends and the
//! attributes it reports, and the questions it asks other contracts.
use vstd::prelude::*;
use crate::msg_ancliqque::{ExecuteMsg as QueueExecuteMsg, QueryMsg as QueueQueryMsg};

verus! {

/// A key/value pair reported with a response.
#[derive(Clone, Debug, PartialEq)]
pub struct Attribute {
    pub key: String,
    pub value: String,
}

/// An amount of one native denomination.
#[derive(Clone, Debug, PartialEq)]
pub struct Coin {
    pub denom: String,
    pub amount: u128,
}

/// A token transfer, as a token contract accepts it.
#[derive(Clone, Debug, PartialEq)]
pub struct Cw20Transfer {
    pub recipient: String,
    pub amount: u128,
}

/// A message the contract sends to another contract.
#[derive(Debug, PartialEq)]
pub enum OutgoingMsg {
    /// A request to the liquidation queue.
    LiquidationQueue { contract_addr: String, msg: QueueExecuteMsg, funds: Vec<Coin> },
    /// A request to a token contract.
    Token { contract_addr: String, transfer: Cw20Transfer, funds: Vec<Coin> },
}

/// The outcome of a handled message.
#[derive(Debug, PartialEq)]
pub struct Response {
    pub messages: Vec<OutgoingMsg>,
    pub attributes: Vec<Attribute>,
}

/// A question the contract asks the chain or another contract.
#[derive(Clone, Debug, PartialEq)]
pub enum ChainQuery {
    /// The balance of `address` in `denom`.
    Balance { address: String, denom: String },
    /// A question to the liquidation queue at `contract_addr`.
    LiquidationQueue { contract_addr: String, msg: QueueQueryMsg },
}

impl Response {
    /// The attributes as pairs of character sequences.
    pub open spec fn attribute_views(self) -> Seq<(Seq<char>, Seq<char>)> {
        self.attributes@.map_values(|a: Attribute| (a.key@, a.value@))
    }

    /// Reports one more attribute, after the others.
    pub fn add_attribute(&mut self, key: &str, value: String)
        ensures
            final(self).messages == old(self).messages,
            final(self).attribute_views() == old(self).attribute_views().push((key@, value@)),
    {
        self.attributes.push(Attribute { key: key.to_owned(), value });
        assert(self.attribute_views() =~= old(self).attribute_views().push((key@, value@)));
    }
}

/// `m` is a request to the liquidation queue at `contract`, carrying `msg`
/// and `funds`.
pub open spec fn is_queue_call(m: OutgoingMsg, contract: Seq<char>, msg: QueueExecuteMsg, funds: Seq<Coin>) -> bool {
    &&& m matches OutgoingMsg::LiquidationQueue { contract_addr, msg: sent, funds: attached }
    &&& contract_addr@ == contract
    &&& sent == msg
    &&& attached@ == funds
}

/// `q` asks the liquidation queue at `contract` the question `msg`.
pub open spec fn is_queue_query(q: ChainQuery, contract: Seq<char>, msg: QueueQueryMsg) -> bool {
    &&& q matches ChainQuery::LiquidationQueue { contract_addr, msg: asked }
    &&& contract_addr@ == contract
    &&& asked == msg
}

/// A response with one attribute and the given messages.
pub fn response_with(messages: Vec<OutgoingMsg>, key: &str, value: &str) -> (r: Response)
    ensures
        r.messages == messages,
        r.attribute_views() == seq![(key@, value@)],
{
    let mut attributes: Vec<Attribute> = Vec::new();
    attributes.push(Attribute { key: key.to_owned(), value: value.to_owned() });
    let r = Response { messages, attributes };
    assert(r.attribute_views() =~= seq![(key@, value@)]);
    r
}

/// A response that sends the liquidation queue at `contract_addr` the
/// request `msg` with `funds`, and reports one attribute.
pub fn queue_call_response(contract_addr: String, msg: QueueExecuteMsg, funds: Vec<Coin>, key: &str, value: &str) -> (r: Response)
    ensures
        r.messages@.len() == 1,
        is_queue_call(r.messages@[0], contract_addr@, msg, funds@),
        r.attribute_views() == seq![(key@, value@)],
{
    let mut messages: Vec<OutgoingMsg> = Vec::new();
    messages.push(OutgoingMsg::LiquidationQueue { contract_addr, msg, funds });
    response_with(messages, key, value)
}

} // verus!
