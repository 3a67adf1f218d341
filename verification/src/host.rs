//! What the host hands to a transaction and what it takes back.

use crate::msg::HandleAnswer;
use crate::snip20::{calls_view, WasmCall, WasmCallView};
use vstd::prelude::*;

verus! {

/// The circumstances of one transaction.
#[derive(Debug, Clone, PartialEq, Eq)]
pub struct Env {
    /// Height of the block that holds the transaction.
    pub height: u64,
    /// Time of that block, in seconds.
    pub time: u64,
    /// The account or contract that sent the message.
    pub sender: String,
    /// This contract's own address.
    pub contract_address: String,
    /// Hash of this contract's code.
    pub contract_code_hash: String,
}

/// What initialization hands back: the messages to send.
#[derive(Debug, Clone, PartialEq, Eq)]
pub struct InitResponse {
    pub messages: Vec<WasmCall>,
}

/// What a handled message hands back: the messages to send and an answer.
#[derive(Debug, Clone, PartialEq, Eq)]
pub struct HandleResponse {
    pub messages: Vec<WasmCall>,
    pub data: Option<HandleAnswer>,
}

impl InitResponse {
    /// The messages, in the order in which they are sent.
    pub open spec fn calls(&self) -> Seq<WasmCallView> {
        calls_view(self.messages@)
    }
}

impl HandleResponse {
    /// The messages, in the order in which they are sent.
    pub open spec fn calls(&self) -> Seq<WasmCallView> {
        calls_view(self.messages@)
    }

    /// A response that sends nothing and carries `answer`.
    pub fn answer(answer: HandleAnswer) -> (response: HandleResponse)
        ensures
            response.calls() == Seq::<WasmCallView>::empty(),
            response.data == Some(answer),
    {
        let messages: Vec<WasmCall> = Vec::new();
        assert(calls_view(messages@) =~= Seq::<WasmCallView>::empty());
        HandleResponse { messages, data: Some(answer) }
    }
}

/// A balance that the host has to look up before the reward pool can be swept.
#[derive(Debug, Clone, PartialEq, Eq)]
pub struct BalanceQuery {
    /// The token contract to ask.
    pub contract_addr: String,
    /// The code hash sent along with the question.
    pub callback_code_hash: String,
    /// The account whose balance is asked for.
    pub address: String,
    /// The key that opens that balance.
    pub key: String,
    /// Where the swept balance is to go.
    pub recipient: String,
}

/// How far a message got.
#[derive(Debug, Clone, PartialEq, Eq)]
pub enum Step {
    /// The message was handled.
    Done(HandleResponse),
    /// The message can go on once the host has looked up a balance.
    NeedsBalance(BalanceQuery),
}

} // verus!
