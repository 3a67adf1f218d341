//! Messages to the two token contracts.
//!
//! The payload of each message is encoded by the token toolkit. The encoding
//! is not verified here; each payload is named, and the contracts of the
//! handlers say which payload goes to which contract.

use crate::constants::RESPONSE_BLOCK_SIZE;
use crate::error::ContractError;
use crate::state::{Snip20, Snip20View};
use secret_cosmwasm_std::{CosmosMsg, HumanAddr, Uint128, WasmMsg};
use vstd::prelude::*;

verus! {

/// A call into another contract. No coins go along with it.
#[derive(Debug, Clone, PartialEq, Eq)]
pub struct WasmCall {
    /// Address of the contract that is called.
    pub contract_addr: String,
    /// Hash of the code that the caller expects at that address.
    pub callback_code_hash: String,
    /// The encoded and padded message.
    pub msg: Vec<u8>,
}

/// What a `WasmCall` holds.
pub ghost struct WasmCallView {
    pub contract_addr: Seq<char>,
    pub callback_code_hash: Seq<char>,
    pub msg: Seq<u8>,
}

impl View for WasmCall {
    type V = WasmCallView;

    open spec fn view(&self) -> WasmCallView {
        WasmCallView {
            contract_addr: self.contract_addr@,
            callback_code_hash: self.callback_code_hash@,
            msg: self.msg@,
        }
    }
}

/// What a list of calls holds, in order.
pub open spec fn calls_view(calls: Seq<WasmCall>) -> Seq<WasmCallView> {
    calls.map_values(|c: WasmCall| c@)
}

/// The call that carries `payload` to `token`.
pub open spec fn call_to(token: Snip20View, payload: Seq<u8>) -> WasmCallView {
    WasmCallView {
        contract_addr: token.address,
        callback_code_hash: token.contract_hash,
        msg: payload,
    }
}

/// The padded payload of a transfer of `amount` to `recipient`, or `None`
/// where the toolkit cannot encode it.
pub uninterp spec fn transfer_payload(
    recipient: Seq<char>,
    amount: u128,
    block_size: usize,
) -> Option<Seq<u8>>;

/// The padded payload that registers the code hash `code_hash` for transfer
/// notifications, or `None` where the toolkit cannot encode it.
pub uninterp spec fn register_receive_payload(code_hash: Seq<char>, block_size: usize) -> Option<
    Seq<u8>,
>;

/// The padded payload that sets the viewing key `key`, or `None` where the
/// toolkit cannot encode it.
pub uninterp spec fn set_viewing_key_payload(key: Seq<char>, block_size: usize) -> Option<
    Seq<u8>,
>;

/// `secret_toolkit::snip20::transfer_msg`, without memo or padding text. The
/// toolkit encodes the transfer, pads it with spaces to a multiple of
/// `block_size` and addresses it, without coins, to the contract and code hash
/// it was given. Whether it can encode the transfer, and the payload, depend
/// on the recipient, the amount and the block size alone. Block sizes beyond
/// the one in use are left out.
#[verifier::external_body]
pub(crate) fn transfer_msg(
    recipient: &String,
    amount: u128,
    block_size: usize,
    token: &Snip20,
) -> (call: Option<WasmCall>)
    requires
        block_size <= RESPONSE_BLOCK_SIZE,
    ensures
        call is Some <==> transfer_payload(recipient@, amount, block_size) is Some,
        call matches Some(c) ==> c@ == call_to(
            token@,
            transfer_payload(recipient@, amount, block_size).unwrap(),
        ),
{
    let to = HumanAddr(recipient.clone());
    let contract = HumanAddr(token.address.clone());
    let hash = token.contract_hash.clone();
    let amount = Uint128(amount);
    match secret_toolkit::snip20::transfer_msg(to, amount, None, None, block_size, hash, contract) {
        Ok(CosmosMsg::Wasm(WasmMsg::Execute { contract_addr, callback_code_hash, msg, .. })) => {
            Some(WasmCall { contract_addr: contract_addr.0, callback_code_hash, msg: msg.0 })
        },
        _ => None,
    }
}

/// `secret_toolkit::snip20::register_receive_msg`, without padding text. The
/// toolkit encodes the registration of `code_hash`, pads it with spaces to a
/// multiple of `block_size` and addresses it, without coins, to the contract
/// and code hash it was given. Whether it can encode the registration, and
/// the payload, depend on the code hash and the block size alone. Block sizes
/// beyond the one in use are left out.
#[verifier::external_body]
pub(crate) fn register_receive_msg(code_hash: &String, block_size: usize, token: &Snip20) -> (call:
    Option<WasmCall>)
    requires
        block_size <= RESPONSE_BLOCK_SIZE,
    ensures
        call is Some <==> register_receive_payload(code_hash@, block_size) is Some,
        call matches Some(c) ==> c@ == call_to(
            token@,
            register_receive_payload(code_hash@, block_size).unwrap(),
        ),
{
    let contract = HumanAddr(token.address.clone());
    let hash = token.contract_hash.clone();
    let code = code_hash.clone();
    match secret_toolkit::snip20::register_receive_msg(code, None, block_size, hash, contract) {
        Ok(CosmosMsg::Wasm(WasmMsg::Execute { contract_addr, callback_code_hash, msg, .. })) => {
            Some(WasmCall { contract_addr: contract_addr.0, callback_code_hash, msg: msg.0 })
        },
        _ => None,
    }
}

/// `secret_toolkit::snip20::set_viewing_key_msg`, without padding text. The
/// toolkit encodes the key, pads the message with spaces to a multiple of
/// `block_size` and addresses it, without coins, to the contract and code hash
/// it was given. Whether it can encode the key, and the payload, depend on the
/// key and the block size alone. Block sizes beyond the one in use are left
/// out.
#[verifier::external_body]
pub(crate) fn set_viewing_key_msg(key: &String, block_size: usize, token: &Snip20) -> (call:
    Option<WasmCall>)
    requires
        block_size <= RESPONSE_BLOCK_SIZE,
    ensures
        call is Some <==> set_viewing_key_payload(key@, block_size) is Some,
        call matches Some(c) ==> c@ == call_to(
            token@,
            set_viewing_key_payload(key@, block_size).unwrap(),
        ),
{
    let contract = HumanAddr(token.address.clone());
    let hash = token.contract_hash.clone();
    let key = key.clone();
    match secret_toolkit::snip20::set_viewing_key_msg(key, None, block_size, hash, contract) {
        Ok(CosmosMsg::Wasm(WasmMsg::Execute { contract_addr, callback_code_hash, msg, .. })) => {
            Some(WasmCall { contract_addr: contract_addr.0, callback_code_hash, msg: msg.0 })
        },
        _ => None,
    }
}

/// A transfer of `amount` to `recipient` can be encoded.
pub open spec fn transfer_encodable(recipient: Seq<char>, amount: u128) -> bool {
    transfer_payload(recipient, amount, RESPONSE_BLOCK_SIZE) is Some
}

/// The message that asks `token` to transfer `amount` to `recipient`.
pub open spec fn transfer_call(
    token: Snip20View,
    recipient: Seq<char>,
    amount: u128,
) -> WasmCallView {
    call_to(token, transfer_payload(recipient, amount, RESPONSE_BLOCK_SIZE).unwrap())
}

/// The messages that pay out a reward: one transfer, or none where nothing is owed.
pub open spec fn reward_calls(token: Snip20View, recipient: Seq<char>, reward: u128) -> Seq<
    WasmCallView,
> {
    if reward > 0 {
        seq![transfer_call(token, recipient, reward)]
    } else {
        Seq::empty()
    }
}

/// Appends the message that asks `token` to transfer `amount` to `recipient`.
pub(crate) fn push_transfer(
    messages: &mut Vec<WasmCall>,
    recipient: &String,
    amount: u128,
    token: &Snip20,
) -> (r: Result<(), ContractError>)
    ensures
        transfer_encodable(recipient@, amount) ==> r is Ok && calls_view(final(messages)@)
            == calls_view(old(messages)@).push(transfer_call(token@, recipient@, amount)),
        !transfer_encodable(recipient@, amount) ==> r == Err::<(), ContractError>(
            ContractError::Encoding,
        ) && final(messages)@ == old(messages)@,
{
    match transfer_msg(recipient, amount, RESPONSE_BLOCK_SIZE, token) {
        Some(call) => {
            messages.push(call);
            assert(calls_view(messages@) =~= calls_view(old(messages)@).push(call@));
            Ok(())
        },
        None => Err(ContractError::Encoding),
    }
}

} // verus!
