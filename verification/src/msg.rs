//! The messages the contract takes and the answers it gives.

use crate::state::Snip20;
use crate::viewing_key::ViewingKey;
use vstd::pervasive::unreached;
use vstd::prelude::*;

verus! {

/// What a contract is set up with.
#[derive(Debug, Clone, PartialEq, Eq)]
pub struct InitMsg {
    pub reward_token: Snip20,
    pub inc_token: Snip20,
    pub deadline: u128,
    pub pool_claim_block: u128,
    pub viewing_key: String,
    pub prng_seed: Vec<u8>,
}

/// A request that changes state.
#[derive(Debug, PartialEq, Eq)]
pub enum HandleMsg {
    LockTokens {},
    AddToRewardPool {},
    Redeem { amount: Option<u128> },
    CreateViewingKey { entropy: String, padding: Option<String> },
    SetViewingKey { key: String, padding: Option<String> },
    EmergencyRedeem {},
    /// A token contract reports a transfer to this contract; `msg` says what the
    /// transfer is for, and is `None` where the host could not decode it.
    Receive { sender: String, from: String, amount: u128, msg: Option<Box<HandleMsg>> },
    UpdateIncentivizedToken { new_token: Snip20 },
    UpdateRewardToken { new_token: Snip20 },
    UpdateDeadline { height: u64 },
    ClaimRewardPool { recipient: Option<String> },
    StopContract {},
    ResumeContract {},
    ChangeAdmin { address: String },
}

/// The answer to a handled request.
#[derive(Debug, Clone, PartialEq, Eq)]
pub enum HandleAnswer {
    LockTokens { status: ResponseStatus },
    AddToRewardPool { status: ResponseStatus },
    Redeem { status: ResponseStatus },
    WithdrawRewards { status: ResponseStatus },
    CreateViewingKey { key: ViewingKey },
    SetViewingKey { status: ResponseStatus },
    UpdateIncentivizedToken { status: ResponseStatus },
    UpdateRewardToken { status: ResponseStatus },
    StopContract { status: ResponseStatus },
    ResumeContract { status: ResponseStatus },
    ChangeAdmin { status: ResponseStatus },
    UpdateDeadline { status: ResponseStatus },
}

/// A request that only reads.
#[derive(Debug, Clone, PartialEq, Eq)]
pub enum QueryMsg {
    QueryUnlockClaimHeight {},
    QueryContractStatus {},
    QueryRewardToken {},
    QueryIncentivizedToken {},
    QueryEndHeight {},
    QueryLastRewardBlock {},
    QueryRewardPoolBalance {},
    QueryRewards { address: String, height: u128, key: String },
    QueryDeposit { address: String, key: String },
}

/// The answer to a query.
#[derive(Debug, Clone, PartialEq, Eq)]
pub enum QueryAnswer {
    QueryRewards { rewards: u128 },
    QueryDeposit { deposit: u128 },
    QueryUnlockClaimHeight { height: u128 },
    QueryContractStatus { is_stopped: bool },
    QueryRewardToken { token: Snip20 },
    QueryIncentivizedToken { token: Snip20 },
    QueryEndHeight { height: u128 },
    QueryLastRewardBlock { height: u128 },
    QueryRewardPoolBalance { balance: u128 },
    QueryError { msg: String },
}

#[derive(Debug, Clone, Copy, PartialEq, Eq, Structural)]
pub enum ResponseStatus {
    Success,
    Failure,
}

impl QueryMsg {
    /// The query discloses the state of one account and needs that account's key.
    pub open spec fn is_authenticated(&self) -> bool {
        self is QueryRewards || self is QueryDeposit
    }

    /// The account that an authenticated query is about.
    pub open spec fn subject(&self) -> Seq<char> {
        match self {
            QueryMsg::QueryRewards { address, .. } => address@,
            QueryMsg::QueryDeposit { address, .. } => address@,
            _ => Seq::empty(),
        }
    }

    /// The key that an authenticated query presents.
    pub open spec fn presented_key(&self) -> Seq<char> {
        match self {
            QueryMsg::QueryRewards { key, .. } => key@,
            QueryMsg::QueryDeposit { key, .. } => key@,
            _ => Seq::empty(),
        }
    }

    /// The account and the key of an authenticated query.
    pub fn get_validation_params(&self) -> (r: (&String, ViewingKey))
        requires
            self.is_authenticated(),
        ensures
            r.0@ == self.subject(),
            r.1.0@ == self.presented_key(),
    {
        match self {
            QueryMsg::QueryRewards { address, key, .. } => (address, ViewingKey(key.clone())),
            QueryMsg::QueryDeposit { address, key } => (address, ViewingKey(key.clone())),
            _ => unreached(),
        }
    }
}

impl Clone for HandleMsg {
    fn clone(&self) -> (copy: Self)
        decreases self,
    {
        match self {
            HandleMsg::LockTokens {  } => HandleMsg::LockTokens {  },
            HandleMsg::AddToRewardPool {  } => HandleMsg::AddToRewardPool {  },
            HandleMsg::Redeem { amount } => HandleMsg::Redeem { amount: *amount },
            HandleMsg::CreateViewingKey { entropy, padding } => HandleMsg::CreateViewingKey {
                entropy: entropy.clone(),
                padding: padding.clone(),
            },
            HandleMsg::SetViewingKey { key, padding } => HandleMsg::SetViewingKey {
                key: key.clone(),
                padding: padding.clone(),
            },
            HandleMsg::EmergencyRedeem {  } => HandleMsg::EmergencyRedeem {  },
            HandleMsg::Receive { sender, from, amount, msg } => HandleMsg::Receive {
                sender: sender.clone(),
                from: from.clone(),
                amount: *amount,
                msg: match msg {
                    Some(inner) => Some(Box::new(HandleMsg::clone(&**inner))),
                    None => None,
                },
            },
            HandleMsg::UpdateIncentivizedToken { new_token } => HandleMsg::UpdateIncentivizedToken {
                new_token: new_token.clone(),
            },
            HandleMsg::UpdateRewardToken { new_token } => HandleMsg::UpdateRewardToken {
                new_token: new_token.clone(),
            },
            HandleMsg::UpdateDeadline { height } => HandleMsg::UpdateDeadline { height: *height },
            HandleMsg::ClaimRewardPool { recipient } => HandleMsg::ClaimRewardPool {
                recipient: recipient.clone(),
            },
            HandleMsg::StopContract {  } => HandleMsg::StopContract {  },
            HandleMsg::ResumeContract {  } => HandleMsg::ResumeContract {  },
            HandleMsg::ChangeAdmin { address } => HandleMsg::ChangeAdmin { address: address.clone() },
        }
    }
}

} // verus!
