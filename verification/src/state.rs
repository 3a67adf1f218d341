use vstd::prelude::*;

verus! {

/// The position of one account.
#[derive(Debug, Clone, Copy, PartialEq, Eq, Structural)]
pub struct UserInfo {
    /// Locked amount, in ledger units.
    pub locked: u128,
    /// Reward already accounted for at the last settlement.
    pub debt: u128,
}

/// An external token contract: its address and the hash of its code.
#[derive(Debug, Clone, PartialEq, Eq)]
pub struct Snip20 {
    pub address: String,
    pub contract_hash: String,
}

/// The contract's configuration.
#[derive(Debug, Clone, PartialEq, Eq)]
pub struct Config {
    pub admin: String,
    pub reward_token: Snip20,
    pub inc_token: Snip20,
    /// Earliest height at which the administrator may sweep the reward balance.
    pub pool_claim_height: u64,
    /// Height after which no further reward vests.
    pub deadline: u64,
    /// Key this contract registered with both token contracts.
    pub viewing_key: String,
    /// Digest of the seed from which viewing keys are derived.
    pub prng_seed: Vec<u8>,
    pub is_stopped: bool,
}

/// The global vesting state.
#[derive(Debug, Clone, Copy, PartialEq, Eq, Structural)]
pub struct RewardPool {
    /// Reward units that have not vested yet.
    pub pending_rewards: u128,
    /// Ledger units the pool believes to be locked.
    pub inc_token_supply: u128,
    /// Height at which the accumulator was last advanced.
    pub last_reward_block: u64,
    /// Cumulative reward per locked ledger unit, times `REWARD_SCALE`.
    pub acc_reward_per_share: u128,
}

/// What a `Snip20` holds.
pub ghost struct Snip20View {
    pub address: Seq<char>,
    pub contract_hash: Seq<char>,
}

impl View for Snip20 {
    type V = Snip20View;

    open spec fn view(&self) -> Snip20View {
        Snip20View { address: self.address@, contract_hash: self.contract_hash@ }
    }
}

/// What a `Config` holds.
pub ghost struct ConfigView {
    pub admin: Seq<char>,
    pub reward_token: Snip20View,
    pub inc_token: Snip20View,
    pub pool_claim_height: u64,
    pub deadline: u64,
    pub viewing_key: Seq<char>,
    pub prng_seed: Seq<u8>,
    pub is_stopped: bool,
}

impl View for Config {
    type V = ConfigView;

    open spec fn view(&self) -> ConfigView {
        ConfigView {
            admin: self.admin@,
            reward_token: self.reward_token@,
            inc_token: self.inc_token@,
            pool_claim_height: self.pool_claim_height,
            deadline: self.deadline,
            viewing_key: self.viewing_key@,
            prng_seed: self.prng_seed@,
            is_stopped: self.is_stopped,
        }
    }
}

impl RewardPool {
    /// The pool of a contract that was just set up.
    pub open spec fn spec_empty() -> RewardPool {
        RewardPool {
            pending_rewards: 0,
            inc_token_supply: 0,
            last_reward_block: 0,
            acc_reward_per_share: 0,
        }
    }

    #[verifier::when_used_as_spec(spec_empty)]
    pub fn empty() -> (r: RewardPool)
        ensures
            r == RewardPool::spec_empty(),
    {
        RewardPool {
            pending_rewards: 0,
            inc_token_supply: 0,
            last_reward_block: 0,
            acc_reward_per_share: 0,
        }
    }
}

impl UserInfo {
    /// The position of an account that never locked anything.
    pub open spec fn spec_empty() -> UserInfo {
        UserInfo { locked: 0, debt: 0 }
    }

    #[verifier::when_used_as_spec(spec_empty)]
    pub fn empty() -> (r: UserInfo)
        ensures
            r == UserInfo::spec_empty(),
    {
        UserInfo { locked: 0, debt: 0 }
    }
}

} // verus!
