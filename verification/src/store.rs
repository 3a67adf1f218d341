//! The contract's state as it is held while a transaction runs.
//!
//! The fields are private. A state comes from a set-up or from stored
//! records, and changes through the handlers only.

use crate::model::{assembled, StateView};
use crate::state::{Config, ConfigView, RewardPool, Snip20, UserInfo};
use crate::table::Table;
use vstd::prelude::*;

verus! {

/// Everything the contract keeps between transactions.
pub struct State {
    config: Config,
    pool: RewardPool,
    ledger: Table<UserInfo>,
    keys: Table<Vec<u8>>,
}

impl View for State {
    type V = StateView;

    closed spec fn view(&self) -> StateView {
        StateView {
            config: self.config@,
            pool: self.pool,
            accounts: self.ledger.owners(),
            positions: self.ledger.values(),
            keys: Map::new(
                |a: Seq<char>| self.keys.owners().contains(a),
                |a: Seq<char>| self.keys.values()[self.keys.slot(a)]@,
            ),
        }
    }
}

/// A copy of a byte string.
fn copy_bytes(bytes: &Vec<u8>) -> (copy: Vec<u8>)
    ensures
        copy@ == bytes@,
{
    let mut copy: Vec<u8> = Vec::new();
    let mut i: usize = 0;
    while i < bytes.len()
        invariant
            i <= bytes.len(),
            copy@ == bytes@.take(i as int),
        decreases bytes.len() - i,
    {
        copy.push(bytes[i]);
        i += 1;
        assert(copy@ =~= bytes@.take(i as int));
    }
    assert(bytes@.take(i as int) =~= bytes@);
    copy
}

impl State {
    /// The table of viewing keys is well formed.
    pub closed spec fn keys_wf(&self) -> bool {
        self.keys.wf()
    }

    /// The state is well formed: in each of its tables every account occurs once.
    pub open spec fn wf(&self) -> bool {
        self.keys_wf() && self@.ledger_wf()
    }

    /// What every state is held to: it is well formed.
    #[verifier::type_invariant]
    pub open spec fn inv(&self) -> bool {
        self.wf()
    }

    /// The state of a contract that was just set up with `config`: nothing
    /// locked, nothing pending, no keys.
    pub(crate) fn new(config: Config) -> (state: State)
        ensures
            state.wf(),
            state@.sound(),
            state@ == (StateView {
                config: config@,
                pool: RewardPool::empty(),
                accounts: Seq::empty(),
                positions: Seq::empty(),
                keys: Map::empty(),
            }),
    {
        let state = State {
            config,
            pool: RewardPool::empty(),
            ledger: Table::new(),
            keys: Table::new(),
        };
        assert(state@.keys =~= Map::<Seq<char>, Seq<u8>>::empty());
        state
    }

    /// The configuration.
    pub fn config(&self) -> (config: &Config)
        ensures
            config@ == self@.config,
    {
        &self.config
    }

    /// The reward pool.
    pub fn pool(&self) -> (pool: RewardPool)
        ensures
            pool == self@.pool,
    {
        self.pool
    }

    /// The position of `account`; the empty position where it has none.
    pub fn user(&self, account: &String) -> (user: UserInfo)
        ensures
            user == self@.user(account@),
    {
        match self.ledger.load(account) {
            Some(user) => {
                proof {
                    self@.lemma_slot(account@, self.ledger.slot(account@));
                }
                *user
            },
            None => UserInfo::empty(),
        }
    }

    /// The stored digest of `account`'s viewing key, if it set one.
    pub fn key_hash(&self, account: &String) -> (hash: Option<&Vec<u8>>)
        ensures
            match hash {
                Some(h) => self@.key_hash(account@) == Some(h@),
                None => self@.key_hash(account@) is None,
            },
    {
        self.keys.load(account)
    }

    /// Number of accounts that have a position.
    pub fn accounts_len(&self) -> (n: usize)
        ensures
            n == self@.accounts.len(),
    {
        self.ledger.len()
    }

    /// The `i`-th account and its position, if there are that many.
    pub fn account_at(&self, i: usize) -> (entry: Option<(&String, UserInfo)>)
        ensures
            i < self@.accounts.len() ==> (entry matches Some(e) && e.0@ == self@.accounts[i as int]
                && e.1 == self@.positions[i as int]),
            i >= self@.accounts.len() ==> entry is None,
    {
        match (self.ledger.owner_at(i), self.ledger.value_at(i)) {
            (Some(account), Some(user)) => Some((account, *user)),
            _ => None,
        }
    }

    /// Puts a state together from stored records. Where an account occurs
    /// twice in a list, its later record stands.
    pub fn restore(
        config: Config,
        pool: RewardPool,
        accounts: Vec<(String, UserInfo)>,
        keys: Vec<(String, Vec<u8>)>,
    ) -> (state: State)
        ensures
            state.wf(),
            state@ == assembled(config@, pool, accounts@, keys@),
    {
        let mut state = State { config, pool, ledger: Table::new(), keys: Table::new() };
        assert(state@.keys =~= Map::<Seq<char>, Seq<u8>>::empty());
        let ghost none = Seq::<(String, Vec<u8>)>::empty();
        let mut i: usize = 0;
        assert(accounts@.take(0) =~= Seq::<(String, UserInfo)>::empty());
        while i < accounts.len()
            invariant
                i <= accounts.len(),
                none.len() == 0,
                state.keys_wf(),
                state@.ledger_wf(),
                state@ == assembled(config@, pool, accounts@.take(i as int), none),
            decreases accounts.len() - i,
        {
            let name = accounts[i].0.clone();
            let user = accounts[i].1;
            proof {
                let upto = accounts@.take(i + 1);
                assert(upto.drop_last() =~= accounts@.take(i as int));
                assert(upto.last() == accounts@[i as int]);
                assert(assembled(config@, pool, upto, none) == assembled(
                    config@,
                    pool,
                    upto.drop_last(),
                    none,
                ).with_user(upto.last().0@, upto.last().1));
                state@.lemma_with_user(name@, user, name@);
            }
            state.set_user(name, user);
            i += 1;
        }
        assert(accounts@.take(i as int) =~= accounts@);
        let mut k: usize = 0;
        assert(keys@.take(0) =~= none);
        while k < keys.len()
            invariant
                k <= keys.len(),
                state.keys_wf(),
                state@.ledger_wf(),
                state@ == assembled(config@, pool, accounts@, keys@.take(k as int)),
            decreases keys.len() - k,
        {
            let name = keys[k].0.clone();
            let hash = copy_bytes(&keys[k].1);
            proof {
                let upto = keys@.take(k + 1);
                assert(upto.drop_last() =~= keys@.take(k as int));
                assert(upto.last() == keys@[k as int]);
                assert(assembled(config@, pool, accounts@, upto) == assembled(
                    config@,
                    pool,
                    accounts@,
                    upto.drop_last(),
                ).with_key(upto.last().0@, upto.last().1@));
            }
            state.set_key(name, hash);
            k += 1;
        }
        assert(keys@.take(k as int) =~= keys@);
        state
    }

    /// Replaces the locked token's contract.
    pub(crate) fn set_inc_token(&mut self, token: Snip20)
        ensures
            final(self)@ == old(self)@.with_config(
                ConfigView { inc_token: token@, ..old(self)@.config },
            ),
            final(self).wf(),
    {
        proof {
            use_type_invariant(&*self);
        }
        self.config.inc_token = token;
    }

    /// Replaces the reward token's contract.
    pub(crate) fn set_reward_token(&mut self, token: Snip20)
        ensures
            final(self)@ == old(self)@.with_config(
                ConfigView { reward_token: token@, ..old(self)@.config },
            ),
            final(self).wf(),
    {
        proof {
            use_type_invariant(&*self);
        }
        self.config.reward_token = token;
    }

    /// Stops or resumes the contract.
    pub(crate) fn set_stopped(&mut self, stopped: bool)
        ensures
            final(self)@ == old(self)@.with_config(
                ConfigView { is_stopped: stopped, ..old(self)@.config },
            ),
            final(self).wf(),
    {
        proof {
            use_type_invariant(&*self);
        }
        self.config.is_stopped = stopped;
    }

    /// Replaces the administrator.
    pub(crate) fn set_admin(&mut self, admin: String)
        ensures
            final(self)@ == old(self)@.with_config(ConfigView { admin: admin@, ..old(self)@.config }),
            final(self).wf(),
    {
        proof {
            use_type_invariant(&*self);
        }
        self.config.admin = admin;
    }

    /// Replaces the deadline.
    pub(crate) fn set_deadline(&mut self, deadline: u64)
        ensures
            final(self)@ == old(self)@.with_config(ConfigView { deadline, ..old(self)@.config }),
            final(self).wf(),
    {
        proof {
            use_type_invariant(&*self);
        }
        self.config.deadline = deadline;
    }

    /// Replaces the pool.
    pub(crate) fn set_pool(&mut self, pool: RewardPool)
        ensures
            final(self)@ == old(self)@.with_pool(pool),
            final(self).wf(),
    {
        proof {
            use_type_invariant(&*self);
        }
        self.pool = pool;
    }

    /// Stores `user` as the position of `account`.
    pub(crate) fn set_user(&mut self, account: String, user: UserInfo)
        ensures
            final(self)@ == old(self)@.with_user(account@, user),
            final(self).wf(),
    {
        proof {
            use_type_invariant(&*self);
            if self.ledger.owners().contains(account@) {
                self@.lemma_slot(account@, self.ledger.slot(account@));
            }
        }
        // The ledger is taken out while it changes, so that the state is
        // never seen half changed.
        let mut ledger: Table<UserInfo> = Table::new();
        core::mem::swap(&mut self.ledger, &mut ledger);
        ledger.store(account, user);
        self.ledger = ledger;
    }

    /// Stores `hash` as the digest of `account`'s viewing key.
    pub(crate) fn set_key(&mut self, account: String, hash: Vec<u8>)
        ensures
            final(self)@ == old(self)@.with_key(account@, hash@),
            final(self).wf(),
    {
        proof {
            use_type_invariant(&*self);
        }
        let mut keys: Table<Vec<u8>> = Table::new();
        core::mem::swap(&mut self.keys, &mut keys);
        keys.store(account, hash);
        self.keys = keys;
        assert(self@.keys =~= old(self)@.keys.insert(account@, hash@)) by {
            assert forall|a: Seq<char>|
                self@.keys.dom().contains(a) <==> old(self)@.keys.insert(
                    account@,
                    hash@,
                ).dom().contains(a) by {
                assert(self.keys.get(a) == if a == account@ {
                    Some(hash)
                } else {
                    old(self).keys.get(a)
                });
            }
            assert forall|a: Seq<char>| self@.keys.dom().contains(a) implies self@.keys[a] == old(
                self,
            )@.keys.insert(account@, hash@)[a] by {
                assert(self.keys.get(a) == if a == account@ {
                    Some(hash)
                } else {
                    old(self).keys.get(a)
                });
            }
        }
    }
}

} // verus!
