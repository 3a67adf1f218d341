//! A staking ledger that pays out a linearly vesting reward.
//!
//! Participants lock units of one token and earn a proportional share of a
//! second token. Rewards vest over a window of block heights that ends at a
//! configured deadline, and every account is settled lazily against a
//! cumulative reward-per-share accumulator.
//!
//! The arithmetic lives in `accrual` and `settlement`, on plain records. The
//! state is modelled in `model` and held in `store`. The handlers are in
//! `staking` and `admin`, the reads in `queries`, and `contract` holds the
//! entry points that dispatch to them. `laws` states what holds of the whole.
//! `snip20` and `crypto` are the doors to the token toolkit.

pub mod accrual;
pub mod admin;
pub mod constants;
pub mod contract;
pub mod crypto;
pub mod error;
pub mod host;
pub mod laws;
pub mod model;
pub mod msg;
pub mod queries;
pub mod settlement;
pub mod snip20;
pub mod staking;
pub mod state;
pub mod store;
pub mod table;
pub mod viewing_key;
