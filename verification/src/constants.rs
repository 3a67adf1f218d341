use vstd::prelude::*;

verus! {

/// Outbound messages and responses are padded to a multiple of this many bytes.
pub const RESPONSE_BLOCK_SIZE: usize = 256;

/// Raw amounts of the locked token are divided by this factor before they are
/// stored, and multiplied by it again when they leave the ledger.
pub const INC_TOKEN_SCALE: u128 = 1_000_000_000_000;

/// Fixed-point factor of the reward-per-share accumulator.
pub const REWARD_SCALE: u128 = 1_000_000_000_000;

/// Length in bytes of a stored viewing-key hash.
pub const VIEWING_KEY_SIZE: usize = 32;

} // verus!
