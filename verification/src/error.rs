use vstd::prelude::*;

verus! {

/// Why a transaction was refused. A refused transaction leaves the state as it was.
#[derive(Debug, Clone, PartialEq, Eq)]
pub enum ContractError {
    /// A transfer notification came from a token contract other than the configured one.
    UnsupportedToken,
    /// A redemption asked for more than the account has locked (both in ledger units).
    InsufficientFunds { balance: u128, required: u128 },
    /// The caller is not the administrator.
    Unauthorized,
    /// The reward pool was claimed before the configured claim height.
    ClaimTooEarly { claim_height: u64 },
    /// The contract is stopped and the operation is not on the allow-list.
    Stopped,
    /// The operation cannot be called directly in the current state.
    UnknownAction,
    /// A transfer notification carried something that could not be decoded.
    UnreadablePayload,
    /// A transfer notification carried another transfer notification.
    RecursiveReceive,
    /// A transfer notification carried an operation that is not a deposit.
    IllegalReceive,
    /// A quantity does not fit in 128 bits, rewards were due over a window of
    /// zero blocks, an account is charged with more than it earned, or the
    /// supply does not hold what is to leave it.
    Arithmetic,
    /// An outbound token message could not be encoded.
    Encoding,
}

} // verus!
