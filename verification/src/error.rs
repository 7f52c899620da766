//! Why an operation on the ledger was refused, and what it reports when it is not.

use vstd::prelude::*;

verus! {

/// The reason an operation was refused. A refused operation leaves the ledger as it was.
#[derive(Clone, Copy, Debug, PartialEq, Eq, Structural)]
pub enum Error {
    /// The ledger has been initialized before.
    AlreadyInitialized,
    /// The ledger has not been initialized yet.
    NotInitialized,
    /// The amount to move is zero.
    AmountZero,
    /// The public balance of the paying account is below the amount.
    BalanceLow,
    /// The pool of private value is below the amount to reclaim.
    PoolOverdrawn,
    /// The parameters in use are not the ones the ledger was initialized with.
    ParamFail,
    /// The commitment is already in the accumulator.
    MantaCoinExist,
    /// The nullifier has been revealed before.
    MantaCoinSpent,
    /// The Merkle root is not the current root of any shard.
    InvalidLedgerState,
    /// The proof does not verify against the statement.
    ZkpFail,
    /// The opening does not recommit to the minted coin.
    MintFail,
}

/// An account of the public ledger.
pub type AccountId = u64;

/// What an accepted operation reports to the host.
#[derive(Clone, Copy, Debug, PartialEq, Eq, Structural)]
pub enum Event {
    /// The whole supply was issued to an account: owner, total supply.
    Issued(AccountId, u64),
    /// Public tokens moved: from, to, amount.
    Transferred(AccountId, AccountId, u64),
    /// Public tokens were turned into a private coin: owner, amount.
    Minted(AccountId, u64),
    /// Private coins changed hands; the account is the one that submitted the transfer.
    PrivateTransferred(AccountId),
    /// Private value was turned back into public tokens of the account.
    PrivateReclaimed(AccountId),
}

} // verus!
