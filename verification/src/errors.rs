//! Error taxonomy of the ledger.
//!
//! Every failure is reported to the caller; none is swallowed. Validation
//! errors leave the ledger untouched; execution errors surface only after
//! the account table has been rolled back to its pre-block state.

use vstd::prelude::*;

verus! {

/// Failure of a single transaction against the account table.
#[derive(Clone, Copy, Debug, PartialEq, Eq, Structural)]
pub enum TxError {
    /// Account creation targeted an already-registered identifier.
    AccountExists,
    /// An operation referenced a non-existent account.
    UnknownAccount,
    /// A transfer exceeded the sender's balance.
    InsufficientFunds,
    /// A non-validator attempted token creation outside the genesis block.
    UnauthorizedMint,
    /// Crediting an account would push its balance past the largest
    /// representable token count; the machine-width analogue of minting or
    /// transferring more than the balance field can hold.
    BalanceOverflow,
}

/// Failure of a whole block, as reported by `append_block`.
#[derive(Clone, Copy, Debug, PartialEq, Eq, Structural)]
pub enum ChainError {
    /// A block with zero transactions was proposed.
    EmptyBlock,
    /// `prev_hash` does not match the current head, or is absent on a
    /// non-first block, or present on the first.
    BrokenChainLink,
    /// The stored `trans_hash` does not match the recomputed digest.
    HashMismatch,
    /// Transaction number `index` (1-based) failed with `cause`; the ledger
    /// was rolled back before this error was returned.
    FailedTransaction { index: usize, cause: TxError },
}

} // verus!
