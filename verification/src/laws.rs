//! The library's laws, stated over the spec-level transition functions that
//! the executable contracts are proved against.
//!
//! Atomicity itself — a failed `append_block` leaves `accounts` and
//! `blocks` exactly as they were — is the error branch of `append_block`'s
//! own contract; the lemmas here state the remaining properties.

use vstd::prelude::*;

use crate::account::AccountModel;
use crate::block::{spec_block_hash, Block};
use crate::chain::{link_ok, spec_append, Blockchain};
use crate::errors::ChainError;
use crate::errors::TxError;
use crate::tx::{apply_tx, Transaction, TransactionData};

verus! {

/// Chain linkage, non-first block: appending to a non-empty chain is
/// rejected with `BrokenChainLink` exactly when the candidate's
/// `prev_hash` differs from the hash of the current head. (Emptiness is
/// checked first, so the candidate is assumed non-empty.)
pub proof fn lemma_chain_linkage(
    blocks: Seq<Block>,
    state: Map<Seq<char>, AccountModel>,
    b: Block,
)
    requires
        blocks.len() > 0,
        b.transactions@.len() > 0,
    ensures
        spec_append(blocks, state, b) == Err::<Map<Seq<char>, AccountModel>, ChainError>(
            ChainError::BrokenChainLink,
        ) <==> b.prev_hash != Some(spec_block_hash(blocks.last())),
{
}

/// Chain linkage, first block: appending to an empty chain is rejected
/// with `BrokenChainLink` exactly when the candidate carries a
/// `prev_hash`; only the very first block may (and must) leave it absent.
pub proof fn lemma_genesis_linkage(state: Map<Seq<char>, AccountModel>, b: Block)
    requires
        b.transactions@.len() > 0,
    ensures
        spec_append(Seq::<Block>::empty(), state, b) == Err::<
            Map<Seq<char>, AccountModel>,
            ChainError,
        >(ChainError::BrokenChainLink) <==> !(b.prev_hash is None),
{
}

/// Hash integrity: a candidate that passes the emptiness and linkage
/// checks but whose stored `trans_hash` is absent or differs from the hash
/// recomputed over its own transactions and nonce is rejected with
/// `HashMismatch`. Mutating a transaction, the nonce, or the transaction
/// order without recomputing `trans_hash` changes the recomputed digest
/// (up to collisions of the 64-bit hash) and lands in exactly this case.
pub proof fn lemma_hash_integrity(
    blocks: Seq<Block>,
    state: Map<Seq<char>, AccountModel>,
    b: Block,
)
    requires
        b.transactions@.len() > 0,
        link_ok(blocks, b),
        b.trans_hash != Some(spec_block_hash(b)),
    ensures
        spec_append(blocks, state, b) == Err::<Map<Seq<char>, AccountModel>, ChainError>(
            ChainError::HashMismatch,
        ),
{
}

/// Non-negative balances: in every well-formed ledger state, every
/// account's token balance is non-negative — balances are `u128`, so no
/// reachable state can store a negative one.
pub proof fn lemma_non_negative_balances(chain: Blockchain)
    requires
        chain.wf(),
    ensures
        forall|k: Seq<char>|
            chain.accounts@.contains_key(k) ==> (#[trigger] chain.accounts@[k]).tokens >= 0,
{
}

/// An overdraft never mutates: a transfer between existing accounts whose
/// amount exceeds the sender's balance fails with `InsufficientFunds`, and
/// by `Transaction::execute`'s contract a failing transaction leaves the
/// account table exactly as it was.
pub proof fn lemma_overdraft_rejected(
    state: Map<Seq<char>, AccountModel>,
    t: Transaction,
    genesis: bool,
)
    requires
        t.record matches TransactionData::TransferTokens { to, amount } && state.contains_key(
            t.from@,
        ) && state.contains_key(to@) && state[t.from@].tokens < amount,
    ensures
        apply_tx(state, t, genesis) == Err::<Map<Seq<char>, AccountModel>, TxError>(
            TxError::InsufficientFunds,
        ),
{
}

/// Idempotent rejection: a rejected block leaves the ledger unchanged (the
/// error branch of `append_block`'s contract), so submitting the same
/// candidate to the resulting state yields the very same error — and, the
/// result again being an error, `blocks.len()` never changes.
pub proof fn lemma_idempotent_rejection(
    chain: Blockchain,
    after: Blockchain,
    b: Block,
    e: ChainError,
)
    requires
        spec_append(chain.blocks@, chain.accounts@, b) == Err::<
            Map<Seq<char>, AccountModel>,
            ChainError,
        >(e),
        after.blocks@ == chain.blocks@,
        after.accounts@ == chain.accounts@,
    ensures
        spec_append(after.blocks@, after.accounts@, b) == Err::<
            Map<Seq<char>, AccountModel>,
            ChainError,
        >(e),
{
}

} // verus!
