//! The chain controller: the only entry point that mutates the ledger.
//!
//! `spec_append` is the authoritative statement of what `append_block`
//! decides and computes: validate the candidate (non-empty, linked to the
//! head, hash intact — in that order, first failure wins), then run its
//! transactions in order against the account table; any transaction failure
//! rejects the whole block and leaves the table exactly as it was.

use vstd::prelude::*;

use crate::account::AccountModel;
use crate::accounts::Accounts;
use crate::block::{spec_block_hash, Block};
use crate::errors::{ChainError, TxError};
use crate::tx::{apply_tx, Transaction};

verus! {

/// Run `txs[i..]` in order from `state`; the first failure reports the
/// failing transaction's 1-based position and its cause.
pub open spec fn apply_txs_from(
    state: Map<Seq<char>, AccountModel>,
    txs: Seq<Transaction>,
    i: int,
    genesis: bool,
) -> Result<Map<Seq<char>, AccountModel>, (int, TxError)>
    decreases txs.len() - i,
{
    if i < 0 || i >= txs.len() {
        Ok(state)
    } else {
        match apply_tx(state, txs[i], genesis) {
            Err(e) => Err((i + 1, e)),
            Ok(s) => apply_txs_from(s, txs, i + 1, genesis),
        }
    }
}

/// Whether the candidate's `prev_hash` points at the current head: absent
/// exactly when the chain is empty, else the head's content hash.
pub open spec fn link_ok(blocks: Seq<Block>, b: Block) -> bool {
    if blocks.len() == 0 {
        b.prev_hash is None
    } else {
        b.prev_hash == Some(spec_block_hash(blocks.last()))
    }
}

/// The validator's answer: the first failed check, or `None` when the
/// candidate may proceed to execution.
pub open spec fn spec_validate(blocks: Seq<Block>, b: Block) -> Option<ChainError> {
    if b.transactions@.len() == 0 {
        Some(ChainError::EmptyBlock)
    } else if !link_ok(blocks, b) {
        Some(ChainError::BrokenChainLink)
    } else if b.trans_hash != Some(spec_block_hash(b)) {
        Some(ChainError::HashMismatch)
    } else {
        None
    }
}

/// What `append_block` decides and computes, as one function of the
/// pre-state and the candidate: either the account table after the whole
/// block, or the error the caller gets.
pub open spec fn spec_append(
    blocks: Seq<Block>,
    state: Map<Seq<char>, AccountModel>,
    b: Block,
) -> Result<Map<Seq<char>, AccountModel>, ChainError> {
    match spec_validate(blocks, b) {
        Some(e) => Err(e),
        None => match apply_txs_from(state, b.transactions@, 0, blocks.len() == 0) {
            Ok(m) => Ok(m),
            Err((i, e)) => Err(ChainError::FailedTransaction { index: i as usize, cause: e }),
        },
    }
}

/// The committed block at `i` is non-empty, carries its own content hash,
/// and points at its predecessor (or at nothing, for the first block).
pub open spec fn block_linked_at(blocks: Seq<Block>, i: int) -> bool {
    &&& blocks[i].transactions@.len() > 0
    &&& blocks[i].trans_hash == Some(spec_block_hash(blocks[i]))
    &&& (i == 0 ==> blocks[i].prev_hash is None)
    &&& (i > 0 ==> blocks[i].prev_hash == Some(spec_block_hash(blocks[i - 1])))
}

/// Structural integrity of the whole committed chain.
pub open spec fn chain_linked(blocks: Seq<Block>) -> bool {
    forall|i: int| 0 <= i < blocks.len() ==> #[trigger] block_linked_at(blocks, i)
}

/// The account table that replaying a block sequence from an empty ledger
/// produces, if every block executes; the first block runs in the genesis
/// context.
pub open spec fn apply_chain(blocks: Seq<Block>) -> Option<Map<Seq<char>, AccountModel>>
    decreases blocks.len(),
{
    if blocks.len() == 0 {
        Some(Map::empty())
    } else {
        match apply_chain(blocks.drop_last()) {
            None => None,
            Some(s) => match apply_txs_from(
                s,
                blocks.last().transactions@,
                0,
                blocks.len() == 1,
            ) {
                Ok(m) => Some(m),
                Err(_) => None,
            },
        }
    }
}

/// The ledger: the ordered sequence of committed blocks and the account
/// table they produced.
pub struct Blockchain {
    /// All accepted blocks, oldest first.
    pub blocks: Vec<Block>,
    /// The authoritative account table.
    pub accounts: Accounts,
}

impl Blockchain {
    /// The ledger invariant: the chain is structurally intact and the
    /// account table reflects exactly the cumulative effect of executing
    /// every transaction of every committed block, in order.
    pub open spec fn wf(&self) -> bool {
        &&& self.accounts.wf()
        &&& chain_linked(self.blocks@)
        &&& apply_chain(self.blocks@) == Some(self.accounts@)
    }

    /// An empty ledger: no blocks, no accounts.
    pub fn new() -> (r: Blockchain)
        ensures
            r.wf(),
            r.blocks@ == Seq::<Block>::empty(),
            r.accounts@ == Map::<Seq<char>, AccountModel>::empty(),
    {
        Blockchain { blocks: Vec::new(), accounts: Accounts::new() }
    }

    /// The content hash of the current head, for building the next
    /// candidate's `prev_hash`; `None` exactly when the chain is empty.
    pub fn get_last_block_hash(&self) -> (r: Option<u64>)
        ensures
            self.blocks@.len() == 0 ==> r is None,
            self.blocks@.len() > 0 ==> r == Some(spec_block_hash(self.blocks@.last())),
    {
        if self.blocks.len() == 0 {
            None
        } else {
            Some(self.blocks[self.blocks.len() - 1].content_hash())
        }
    }

    /// Validate `block` and, if it passes, execute its transactions in
    /// order; commit the block only when every transaction succeeds, and
    /// otherwise restore the account table to its pre-call state. Follows
    /// `spec_append` exactly.
    pub fn append_block(&mut self, block: Block) -> (r: Result<(), ChainError>)
        requires
            old(self).wf(),
        ensures
            final(self).wf(),
            (match spec_append(old(self).blocks@, old(self).accounts@, block) {
                Ok(m) => {
                    &&& r is Ok
                    &&& final(self).blocks@ == old(self).blocks@.push(block)
                    &&& final(self).accounts@ == m
                },
                Err(e) => {
                    &&& r == Err::<(), ChainError>(e)
                    &&& final(self).blocks@ == old(self).blocks@
                    &&& final(self).accounts@ == old(self).accounts@
                },
            }),
    {
        let is_genesis = self.blocks.len() == 0;

        if block.get_transaction_count() == 0 {
            return Err(ChainError::EmptyBlock);
        }
        let link_good = if self.blocks.len() == 0 {
            match block.prev_hash {
                None => true,
                Some(_) => false,
            }
        } else {
            let head_hash = self.blocks[self.blocks.len() - 1].content_hash();
            proof {
                assert(self.blocks@.last() == self.blocks@[self.blocks@.len() - 1]);
            }
            match block.prev_hash {
                Some(p) => p == head_hash,
                None => false,
            }
        };
        if !link_good {
            return Err(ChainError::BrokenChainLink);
        }
        if !block.verify_own_hash() {
            return Err(ChainError::HashMismatch);
        }

        // All checks passed; from here on, all-or-nothing execution
        // against a snapshot of the account table.
        let snapshot = self.accounts.duplicate();
        let ghost pre = self.accounts@;
        let n = block.transactions.len();
        let mut i: usize = 0;
        while i < n
            invariant
                old(self).wf(),
                i <= n,
                n == block.transactions@.len(),
                self.blocks@ == old(self).blocks@,
                self.accounts.wf(),
                snapshot.wf(),
                snapshot@ == old(self).accounts@,
                pre == old(self).accounts@,
                is_genesis == (old(self).blocks@.len() == 0),
                spec_validate(old(self).blocks@, block) is None,
                apply_txs_from(pre, block.transactions@, 0, is_genesis) == apply_txs_from(
                    self.accounts@,
                    block.transactions@,
                    i as int,
                    is_genesis,
                ),
            decreases n - i,
        {
            let ghost before = self.accounts@;
            let res = block.transactions[i].execute(&mut self.accounts, is_genesis);
            match res {
                Err(e) => {
                    proof {
                        assert(apply_tx(before, block.transactions@[i as int], is_genesis)
                            == Err::<Map<Seq<char>, AccountModel>, TxError>(e));
                        assert(apply_txs_from(before, block.transactions@, i as int, is_genesis)
                            == Err::<Map<Seq<char>, AccountModel>, (int, TxError)>(
                            ((i + 1) as int, e),
                        ));
                    }
                    self.accounts = snapshot;
                    return Err(ChainError::FailedTransaction { index: i + 1, cause: e });
                },
                Ok(_) => {
                    proof {
                        assert(apply_tx(before, block.transactions@[i as int], is_genesis)
                            == Ok::<Map<Seq<char>, AccountModel>, TxError>(self.accounts@));
                    }
                },
            }
            i += 1;
        }
        proof {
            assert(apply_txs_from(self.accounts@, block.transactions@, n as int, is_genesis)
                == Ok::<Map<Seq<char>, AccountModel>, (int, TxError)>(self.accounts@));
        }
        let ghost post = self.accounts@;
        self.blocks.push(block);
        proof {
            let bs = old(self).blocks@;
            let ns = self.blocks@;
            assert(ns == bs.push(block));
            assert(ns.drop_last() =~= bs);
            assert(ns.last() == block);
            assert(apply_chain(ns) == Some(post));
            assert forall|j: int| 0 <= j < ns.len() implies #[trigger] block_linked_at(ns, j) by {
                if j < bs.len() {
                    assert(block_linked_at(bs, j));
                    assert(ns[j] == bs[j]);
                    if j > 0 {
                        assert(ns[j - 1] == bs[j - 1]);
                    }
                } else {
                    assert(ns[j] == block);
                    if j > 0 {
                        assert(ns[j - 1] == bs[bs.len() - 1]);
                        assert(bs.last() == bs[bs.len() - 1]);
                    }
                }
            }
        }
        Ok(())
    }
}

} // verus!
