//! Blocks and the content hash.
//!
//! The content hash is a deterministic, order-sensitive 64-bit digest over
//! a block's transaction sequence and nonce (an FNV-1a–style xor-multiply
//! fold). The encoding it commits to: the transaction count; then, per
//! transaction, its nonce (low and high halves), sender (length, then code
//! points), creation time, signature (presence flag, then the string), and
//! payload (a kind tag, then the fields in order); and finally the block
//! nonce. `prev_hash` and `trans_hash` themselves are not part of the
//! digest. Builder and validator agree on this layout because both call the
//! same function.

use vstd::prelude::*;

use crate::tx::{Transaction, TransactionData};

verus! {

/// Initial state of the hash fold.
pub const HASH_SEED: u64 = 0xcbf2_9ce4_8422_2325;

/// Multiplier of the hash fold.
pub const HASH_PRIME: u64 = 0x0000_0100_0000_01b3;

/// One step of the fold: xor the next token in, multiply wrapping.
pub open spec fn spec_mix(h: u64, x: u64) -> u64 {
    vstd::wrapping::u64_specs::wrapping_mul(h ^ x, HASH_PRIME)
}

/// Fold a 128-bit value in as its low and high halves.
pub open spec fn spec_mix_u128(h: u64, x: u128) -> u64 {
    spec_mix(spec_mix(h, x as u64), (x >> 64) as u64)
}

/// The token a character contributes: its code point.
pub open spec fn char_token(c: char) -> u64 {
    (c as u32) as u64
}

/// Fold a character sequence in, front to back.
pub open spec fn spec_mix_chars(h: u64, s: Seq<char>) -> u64
    decreases s.len(),
{
    if s.len() == 0 {
        h
    } else {
        spec_mix_chars(spec_mix(h, char_token(s[0])), s.drop_first())
    }
}

/// Fold a string in: its length, then its characters.
pub open spec fn spec_mix_str(h: u64, s: Seq<char>) -> u64 {
    spec_mix_chars(spec_mix(h, s.len() as u64), s)
}

/// Fold an optional string in: a presence flag, then the string.
pub open spec fn spec_mix_opt_str(h: u64, o: Option<String>) -> u64 {
    match o {
        None => spec_mix(h, 0),
        Some(s) => spec_mix_str(spec_mix(h, 1), s@),
    }
}

/// Fold a payload in: a tag for its kind, then its fields in order.
pub open spec fn spec_mix_record(h: u64, r: TransactionData) -> u64 {
    match r {
        TransactionData::CreateUserAccount(id) => spec_mix_str(spec_mix(h, 1), id@),
        TransactionData::ChangeStoreValue { key, value } => spec_mix_str(
            spec_mix_str(spec_mix(h, 2), key@),
            value@,
        ),
        TransactionData::TransferTokens { to, amount } => spec_mix_u128(
            spec_mix_str(spec_mix(h, 3), to@),
            amount,
        ),
        TransactionData::CreateTokens { receiver, amount } => spec_mix_u128(
            spec_mix_str(spec_mix(h, 4), receiver@),
            amount,
        ),
    }
}

/// Fold a whole transaction in, field by field.
pub open spec fn spec_mix_tx(h: u64, t: Transaction) -> u64 {
    spec_mix_record(
        spec_mix_opt_str(
            spec_mix(spec_mix_str(spec_mix_u128(h, t.nonce), t.from@), t.created_at),
            t.signature,
        ),
        t.record,
    )
}

/// Fold a transaction sequence in, front to back.
pub open spec fn spec_mix_txs(h: u64, txs: Seq<Transaction>) -> u64
    decreases txs.len(),
{
    if txs.len() == 0 {
        h
    } else {
        spec_mix_txs(spec_mix_tx(h, txs[0]), txs.drop_first())
    }
}

/// The content hash of a transaction sequence and a nonce.
pub open spec fn spec_content_hash(txs: Seq<Transaction>, nonce: u128) -> u64 {
    spec_mix_u128(spec_mix_txs(spec_mix(HASH_SEED, txs.len() as u64), txs), nonce)
}

/// The hash of a block: the content hash of its transactions and nonce.
pub open spec fn spec_block_hash(b: Block) -> u64 {
    spec_content_hash(b.transactions@, b.nonce)
}

fn mix(h: u64, x: u64) -> (r: u64)
    ensures
        r == spec_mix(h, x),
{
    (h ^ x).wrapping_mul(HASH_PRIME)
}

fn mix_u128(h: u64, x: u128) -> (r: u64)
    ensures
        r == spec_mix_u128(h, x),
{
    let lo = #[verifier::truncate] (x as u64);
    let hi = #[verifier::truncate] ((x >> 64) as u64);
    mix(mix(h, lo), hi)
}

fn mix_str(h: u64, s: &str) -> (r: u64)
    ensures
        r == spec_mix_str(h, s@),
{
    let n = s.unicode_len();
    let mut acc = mix(h, n as u64);
    proof {
        assert(s@.skip(0) =~= s@);
    }
    let mut i: usize = 0;
    while i < n
        invariant
            n as nat == s@.len(),
            i <= n,
            spec_mix_chars(acc, s@.skip(i as int)) == spec_mix_str(h, s@),
        decreases n - i,
    {
        let c = s.get_char(i);
        proof {
            assert(s@.skip(i as int)[0] == s@[i as int]);
            assert(s@.skip(i as int).drop_first() =~= s@.skip(i as int + 1));
        }
        acc = mix(acc, (c as u32) as u64);
        i += 1;
    }
    proof {
        assert(s@.skip(n as int) =~= Seq::<char>::empty());
    }
    acc
}

fn mix_opt_str(h: u64, o: &Option<String>) -> (r: u64)
    ensures
        r == spec_mix_opt_str(h, *o),
{
    match o {
        None => mix(h, 0),
        Some(s) => mix_str(mix(h, 1), s.as_str()),
    }
}

fn mix_record(h: u64, r: &TransactionData) -> (res: u64)
    ensures
        res == spec_mix_record(h, *r),
{
    match r {
        TransactionData::CreateUserAccount(id) => mix_str(mix(h, 1), id.as_str()),
        TransactionData::ChangeStoreValue { key, value } => mix_str(
            mix_str(mix(h, 2), key.as_str()),
            value.as_str(),
        ),
        TransactionData::TransferTokens { to, amount } => mix_u128(
            mix_str(mix(h, 3), to.as_str()),
            *amount,
        ),
        TransactionData::CreateTokens { receiver, amount } => mix_u128(
            mix_str(mix(h, 4), receiver.as_str()),
            *amount,
        ),
    }
}

fn mix_tx(h: u64, t: &Transaction) -> (r: u64)
    ensures
        r == spec_mix_tx(h, *t),
{
    let h1 = mix_u128(h, t.nonce);
    let h2 = mix_str(h1, t.from.as_str());
    let h3 = mix(h2, t.created_at);
    let h4 = mix_opt_str(h3, &t.signature);
    mix_record(h4, &t.record)
}

/// A single block: an ordered batch of transactions, the hash of the
/// preceding block (absent only on the very first block), the stored
/// content hash, and a free-form nonce (no difficulty target — proof of
/// work is out of scope).
#[derive(Clone, Debug)]
pub struct Block {
    pub transactions: Vec<Transaction>,
    pub prev_hash: Option<u64>,
    pub trans_hash: Option<u64>,
    pub nonce: u128,
}

impl Block {
    /// Build a block and stamp it with its own freshly computed content
    /// hash, so that `verify_own_hash` accepts it as long as it is not
    /// tampered with afterwards.
    pub fn new(transactions: Vec<Transaction>, prev_hash: Option<u64>, nonce: u128) -> (r: Block)
        ensures
            r.transactions@ == transactions@,
            r.prev_hash == prev_hash,
            r.nonce == nonce,
            r.trans_hash == Some(spec_block_hash(r)),
    {
        let mut b = Block { transactions, prev_hash, trans_hash: None, nonce };
        let h = b.content_hash();
        b.trans_hash = Some(h);
        b
    }

    /// Recompute the content hash over this block's transactions and nonce.
    pub fn content_hash(&self) -> (h: u64)
        ensures
            h == spec_block_hash(*self),
    {
        let n = self.transactions.len();
        let mut acc = mix(HASH_SEED, n as u64);
        proof {
            assert(self.transactions@.skip(0) =~= self.transactions@);
        }
        let mut i: usize = 0;
        while i < n
            invariant
                n == self.transactions@.len(),
                i <= n,
                spec_mix_txs(acc, self.transactions@.skip(i as int)) == spec_mix_txs(
                    spec_mix(HASH_SEED, self.transactions@.len() as u64),
                    self.transactions@,
                ),
            decreases n - i,
        {
            proof {
                assert(self.transactions@.skip(i as int)[0] == self.transactions@[i as int]);
                assert(self.transactions@.skip(i as int).drop_first() =~= self.transactions@.skip(
                    i as int + 1,
                ));
            }
            acc = mix_tx(acc, &self.transactions[i]);
            i += 1;
        }
        proof {
            assert(self.transactions@.skip(n as int) =~= Seq::<Transaction>::empty());
        }
        mix_u128(acc, self.nonce)
    }

    /// Whether the stored `trans_hash` is present and equals the hash
    /// recomputed from the block's own transactions and nonce.
    pub fn verify_own_hash(&self) -> (r: bool)
        ensures
            r == (self.trans_hash == Some(spec_block_hash(*self))),
    {
        let h = self.content_hash();
        match self.trans_hash {
            Some(t) => t == h,
            None => false,
        }
    }

    /// How many transactions the block carries.
    pub fn get_transaction_count(&self) -> (n: usize)
        ensures
            n == self.transactions@.len(),
    {
        self.transactions.len()
    }
}

} // verus!
