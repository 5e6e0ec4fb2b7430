//! An append-only, in-memory ledger: a chain of blocks, each carrying an
//! ordered batch of transactions that mutate a shared account table.
//!
//! The heart of the library is the state-transition engine: the rules that
//! decide whether a candidate block may extend the chain, how each
//! transaction mutates account state, and the guarantee that the account
//! table is never left partially mutated when any transaction in a block
//! fails. Every rule is stated as a spec-level transition function and the
//! executable code is proved to follow it exactly.

pub mod account;
pub mod accounts;
pub mod block;
pub mod chain;
pub mod errors;
pub mod kv;
pub mod laws;
pub mod tx;
