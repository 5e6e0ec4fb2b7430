//! Transactions and the transaction executor.
//!
//! `apply_tx` is the spec-level state transition of a single transaction:
//! the authoritative statement of which preconditions each payload kind
//! enforces and how it mutates the account table. `Transaction::execute` is
//! proved to follow it exactly, and to leave the table untouched whenever it
//! fails — no partially-applied transaction is ever observable.

use vstd::prelude::*;

use crate::account::{credit, debit, fresh_account, is_validator, Account, AccountModel,
    AccountType};
use crate::accounts::Accounts;
use crate::errors::TxError;

verus! {

/// The payload of a transaction: a closed set of kinds, handled
/// exhaustively by the executor.
#[derive(Clone, Debug, PartialEq)]
pub enum TransactionData {
    /// Register a new account under the given identifier.
    CreateUserAccount(String),
    /// Write into the sender's key-value store.
    ChangeStoreValue { key: String, value: String },
    /// Move balance from the sender to the recipient.
    TransferTokens { to: String, amount: u128 },
    /// Mint new balance out of nothing; privileged outside genesis.
    CreateTokens { receiver: String, amount: u128 },
}

/// A transaction: sender identifier, creation time (seconds, caller's
/// clock), a free-form nonce, a payload, and an optional signature. The
/// signature is opaque to this core and never verified here; an external
/// collaborator is expected to check it before the payload is trusted.
#[derive(Clone, Debug)]
pub struct Transaction {
    pub nonce: u128,
    pub from: String,
    pub created_at: u64,
    pub record: TransactionData,
    pub signature: Option<String>,
}

/// The state transition of one transaction against the account table.
///
/// Either every change the transaction implies is reflected in the result,
/// or the error says why none may be. `genesis` relaxes the minting rule:
/// inside the first block anyone may mint.
///
/// Two policy choices this core fixes: an account identifier is unique
/// across the whole chain, so creation checks the current table no matter
/// which block first registered the name; and minted amounts carry no cap
/// beyond the width of the balance field — a credit that would pass
/// `u128::MAX` fails with `BalanceOverflow`.
pub open spec fn apply_tx(
    state: Map<Seq<char>, AccountModel>,
    t: Transaction,
    genesis: bool,
) -> Result<Map<Seq<char>, AccountModel>, TxError> {
    match t.record {
        TransactionData::CreateUserAccount(id) => if state.contains_key(id@) {
            Err(TxError::AccountExists)
        } else {
            Ok(state.insert(id@, fresh_account(AccountType::User, 0)))
        },
        TransactionData::ChangeStoreValue { key, value } => if !state.contains_key(t.from@) {
            Err(TxError::UnknownAccount)
        } else {
            Ok(
                state.insert(
                    t.from@,
                    (AccountModel {
                        store: state[t.from@].store.insert(key@, value@),
                        ..state[t.from@]
                    }),
                ),
            )
        },
        TransactionData::TransferTokens { to, amount } => if !state.contains_key(t.from@)
            || !state.contains_key(to@) {
            Err(TxError::UnknownAccount)
        } else if state[t.from@].tokens < amount {
            Err(TxError::InsufficientFunds)
        } else {
            let debited = state.insert(t.from@, debit(state[t.from@], amount));
            if debited[to@].tokens + amount > u128::MAX {
                Err(TxError::BalanceOverflow)
            } else {
                Ok(debited.insert(to@, credit(debited[to@], amount)))
            }
        },
        TransactionData::CreateTokens { receiver, amount } => if !genesis && !(state.contains_key(
            t.from@,
        ) && is_validator(state[t.from@].acc_type)) {
            Err(TxError::UnauthorizedMint)
        } else if !state.contains_key(receiver@) {
            Ok(state.insert(receiver@, fresh_account(AccountType::User, amount)))
        } else if state[receiver@].tokens + amount > u128::MAX {
            Err(TxError::BalanceOverflow)
        } else {
            Ok(state.insert(receiver@, credit(state[receiver@], amount)))
        },
    }
}

impl Transaction {
    /// Apply this transaction's payload to the account table, following
    /// `apply_tx` exactly: on success the table holds the transition's
    /// result, on failure it is exactly as it was.
    pub fn execute(&self, accounts: &mut Accounts, is_genesis: bool) -> (r: Result<(), TxError>)
        requires
            old(accounts).wf(),
        ensures
            final(accounts).wf(),
            (match apply_tx(old(accounts)@, *self, is_genesis) {
                Ok(m) => r is Ok && final(accounts)@ == m,
                Err(e) => r == Err::<(), TxError>(e) && final(accounts)@ == old(accounts)@,
            }),
    {
        match &self.record {
            TransactionData::CreateUserAccount(id) => {
                let r = accounts.create_account(id.clone(), AccountType::User);
                match r {
                    Ok(_) => Ok(()),
                    Err(e) => Err(e),
                }
            },
            TransactionData::ChangeStoreValue { key, value } => {
                match accounts.get(&self.from) {
                    None => Err(TxError::UnknownAccount),
                    Some(sender) => {
                        let mut store = sender.store.duplicate();
                        let acc_type = sender.acc_type;
                        let tokens = sender.tokens;
                        store.set(key.clone(), value.clone());
                        accounts.put(self.from.clone(), Account { store, acc_type, tokens });
                        Ok(())
                    },
                }
            },
            TransactionData::TransferTokens { to, amount } => {
                let amount = *amount;
                if !accounts.contains(to) {
                    return Err(TxError::UnknownAccount);
                }
                let (sender_store, sender_type, sender_tokens) = match accounts.get(&self.from) {
                    None => {
                        return Err(TxError::UnknownAccount);
                    },
                    Some(sender) => (sender.store.duplicate(), sender.acc_type, sender.tokens),
                };
                if sender_tokens < amount {
                    return Err(TxError::InsufficientFunds);
                }
                if !self.from.eq(to) {
                    let recip_tokens = match accounts.get(to) {
                        None => {
                            return Err(TxError::UnknownAccount);
                        },
                        Some(recip) => recip.tokens,
                    };
                    if recip_tokens > u128::MAX - amount {
                        return Err(TxError::BalanceOverflow);
                    }
                }
                accounts.put(
                    self.from.clone(),
                    Account {
                        store: sender_store,
                        acc_type: sender_type,
                        tokens: sender_tokens - amount,
                    },
                );
                let (recip_store, recip_type, recip_tokens) = match accounts.get(to) {
                    None => {
                        return Err(TxError::UnknownAccount);
                    },
                    Some(recip) => (recip.store.duplicate(), recip.acc_type, recip.tokens),
                };
                accounts.put(
                    to.clone(),
                    Account {
                        store: recip_store,
                        acc_type: recip_type,
                        tokens: recip_tokens + amount,
                    },
                );
                Ok(())
            },
            TransactionData::CreateTokens { receiver, amount } => {
                let amount = *amount;
                if !is_genesis {
                    let authorized = match accounts.get(&self.from) {
                        Some(sender) => matches!(sender.acc_type, AccountType::Validator { .. }),
                        None => false,
                    };
                    if !authorized {
                        return Err(TxError::UnauthorizedMint);
                    }
                }
                match accounts.get(receiver) {
                    None => {
                        accounts.put(
                            receiver.clone(),
                            Account {
                                store: crate::account::Store::new(),
                                acc_type: AccountType::User,
                                tokens: amount,
                            },
                        );
                        Ok(())
                    },
                    Some(recip) => {
                        let (recip_store, recip_type, recip_tokens) = (
                            recip.store.duplicate(),
                            recip.acc_type,
                            recip.tokens,
                        );
                        if recip_tokens > u128::MAX - amount {
                            return Err(TxError::BalanceOverflow);
                        }
                        accounts.put(
                            receiver.clone(),
                            Account {
                                store: recip_store,
                                acc_type: recip_type,
                                tokens: recip_tokens + amount,
                            },
                        );
                        Ok(())
                    },
                }
            },
        }
    }
}

} // verus!
