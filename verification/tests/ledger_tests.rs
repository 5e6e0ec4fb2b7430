use ledger::account::{Account, AccountType, Store};
use ledger::accounts::Accounts;
use ledger::block::Block;
use ledger::chain::Blockchain;
use ledger::errors::{ChainError, TxError};
use ledger::tx::{Transaction, TransactionData};

fn tx(from: &str, record: TransactionData) -> Transaction {
    Transaction {
        nonce: 1,
        from: from.to_string(),
        created_at: 1_700_000_000,
        record,
        signature: None,
    }
}

fn create(id: &str) -> TransactionData {
    TransactionData::CreateUserAccount(id.to_string())
}

fn mint(receiver: &str, amount: u128) -> TransactionData {
    TransactionData::CreateTokens { receiver: receiver.to_string(), amount }
}

fn transfer(to: &str, amount: u128) -> TransactionData {
    TransactionData::TransferTokens { to: to.to_string(), amount }
}

fn set_value(key: &str, value: &str) -> TransactionData {
    TransactionData::ChangeStoreValue { key: key.to_string(), value: value.to_string() }
}

/// A chain whose genesis block registered "alice" and minted her `funds`.
fn funded_chain(funds: u128) -> Blockchain {
    let mut chain = Blockchain::new();
    let b = Block::new(vec![tx("alice", create("alice")), tx("alice", mint("alice", funds))], None, 0);
    assert!(chain.append_block(b).is_ok());
    chain
}

fn balance(chain: &Blockchain, id: &str) -> u128 {
    chain.accounts.get(&id.to_string()).expect("account missing").tokens
}

#[test]
fn genesis_create_user_succeeds() {
    let mut chain = Blockchain::new();
    let b = Block::new(vec![tx("alice", create("alice"))], None, 7);
    assert!(chain.append_block(b).is_ok());
    assert_eq!(chain.blocks.len(), 1);
    let alice = chain.accounts.get(&"alice".to_string()).expect("alice missing");
    assert_eq!(alice.tokens, 0);
    assert!(matches!(alice.acc_type, AccountType::User));
}

#[test]
fn unauthorized_mint_fails_and_leaves_accounts_unchanged() {
    let mut chain = funded_chain(0);
    let head = chain.get_last_block_hash();
    assert!(head.is_some());
    let b2 = Block::new(vec![tx("alice", mint("alice", 100))], head, 1);
    let r = chain.append_block(b2);
    assert_eq!(
        r,
        Err(ChainError::FailedTransaction { index: 1, cause: TxError::UnauthorizedMint })
    );
    assert_eq!(chain.blocks.len(), 1);
    assert_eq!(balance(&chain, "alice"), 0);
}

#[test]
fn failed_transfer_rolls_back_earlier_transactions() {
    let mut chain = funded_chain(30);
    let head = chain.get_last_block_hash();
    let b2 = Block::new(
        vec![tx("alice", create("bob")), tx("alice", transfer("bob", 50))],
        head,
        2,
    );
    let r = chain.append_block(b2);
    assert_eq!(
        r,
        Err(ChainError::FailedTransaction { index: 2, cause: TxError::InsufficientFunds })
    );
    // Transaction 1 created "bob", but the whole block was rolled back.
    assert!(chain.accounts.get(&"bob".to_string()).is_none());
    assert_eq!(balance(&chain, "alice"), 30);
    assert_eq!(chain.blocks.len(), 1);
}

#[test]
fn empty_block_rejected() {
    let mut chain = Blockchain::new();
    let b = Block::new(Vec::new(), None, 0);
    assert_eq!(chain.append_block(b), Err(ChainError::EmptyBlock));
    assert_eq!(chain.blocks.len(), 0);
}

#[test]
fn emptiness_is_checked_before_linkage() {
    // An empty block that is also badly linked fails as empty: the
    // validator short-circuits on the first failed check.
    let mut chain = funded_chain(0);
    let b = Block::new(Vec::new(), None, 0);
    assert_eq!(chain.append_block(b), Err(ChainError::EmptyBlock));
}

#[test]
fn first_block_must_not_carry_prev_hash() {
    let mut chain = Blockchain::new();
    let b = Block::new(vec![tx("alice", create("alice"))], Some(42), 0);
    assert_eq!(chain.append_block(b), Err(ChainError::BrokenChainLink));
    assert_eq!(chain.blocks.len(), 0);
}

#[test]
fn non_first_block_must_point_at_head() {
    let mut chain = funded_chain(0);
    let head = chain.get_last_block_hash().unwrap();

    let absent = Block::new(vec![tx("alice", create("carol"))], None, 1);
    assert_eq!(chain.append_block(absent), Err(ChainError::BrokenChainLink));

    let wrong = Block::new(vec![tx("alice", create("carol"))], Some(head.wrapping_add(1)), 1);
    assert_eq!(chain.append_block(wrong), Err(ChainError::BrokenChainLink));

    let right = Block::new(vec![tx("alice", create("carol"))], Some(head), 1);
    assert!(chain.append_block(right).is_ok());
    assert_eq!(chain.blocks.len(), 2);
}

#[test]
fn tampered_transaction_causes_hash_mismatch() {
    let mut chain = funded_chain(100);
    let head = chain.get_last_block_hash();
    let mut b2 = Block::new(vec![tx("alice", create("bob"))], head, 3);
    assert!(b2.verify_own_hash());
    b2.transactions[0].record = create("mallory");
    assert!(!b2.verify_own_hash());
    assert_eq!(chain.append_block(b2), Err(ChainError::HashMismatch));
    assert!(chain.accounts.get(&"mallory".to_string()).is_none());
    assert_eq!(chain.blocks.len(), 1);
}

#[test]
fn tampered_nonce_causes_hash_mismatch() {
    let mut chain = funded_chain(0);
    let head = chain.get_last_block_hash();
    let mut b2 = Block::new(vec![tx("alice", create("bob"))], head, 3);
    b2.nonce = 4;
    assert!(!b2.verify_own_hash());
    assert_eq!(chain.append_block(b2), Err(ChainError::HashMismatch));
}

#[test]
fn reordered_transactions_cause_hash_mismatch() {
    let mut chain = funded_chain(10);
    let head = chain.get_last_block_hash();
    let mut b2 = Block::new(
        vec![tx("alice", create("bob")), tx("alice", transfer("bob", 5))],
        head,
        3,
    );
    b2.transactions.swap(0, 1);
    assert!(!b2.verify_own_hash());
    assert_eq!(chain.append_block(b2), Err(ChainError::HashMismatch));
    assert_eq!(balance(&chain, "alice"), 10);
}

#[test]
fn absent_trans_hash_causes_hash_mismatch() {
    let mut chain = Blockchain::new();
    let b = Block {
        transactions: vec![tx("alice", create("alice"))],
        prev_hash: None,
        trans_hash: None,
        nonce: 0,
    };
    assert_eq!(chain.append_block(b), Err(ChainError::HashMismatch));
}

#[test]
fn rejection_is_idempotent() {
    let mut chain = funded_chain(0);
    let head = chain.get_last_block_hash();
    let bad = Block::new(vec![tx("alice", mint("alice", 5))], head, 9);
    let expected =
        Err(ChainError::FailedTransaction { index: 1, cause: TxError::UnauthorizedMint });
    let r1 = chain.append_block(bad.clone());
    let r2 = chain.append_block(bad);
    assert_eq!(r1, expected);
    assert_eq!(r2, expected);
    assert_eq!(chain.blocks.len(), 1);
}

#[test]
fn duplicate_account_creation_fails_across_blocks() {
    let mut chain = funded_chain(0);
    let head = chain.get_last_block_hash();
    let b2 = Block::new(vec![tx("alice", create("alice"))], head, 1);
    assert_eq!(
        chain.append_block(b2),
        Err(ChainError::FailedTransaction { index: 1, cause: TxError::AccountExists })
    );
}

#[test]
fn duplicate_account_creation_fails_within_a_block() {
    let mut chain = Blockchain::new();
    let b = Block::new(vec![tx("a", create("bob")), tx("a", create("bob"))], None, 0);
    assert_eq!(
        chain.append_block(b),
        Err(ChainError::FailedTransaction { index: 2, cause: TxError::AccountExists })
    );
    assert!(chain.accounts.get(&"bob".to_string()).is_none());
}

#[test]
fn store_write_requires_known_sender() {
    let mut chain = Blockchain::new();
    let b = Block::new(vec![tx("ghost", set_value("k", "v"))], None, 0);
    assert_eq!(
        chain.append_block(b),
        Err(ChainError::FailedTransaction { index: 1, cause: TxError::UnknownAccount })
    );
}

#[test]
fn store_write_sets_and_overwrites() {
    let mut chain = funded_chain(0);
    let head = chain.get_last_block_hash();
    let b2 = Block::new(
        vec![
            tx("alice", set_value("color", "red")),
            tx("alice", set_value("shape", "disc")),
            tx("alice", set_value("color", "blue")),
        ],
        head,
        1,
    );
    assert!(chain.append_block(b2).is_ok());
    let alice = chain.accounts.get(&"alice".to_string()).unwrap();
    assert_eq!(alice.store.get(&"color".to_string()), Some(&"blue".to_string()));
    assert_eq!(alice.store.get(&"shape".to_string()), Some(&"disc".to_string()));
    assert_eq!(alice.store.get(&"size".to_string()), None);
}

#[test]
fn transfer_moves_balance() {
    let mut chain = funded_chain(100);
    let head = chain.get_last_block_hash();
    let b2 = Block::new(
        vec![tx("alice", create("bob")), tx("alice", transfer("bob", 40))],
        head,
        1,
    );
    assert!(chain.append_block(b2).is_ok());
    assert_eq!(balance(&chain, "alice"), 60);
    assert_eq!(balance(&chain, "bob"), 40);
}

#[test]
fn transfer_to_unknown_recipient_fails() {
    let mut chain = funded_chain(100);
    let head = chain.get_last_block_hash();
    let b2 = Block::new(vec![tx("alice", transfer("nobody", 1))], head, 1);
    assert_eq!(
        chain.append_block(b2),
        Err(ChainError::FailedTransaction { index: 1, cause: TxError::UnknownAccount })
    );
    assert_eq!(balance(&chain, "alice"), 100);
}

#[test]
fn transfer_from_unknown_sender_fails() {
    let mut chain = funded_chain(100);
    let head = chain.get_last_block_hash();
    let b2 = Block::new(vec![tx("ghost", transfer("alice", 1))], head, 1);
    assert_eq!(
        chain.append_block(b2),
        Err(ChainError::FailedTransaction { index: 1, cause: TxError::UnknownAccount })
    );
}

#[test]
fn self_transfer_keeps_balance() {
    let mut chain = funded_chain(25);
    let head = chain.get_last_block_hash();
    let b2 = Block::new(vec![tx("alice", transfer("alice", 10))], head, 1);
    assert!(chain.append_block(b2).is_ok());
    assert_eq!(balance(&chain, "alice"), 25);
}

#[test]
fn genesis_mint_is_open_to_anyone_and_creates_receiver() {
    let mut chain = Blockchain::new();
    let b = Block::new(vec![tx("nobody", mint("alice", 100))], None, 0);
    assert!(chain.append_block(b).is_ok());
    let alice = chain.accounts.get(&"alice".to_string()).unwrap();
    assert_eq!(alice.tokens, 100);
    assert!(matches!(alice.acc_type, AccountType::User));
}

#[test]
fn validator_may_mint_outside_genesis() {
    let mut accounts = Accounts::new();
    let validator = AccountType::Validator {
        correctly_validated_blocks: 0,
        incorrectly_validated_blocks: 0,
    };
    assert!(accounts.create_account("val".to_string(), validator).is_ok());
    let t = tx("val", mint("val", 77));
    assert_eq!(t.execute(&mut accounts, false), Ok(()));
    assert_eq!(accounts.get(&"val".to_string()).unwrap().tokens, 77);
}

#[test]
fn mint_overflow_is_rejected() {
    let mut accounts = Accounts::new();
    let t1 = tx("anyone", mint("alice", u128::MAX));
    assert_eq!(t1.execute(&mut accounts, true), Ok(()));
    let t2 = tx("anyone", mint("alice", 1));
    assert_eq!(t2.execute(&mut accounts, true), Err(TxError::BalanceOverflow));
    assert_eq!(accounts.get(&"alice".to_string()).unwrap().tokens, u128::MAX);
}

#[test]
fn transfer_overflow_is_rejected() {
    let mut accounts = Accounts::new();
    assert_eq!(tx("a", mint("rich", u128::MAX)).execute(&mut accounts, true), Ok(()));
    assert_eq!(tx("a", mint("poor", 5)).execute(&mut accounts, true), Ok(()));
    let t = tx("poor", transfer("rich", 2));
    assert_eq!(t.execute(&mut accounts, false), Err(TxError::BalanceOverflow));
    assert_eq!(accounts.get(&"rich".to_string()).unwrap().tokens, u128::MAX);
    assert_eq!(accounts.get(&"poor".to_string()).unwrap().tokens, 5);
}

#[test]
fn content_hash_is_deterministic_and_order_sensitive() {
    let a = Block::new(vec![tx("x", create("p")), tx("x", create("q"))], None, 5);
    let b = Block::new(vec![tx("x", create("p")), tx("x", create("q"))], None, 5);
    assert_eq!(a.content_hash(), b.content_hash());
    let swapped = Block::new(vec![tx("x", create("q")), tx("x", create("p"))], None, 5);
    assert_ne!(a.content_hash(), swapped.content_hash());
    let other_nonce = Block::new(vec![tx("x", create("p")), tx("x", create("q"))], None, 6);
    assert_ne!(a.content_hash(), other_nonce.content_hash());
}

#[test]
fn signature_is_carried_but_changes_the_hash_only() {
    let mut signed = tx("alice", create("alice"));
    signed.signature = Some("opaque-signature-bytes".to_string());
    let plain = Block::new(vec![tx("alice", create("alice"))], None, 0);
    let b = Block::new(vec![signed], None, 0);
    assert_ne!(plain.content_hash(), b.content_hash());
    let mut chain = Blockchain::new();
    assert!(chain.append_block(b).is_ok());
    assert_eq!(balance(&chain, "alice"), 0);
}

#[test]
fn get_last_block_hash_tracks_the_head() {
    let mut chain = Blockchain::new();
    assert_eq!(chain.get_last_block_hash(), None);
    let b = Block::new(vec![tx("alice", create("alice"))], None, 0);
    let expected = b.content_hash();
    assert!(chain.append_block(b).is_ok());
    assert_eq!(chain.get_last_block_hash(), Some(expected));
    assert_eq!(chain.blocks[0].content_hash(), expected);
}

#[test]
fn account_new_starts_empty() {
    let a = Account::new(AccountType::Contract);
    assert_eq!(a.tokens, 0);
    assert!(matches!(a.acc_type, AccountType::Contract));
    assert_eq!(a.store.get(&"anything".to_string()), None);
}

#[test]
fn store_set_get_and_duplicate() {
    let mut s = Store::new();
    s.set("k".to_string(), "v1".to_string());
    s.set("k".to_string(), "v2".to_string());
    let copy = s.duplicate();
    s.set("k".to_string(), "v3".to_string());
    assert_eq!(s.get(&"k".to_string()), Some(&"v3".to_string()));
    assert_eq!(copy.get(&"k".to_string()), Some(&"v2".to_string()));
}

#[test]
fn accounts_create_get_contains_and_list() {
    let mut accounts = Accounts::new();
    assert!(accounts.create_account("a".to_string(), AccountType::User).is_ok());
    assert!(accounts.create_account("b".to_string(), AccountType::Contract).is_ok());
    assert_eq!(
        accounts.create_account("a".to_string(), AccountType::User),
        Err(TxError::AccountExists)
    );
    assert!(accounts.contains(&"a".to_string()));
    assert!(!accounts.contains(&"c".to_string()));
    let mut ids = accounts.list_ids();
    ids.sort();
    assert_eq!(ids, vec!["a".to_string(), "b".to_string()]);
}

#[test]
fn accounts_duplicate_is_independent() {
    let mut accounts = Accounts::new();
    assert!(accounts.create_account("a".to_string(), AccountType::User).is_ok());
    let copy = accounts.duplicate();
    let mut richer = Account::new(AccountType::User);
    richer.tokens = 9;
    accounts.put("a".to_string(), richer);
    assert_eq!(accounts.get(&"a".to_string()).unwrap().tokens, 9);
    assert_eq!(copy.get(&"a".to_string()).unwrap().tokens, 0);
}

#[test]
fn a_longer_chain_stays_consistent() {
    let mut chain = funded_chain(1000);
    for step in 0..5u128 {
        let head = chain.get_last_block_hash();
        let name = format!("acct{}", step);
        let b = Block::new(
            vec![tx("alice", create(&name)), tx("alice", transfer(&name, 100))],
            head,
            step,
        );
        assert!(chain.append_block(b).is_ok());
    }
    assert_eq!(chain.blocks.len(), 6);
    assert_eq!(balance(&chain, "alice"), 500);
    for step in 0..5u128 {
        assert_eq!(balance(&chain, &format!("acct{}", step)), 100);
    }
}
