//! Accounts: a key-value data store, an account type, and a token balance.

use vstd::prelude::*;

use crate::kv::{kv_distinct, kv_map, lemma_kv_contains, lemma_kv_index, lemma_kv_push,
    lemma_kv_push_distinct, lemma_kv_remove};

verus! {

/// The role of an account. Only validators may mint tokens outside the
/// genesis block; the per-validator counters are carried but not exercised
/// by this core.
#[derive(Clone, Copy, Debug, PartialEq, Eq, Structural)]
pub enum AccountType {
    User,
    Contract,
    Validator { correctly_validated_blocks: u128, incorrectly_validated_blocks: u128 },
}

/// Mathematical model of one account: the data store as a map over
/// character sequences, the account type, and the balance.
#[verifier::ext_equal]
pub ghost struct AccountModel {
    pub store: Map<Seq<char>, Seq<char>>,
    pub acc_type: AccountType,
    pub tokens: u128,
}

/// A just-created account: empty store, the given type and balance.
pub open spec fn fresh_account(acc_type: AccountType, tokens: u128) -> AccountModel {
    AccountModel { store: Map::empty(), acc_type, tokens }
}

/// The same account with `amount` taken from its balance.
pub open spec fn debit(m: AccountModel, amount: u128) -> AccountModel {
    AccountModel { tokens: (m.tokens - amount) as u128, ..m }
}

/// The same account with `amount` added to its balance.
pub open spec fn credit(m: AccountModel, amount: u128) -> AccountModel {
    AccountModel { tokens: (m.tokens + amount) as u128, ..m }
}

/// Whether this account type may mint tokens outside the genesis block.
pub open spec fn is_validator(t: AccountType) -> bool {
    t is Validator
}

/// An account's key-value data store: arbitrary application data, keys
/// unique.
pub struct Store {
    entries: Vec<(String, String)>,
}

/// The key-value pairs of a store, by view.
pub open spec fn store_pairs(s: Seq<(String, String)>) -> Seq<(Seq<char>, Seq<char>)> {
    s.map_values(|e: (String, String)| (e.0@, e.1@))
}

impl View for Store {
    type V = Map<Seq<char>, Seq<char>>;

    closed spec fn view(&self) -> Map<Seq<char>, Seq<char>> {
        kv_map(store_pairs(self.entries@))
    }
}

impl Store {
    /// Keys are pairwise distinct, so the list denotes its map faithfully.
    pub closed spec fn wf(&self) -> bool {
        kv_distinct(store_pairs(self.entries@))
    }

    /// An empty store.
    pub fn new() -> (r: Store)
        ensures
            r@ == Map::<Seq<char>, Seq<char>>::empty(),
            r.wf(),
    {
        let entries: Vec<(String, String)> = Vec::new();
        proof {
            assert(store_pairs(entries@) =~= Seq::<(Seq<char>, Seq<char>)>::empty());
        }
        Store { entries }
    }

    /// Look the value for `key` up; `None` exactly when the key is absent.
    pub fn get<'a>(&'a self, key: &String) -> (r: Option<&'a String>)
        requires
            self.wf(),
        ensures
            match r {
                Some(v) => self@.contains_key(key@) && v@ == self@[key@],
                None => !self@.contains_key(key@),
            },
    {
        let ghost ps = store_pairs(self.entries@);
        let mut i: usize = 0;
        while i < self.entries.len()
            invariant
                self.wf(),
                i <= self.entries.len(),
                ps == store_pairs(self.entries@),
                forall|j: int| 0 <= j < i ==> (#[trigger] ps[j]).0 != key@,
            decreases self.entries.len() - i,
        {
            if self.entries[i].0.eq(key) {
                proof {
                    lemma_kv_index(ps, i as int);
                }
                return Some(&self.entries[i].1);
            }
            i += 1;
        }
        proof {
            lemma_kv_contains(ps, key@);
        }
        None
    }

    /// Bind `key` to `value`, overwriting any prior value for that key.
    pub fn set(&mut self, key: String, value: String)
        requires
            old(self).wf(),
        ensures
            final(self).wf(),
            final(self)@ == old(self)@.insert(key@, value@),
    {
        let ghost ps = store_pairs(self.entries@);
        let mut i: usize = 0;
        while i < self.entries.len()
            invariant
                self == old(self),
                self.wf(),
                i <= self.entries.len(),
                ps == store_pairs(self.entries@),
                forall|j: int| 0 <= j < i ==> (#[trigger] ps[j]).0 != key@,
            decreases self.entries.len() - i,
        {
            if self.entries[i].0.eq(&key) {
                proof {
                    lemma_kv_remove(ps, i as int);
                    lemma_kv_index(ps, i as int);
                }
                let _ = self.entries.remove(i);
                proof {
                    assert(store_pairs(self.entries@) =~= ps.remove(i as int));
                    lemma_kv_push(ps.remove(i as int), (key@, value@));
                    assert forall|j: int| 0 <= j < ps.remove(i as int).len() implies (
                    #[trigger] ps.remove(i as int)[j]).0 != key@ by {
                        let orig = if j < i { j } else { j + 1 };
                        assert(ps.remove(i as int)[j] == ps[orig]);
                    }
                    lemma_kv_push_distinct(ps.remove(i as int), (key@, value@));
                }
                self.entries.push((key, value));
                proof {
                    assert(store_pairs(self.entries@) =~= ps.remove(i as int).push((key@, value@)));
                    assert(final(self)@ =~= old(self)@.insert(key@, value@));
                }
                return;
            }
            i += 1;
        }
        proof {
            lemma_kv_contains(ps, key@);
            lemma_kv_push(ps, (key@, value@));
            lemma_kv_push_distinct(ps, (key@, value@));
        }
        self.entries.push((key, value));
        proof {
            assert(store_pairs(self.entries@) =~= ps.push((key@, value@)));
        }
    }

    /// A fresh store with the same contents.
    pub fn duplicate(&self) -> (r: Store)
        ensures
            r@ == self@,
            self.wf() ==> r.wf(),
    {
        let mut entries: Vec<(String, String)> = Vec::new();
        let mut i: usize = 0;
        while i < self.entries.len()
            invariant
                i <= self.entries.len(),
                entries@.len() == i,
                forall|j: int| 0 <= j < i ==> entries@[j] == self.entries@[j],
            decreases self.entries.len() - i,
        {
            let e = &self.entries[i];
            entries.push((e.0.clone(), e.1.clone()));
            i += 1;
        }
        proof {
            assert(entries@ =~= self.entries@);
        }
        Store { entries }
    }
}

/// An active account. Identified externally by a string key; the identifier
/// is not stored inside the struct itself.
pub struct Account {
    /// Arbitrary application data, written by `ChangeStoreValue`.
    pub store: Store,
    /// The account's role.
    pub acc_type: AccountType,
    /// Token balance; a `u128`, so it can never be negative.
    pub tokens: u128,
}

impl View for Account {
    type V = AccountModel;

    open spec fn view(&self) -> AccountModel {
        AccountModel { store: self.store@, acc_type: self.acc_type, tokens: self.tokens }
    }
}

impl Account {
    pub open spec fn wf(&self) -> bool {
        self.store.wf()
    }

    /// A fresh account of the given type: empty store, zero balance.
    pub fn new(account_type: AccountType) -> (r: Account)
        ensures
            r.wf(),
            r@ == (AccountModel {
                store: Map::<Seq<char>, Seq<char>>::empty(),
                acc_type: account_type,
                tokens: 0,
            }),
    {
        Account { store: Store::new(), acc_type: account_type, tokens: 0 }
    }

    /// A fresh account with the same contents.
    pub fn duplicate(&self) -> (r: Account)
        ensures
            r@ == self@,
            self.wf() ==> r.wf(),
    {
        Account { store: self.store.duplicate(), acc_type: self.acc_type, tokens: self.tokens }
    }
}

} // verus!
