//! The account store: a mapping from account identifier to account, keys
//! unique. No validation of *why* a mutation is requested happens here —
//! that is the transaction executor's job.

use vstd::prelude::*;

use crate::account::{fresh_account, Account, AccountModel, AccountType};
use crate::errors::TxError;
use crate::kv::{kv_distinct, kv_map, lemma_kv_contains, lemma_kv_index, lemma_kv_push,
    lemma_kv_push_distinct, lemma_kv_remove};

verus! {

/// The account table, owned by the blockchain.
pub struct Accounts {
    entries: Vec<(String, Account)>,
}

/// The identifier-to-model pairs of an account table, by view.
pub open spec fn account_pairs(s: Seq<(String, Account)>) -> Seq<(Seq<char>, AccountModel)> {
    s.map_values(|e: (String, Account)| (e.0@, e.1@))
}

impl View for Accounts {
    type V = Map<Seq<char>, AccountModel>;

    closed spec fn view(&self) -> Map<Seq<char>, AccountModel> {
        kv_map(account_pairs(self.entries@))
    }
}

impl Accounts {
    /// Identifiers are pairwise distinct and every stored account is
    /// well-formed.
    pub closed spec fn wf(&self) -> bool {
        &&& kv_distinct(account_pairs(self.entries@))
        &&& forall|i: int|
            0 <= i < self.entries@.len() ==> (#[trigger] self.entries@[i]).1.wf()
    }

    /// An empty account table.
    pub fn new() -> (r: Accounts)
        ensures
            r@ == Map::<Seq<char>, AccountModel>::empty(),
            r.wf(),
    {
        let entries: Vec<(String, Account)> = Vec::new();
        proof {
            assert(account_pairs(entries@) =~= Seq::<(Seq<char>, AccountModel)>::empty());
        }
        Accounts { entries }
    }

    /// Look the account for `id` up; `None` exactly when the identifier is
    /// unknown.
    pub fn get<'a>(&'a self, id: &String) -> (r: Option<&'a Account>)
        requires
            self.wf(),
        ensures
            match r {
                Some(a) => self@.contains_key(id@) && a@ == self@[id@] && a.wf(),
                None => !self@.contains_key(id@),
            },
    {
        let ghost ps = account_pairs(self.entries@);
        let mut i: usize = 0;
        while i < self.entries.len()
            invariant
                self.wf(),
                i <= self.entries.len(),
                ps == account_pairs(self.entries@),
                forall|j: int| 0 <= j < i ==> (#[trigger] ps[j]).0 != id@,
            decreases self.entries.len() - i,
        {
            if self.entries[i].0.eq(id) {
                proof {
                    lemma_kv_index(ps, i as int);
                }
                return Some(&self.entries[i].1);
            }
            i += 1;
        }
        proof {
            lemma_kv_contains(ps, id@);
        }
        None
    }

    /// Whether an account with this identifier exists.
    pub fn contains(&self, id: &String) -> (r: bool)
        requires
            self.wf(),
        ensures
            r == self@.contains_key(id@),
    {
        match self.get(id) {
            Some(_) => true,
            None => false,
        }
    }

    /// Bind `id` to `account`, replacing any account previously stored
    /// under that identifier.
    pub fn put(&mut self, id: String, account: Account)
        requires
            old(self).wf(),
            account.wf(),
        ensures
            final(self).wf(),
            final(self)@ == old(self)@.insert(id@, account@),
    {
        let ghost ps = account_pairs(self.entries@);
        let mut i: usize = 0;
        while i < self.entries.len()
            invariant
                self == old(self),
                self.wf(),
                account.wf(),
                i <= self.entries.len(),
                ps == account_pairs(self.entries@),
                forall|j: int| 0 <= j < i ==> (#[trigger] ps[j]).0 != id@,
            decreases self.entries.len() - i,
        {
            if self.entries[i].0.eq(&id) {
                proof {
                    lemma_kv_remove(ps, i as int);
                    lemma_kv_index(ps, i as int);
                }
                let _ = self.entries.remove(i);
                proof {
                    assert(account_pairs(self.entries@) =~= ps.remove(i as int));
                    lemma_kv_push(ps.remove(i as int), (id@, account@));
                    assert forall|j: int| 0 <= j < ps.remove(i as int).len() implies (
                    #[trigger] ps.remove(i as int)[j]).0 != id@ by {
                        let orig = if j < i { j } else { j + 1 };
                        assert(ps.remove(i as int)[j] == ps[orig]);
                    }
                    lemma_kv_push_distinct(ps.remove(i as int), (id@, account@));
                }
                self.entries.push((id, account));
                proof {
                    assert(account_pairs(self.entries@) =~= ps.remove(i as int).push(
                        (id@, account@),
                    ));
                    assert(final(self)@ =~= old(self)@.insert(id@, account@));
                    assert forall|j: int|
                        0 <= j < self.entries@.len() implies (
                    #[trigger] self.entries@[j]).1.wf() by {
                        if j < self.entries@.len() - 1 {
                            let orig: int = if j < i { j } else { j + 1 };
                            assert(self.entries@[j] == old(self).entries@.remove(i as int)[j]);
                            assert(self.entries@[j] == old(self).entries@[orig]);
                        } else {
                            assert(self.entries@[j].1 == account);
                        }
                    }
                }
                return;
            }
            i += 1;
        }
        proof {
            lemma_kv_contains(ps, id@);
            lemma_kv_push(ps, (id@, account@));
            lemma_kv_push_distinct(ps, (id@, account@));
        }
        self.entries.push((id, account));
        proof {
            assert(account_pairs(self.entries@) =~= ps.push((id@, account@)));
        }
    }

    /// Register a fresh account under `id`: empty store, given type, zero
    /// balance. Fails, changing nothing, when the identifier is taken.
    pub fn create_account(&mut self, id: String, account_type: AccountType) -> (r: Result<
        (),
        TxError,
    >)
        requires
            old(self).wf(),
        ensures
            final(self).wf(),
            old(self)@.contains_key(id@) ==> r == Err::<(), TxError>(TxError::AccountExists)
                && final(self)@ == old(self)@,
            !old(self)@.contains_key(id@) ==> r is Ok && final(self)@ == old(self)@.insert(
                id@,
                fresh_account(account_type, 0),
            ),
    {
        if self.contains(&id) {
            Err(TxError::AccountExists)
        } else {
            self.put(id, Account::new(account_type));
            Ok(())
        }
    }

    /// A fresh table with the same contents.
    pub fn duplicate(&self) -> (r: Accounts)
        requires
            self.wf(),
        ensures
            r.wf(),
            r@ == self@,
    {
        let mut entries: Vec<(String, Account)> = Vec::new();
        let mut i: usize = 0;
        while i < self.entries.len()
            invariant
                self.wf(),
                i <= self.entries.len(),
                entries@.len() == i,
                forall|j: int|
                    0 <= j < i ==> (#[trigger] entries@[j]).0@ == self.entries@[j].0@
                        && entries@[j].1@ == self.entries@[j].1@ && entries@[j].1.wf(),
            decreases self.entries.len() - i,
        {
            let e = &self.entries[i];
            entries.push((e.0.clone(), e.1.duplicate()));
            i += 1;
        }
        proof {
            assert(account_pairs(entries@) =~= account_pairs(self.entries@));
        }
        Accounts { entries }
    }

    /// All known account identifiers; their order carries no meaning.
    pub fn list_ids(&self) -> (r: Vec<String>)
        requires
            self.wf(),
        ensures
            forall|k: Seq<char>|
                self@.contains_key(k) <==> exists|i: int| 0 <= i < r@.len() && (#[trigger] r@[i])@
                    == k,
            forall|i: int, j: int| 0 <= i < j < r@.len() ==> (#[trigger] r@[i])@ != (
            #[trigger] r@[j])@,
    {
        let ghost ps = account_pairs(self.entries@);
        let mut r: Vec<String> = Vec::new();
        let mut i: usize = 0;
        while i < self.entries.len()
            invariant
                self.wf(),
                i <= self.entries.len(),
                ps == account_pairs(self.entries@),
                r@.len() == i,
                forall|j: int| 0 <= j < i ==> (#[trigger] r@[j])@ == ps[j].0,
            decreases self.entries.len() - i,
        {
            r.push(self.entries[i].0.clone());
            i += 1;
        }
        proof {
            assert forall|k: Seq<char>| self@.contains_key(k) <==> exists|j: int|
                0 <= j < r@.len() && (#[trigger] r@[j])@ == k by {
                lemma_kv_contains(ps, k);
                if self@.contains_key(k) {
                    let j = choose|j: int| 0 <= j < ps.len() && (#[trigger] ps[j]).0 == k;
                    assert(r@[j]@ == k);
                }
                if exists|j: int| 0 <= j < r@.len() && (#[trigger] r@[j])@ == k {
                    let j = choose|j: int| 0 <= j < r@.len() && (#[trigger] r@[j])@ == k;
                    assert(ps[j].0 == k);
                }
            }
        }
        r
    }
}

} // verus!
