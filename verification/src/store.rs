//! The entity store: one in-memory table per persisted entity, plus the
//! counter from which row identifiers are assigned. Its well-formedness
//! invariant — identifiers unique within a table and below the counter,
//! currency codes unique, user emails unique — is established by [`Ledger::new`]
//! and preserved by every operation of the library.

use vstd::prelude::*;
use crate::models::{
    Account, AccountType, Budget, BudgetLineItem, Category, Currency, ExchangeRate, JournalEntry,
    Tag, Tenant, Transaction, User,
};

verus! {

/// The key of each row in a sequence is pairwise distinct.
pub open spec fn keys_unique<A, B>(s: Seq<A>, key: spec_fn(A) -> B) -> bool {
    forall|i: int, j: int| 0 <= i < j < s.len() ==> key(s[i]) != key(s[j])
}

/// Every key in the sequence lies below the bound.
pub open spec fn keys_below<A>(s: Seq<A>, key: spec_fn(A) -> u128, bound: int) -> bool {
    forall|i: int| 0 <= i < s.len() ==> key(s[i]) < bound
}

/// Appending a row whose key equals the bound keeps keys unique and below the
/// next bound.
pub proof fn lemma_push_fresh_key<A>(s: Seq<A>, key: spec_fn(A) -> u128, bound: int, x: A)
    requires
        keys_unique(s, key),
        keys_below(s, key, bound),
        key(x) == bound,
    ensures
        keys_unique(s.push(x), key),
        keys_below(s.push(x), key, bound + 1),
{
    assert forall|i: int, j: int| 0 <= i < j < s.push(x).len() implies key(s.push(x)[i]) != key(
        s.push(x)[j],
    ) by {
        if j < s.len() {
            assert(key(s[i]) != key(s[j]));
        } else {
            assert(key(s[i]) < bound);
        }
    }
}

/// Replacing a row by one with the same key keeps keys unique and bounded.
pub proof fn lemma_update_same_key<A>(s: Seq<A>, key: spec_fn(A) -> u128, bound: int, i: int, x: A)
    requires
        keys_unique(s, key),
        keys_below(s, key, bound),
        0 <= i < s.len(),
        key(x) == key(s[i]),
        key(x) < bound,
    ensures
        keys_unique(s.update(i, x), key),
        keys_below(s.update(i, x), key, bound),
{
}

/// Removing a row keeps keys unique and bounded.
pub proof fn lemma_remove_keeps_keys<A, B>(s: Seq<A>, key: spec_fn(A) -> B, i: int)
    requires
        keys_unique(s, key),
        0 <= i < s.len(),
    ensures
        keys_unique(s.remove(i), key),
{
    assert forall|k: int, l: int| 0 <= k < l < s.remove(i).len() implies key(s.remove(i)[k]) != key(
        s.remove(i)[l],
    ) by {
        let k0: int = if k < i { k } else { k + 1 };
        let l0: int = if l < i { l } else { l + 1 };
        assert(s.remove(i)[k] == s[k0]);
        assert(s.remove(i)[l] == s[l0]);
    }
}

/// Every row of a filtered sequence is a row of the original.
pub proof fn lemma_filter_sub<A>(s: Seq<A>, pred: spec_fn(A) -> bool)
    ensures
        forall|i: int|
            0 <= i < s.filter(pred).len() ==> exists|j: int|
                0 <= j < s.len() && s[j] == #[trigger] s.filter(pred)[i],
    decreases s.len(),
{
    reveal(Seq::filter);
    if s.len() > 0 {
        lemma_filter_sub(s.drop_last(), pred);
        assert forall|i: int| 0 <= i < s.filter(pred).len() implies exists|j: int|
            0 <= j < s.len() && s[j] == #[trigger] s.filter(pred)[i] by {
            if i < s.drop_last().filter(pred).len() {
                let j = choose|j: int|
                    0 <= j < s.drop_last().len() && s.drop_last()[j] == s.drop_last().filter(
                        pred,
                    )[i];
                assert(s[j] == s.filter(pred)[i]);
            } else {
                assert(s[s.len() - 1] == s.filter(pred)[i]);
            }
        }
    }
}

/// Filtering a sequence after appending one row appends the row to the filtered
/// sequence exactly when it satisfies the predicate.
pub proof fn lemma_filter_push<A>(s: Seq<A>, pred: spec_fn(A) -> bool, x: A)
    ensures
        s.push(x).filter(pred) == if pred(x) {
            s.filter(pred).push(x)
        } else {
            s.filter(pred)
        },
{
    reveal(Seq::filter);
    assert(s.push(x).drop_last() =~= s);
    assert(s.push(x).last() == x);
}

/// Keys unique in a sequence stay unique in any filtered subsequence.
pub proof fn lemma_filter_keys_unique<A, B>(s: Seq<A>, pred: spec_fn(A) -> bool, key: spec_fn(A) -> B)
    requires
        keys_unique(s, key),
    ensures
        keys_unique(s.filter(pred), key),
    decreases s.len(),
{
    reveal(Seq::filter);
    if s.len() > 0 {
        let d = s.drop_last();
        assert(keys_unique(d, key));
        lemma_filter_keys_unique(d, pred, key);
        if pred(s.last()) {
            lemma_filter_sub(d, pred);
            assert forall|i: int, j: int|
                0 <= i < j < s.filter(pred).len() implies key(s.filter(pred)[i]) != key(
                s.filter(pred)[j],
            ) by {
                if j == s.filter(pred).len() - 1 {
                    let j0 = choose|j0: int|
                        0 <= j0 < d.len() && d[j0] == s.filter(pred)[i];
                    assert(s[j0] == s.filter(pred)[i]);
                    assert(key(s[j0]) != key(s.last()));
                }
            }
        }
    }
}

/// The entity store. One vector per table, in insertion order, plus the
/// counter from which fresh row identifiers are taken.
pub struct Ledger {
    pub tenants: Vec<Tenant>,
    pub currencies: Vec<Currency>,
    pub account_types: Vec<AccountType>,
    pub accounts: Vec<Account>,
    pub categories: Vec<Category>,
    pub tags: Vec<Tag>,
    pub transactions: Vec<Transaction>,
    pub journal_entries: Vec<JournalEntry>,
    pub exchange_rates: Vec<ExchangeRate>,
    pub budgets: Vec<Budget>,
    pub budget_line_items: Vec<BudgetLineItem>,
    pub users: Vec<User>,
    pub next_id: u128,
}

impl Ledger {
    /// Well-formedness: row identifiers are unique within each table and lie
    /// below the allocation counter; currency codes and user emails are unique.
    pub open spec fn wf(self) -> bool {
        &&& keys_unique(self.tenants@, |t: Tenant| t.id)
        &&& keys_below(self.tenants@, |t: Tenant| t.id, self.next_id as int)
        &&& keys_unique(self.currencies@, |c: Currency| c.code@)
        &&& keys_unique(self.account_types@, |a: AccountType| a.id)
        &&& keys_below(self.account_types@, |a: AccountType| a.id, self.next_id as int)
        &&& keys_unique(self.accounts@, |a: Account| a.id)
        &&& keys_below(self.accounts@, |a: Account| a.id, self.next_id as int)
        &&& keys_unique(self.categories@, |c: Category| c.id)
        &&& keys_below(self.categories@, |c: Category| c.id, self.next_id as int)
        &&& keys_unique(self.tags@, |t: Tag| t.id)
        &&& keys_below(self.tags@, |t: Tag| t.id, self.next_id as int)
        &&& keys_unique(self.transactions@, |t: Transaction| t.id)
        &&& keys_below(self.transactions@, |t: Transaction| t.id, self.next_id as int)
        &&& keys_unique(self.journal_entries@, |e: JournalEntry| e.id)
        &&& keys_below(self.journal_entries@, |e: JournalEntry| e.id, self.next_id as int)
        &&& keys_unique(self.exchange_rates@, |r: ExchangeRate| r.id)
        &&& keys_below(self.exchange_rates@, |r: ExchangeRate| r.id, self.next_id as int)
        &&& keys_unique(self.budgets@, |b: Budget| b.id)
        &&& keys_below(self.budgets@, |b: Budget| b.id, self.next_id as int)
        &&& keys_unique(self.budget_line_items@, |b: BudgetLineItem| b.id)
        &&& keys_below(self.budget_line_items@, |b: BudgetLineItem| b.id, self.next_id as int)
        &&& keys_unique(self.users@, |u: User| u.id)
        &&& keys_below(self.users@, |u: User| u.id, self.next_id as int)
        &&& keys_unique(self.users@, |u: User| u.email@)
    }

    /// An empty store. Identifier assignment starts at one so that zero can
    /// never collide with a stored row.
    pub fn new() -> (s: Ledger)
        ensures
            s.wf(),
            s.tenants@.len() == 0,
            s.currencies@.len() == 0,
            s.account_types@.len() == 0,
            s.accounts@.len() == 0,
            s.categories@.len() == 0,
            s.tags@.len() == 0,
            s.transactions@.len() == 0,
            s.journal_entries@.len() == 0,
            s.exchange_rates@.len() == 0,
            s.budgets@.len() == 0,
            s.budget_line_items@.len() == 0,
            s.users@.len() == 0,
            s.next_id == 1,
    {
        Ledger {
            tenants: Vec::new(),
            currencies: Vec::new(),
            account_types: Vec::new(),
            accounts: Vec::new(),
            categories: Vec::new(),
            tags: Vec::new(),
            transactions: Vec::new(),
            journal_entries: Vec::new(),
            exchange_rates: Vec::new(),
            budgets: Vec::new(),
            budget_line_items: Vec::new(),
            users: Vec::new(),
            next_id: 1,
        }
    }

    /// Whether `n` more identifiers can still be assigned.
    pub open spec fn can_assign_ids(self, n: int) -> bool {
        self.next_id + n <= u128::MAX
    }
}

} // verus!
