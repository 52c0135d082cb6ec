//! The library's laws, stated once and proved for every input: the shape of
//! an atomic ledger write, the completeness of a cascading delete, and what a
//! deactivation does and does not touch. Each law is phrased over the same
//! specification functions the operations' own contracts use, so a caller of
//! those operations can apply it directly to their pre- and post-states.

use vstd::prelude::*;
use crate::dto::{CreateJournalEntryDto, CreateTransactionDto};
use crate::models::{Account, JournalEntry, Transaction};
use crate::services::account::account_deactivated;
use crate::order::lemma_order_by_sub;
use crate::services::transaction::{journal_rows, signed_sum, transaction_le, transaction_row,
    transactions_listed};
use crate::store::Ledger;

verus! {

/// Law: a successful ledger write persists exactly one transaction row and
/// exactly one journal-entry row per requested leg, appended to the prior
/// tables, and every persisted leg carries the new transaction's id and the
/// requesting leg's account, side and amount.
pub proof fn lemma_create_transaction_shape(pre: Ledger, post: Ledger, dto: CreateTransactionDto,
    tenant_id: u128, actor: u128, now: i64)
    requires
        post.transactions@ == pre.transactions@.push(
            transaction_row(dto, pre.next_id, tenant_id, actor, now),
        ),
        post.journal_entries@ == pre.journal_entries@ + journal_rows(
            dto.journal_entries@,
            pre.next_id,
            actor,
            now,
        ),
    ensures
        post.transactions@.len() == pre.transactions@.len() + 1,
        post.journal_entries@.len() == pre.journal_entries@.len() + dto.journal_entries@.len(),
        post.transactions@.last().id == pre.next_id,
        post.transactions@.last().tenant_id == tenant_id,
        forall|k: int|
            pre.journal_entries@.len() <= k < post.journal_entries@.len()
                ==> (#[trigger] post.journal_entries@[k]).transaction_id == pre.next_id,
        forall|k: int|
            0 <= k < dto.journal_entries@.len() ==> (#[trigger] post.journal_entries@[
                pre.journal_entries@.len() + k
            ]).account_id == dto.journal_entries@[k].account_id,
        forall|k: int|
            0 <= k < dto.journal_entries@.len() ==> (#[trigger] post.journal_entries@[
                pre.journal_entries@.len() + k
            ]).entry_type == dto.journal_entries@[k].entry_type,
        forall|k: int|
            0 <= k < dto.journal_entries@.len() ==> (#[trigger] post.journal_entries@[
                pre.journal_entries@.len() + k
            ]).amount == dto.journal_entries@[k].amount,
        forall|k: int|
            0 <= k < pre.journal_entries@.len() ==> post.journal_entries@[k]
                == pre.journal_entries@[k],
        forall|k: int|
            0 <= k < pre.transactions@.len() ==> post.transactions@[k] == pre.transactions@[k],
{
}

/// Law: a cascading delete is complete and precise — afterwards no journal
/// entry of the deleted transaction remains, and every journal entry of any
/// other transaction is still there.
pub proof fn lemma_delete_transaction_cascade(pre: Seq<JournalEntry>, post: Seq<JournalEntry>,
    transaction_id: u128)
    requires
        post == pre.filter(|e: JournalEntry| e.transaction_id != transaction_id),
    ensures
        forall|k: int|
            0 <= k < post.len() ==> (#[trigger] post[k]).transaction_id != transaction_id,
        forall|k: int|
            0 <= k < pre.len() && (#[trigger] pre[k]).transaction_id != transaction_id
                ==> post.contains(pre[k]),
{
    let pred = |e: JournalEntry| e.transaction_id != transaction_id;
    assert forall|k: int|
        0 <= k < post.len() implies (#[trigger] post[k]).transaction_id != transaction_id by {
        pre.lemma_filter_pred(pred, k);
    }
    assert forall|k: int|
        0 <= k < pre.len() && (#[trigger] pre[k]).transaction_id != transaction_id
            implies post.contains(pre[k]) by {
        pre.lemma_filter_contains(pred, k);
    }
}

/// Law: deactivating an account clears the active flag and refreshes the
/// audit stamp, and touches nothing else — identity, ownership, naming,
/// classification and creation stamps are all kept.
pub proof fn lemma_deactivation_touches_nothing_else(a: Account, actor: u128, now: i64)
    ensures
        !account_deactivated(a, actor, now).is_active,
        account_deactivated(a, actor, now).updated_at == now,
        account_deactivated(a, actor, now).updated_by == actor,
        account_deactivated(a, actor, now).id == a.id,
        account_deactivated(a, actor, now).tenant_id == a.tenant_id,
        account_deactivated(a, actor, now).account_type_id == a.account_type_id,
        account_deactivated(a, actor, now).name == a.name,
        account_deactivated(a, actor, now).account_code == a.account_code,
        account_deactivated(a, actor, now).description == a.description,
        account_deactivated(a, actor, now).currency_code == a.currency_code,
        account_deactivated(a, actor, now).created_at == a.created_at,
        account_deactivated(a, actor, now).created_by == a.created_by,
{
}

/// The signed sum of persisted journal-entry rows: debits count positive,
/// credits negative.
pub open spec fn signed_sum_rows(rows: Seq<JournalEntry>) -> int
    decreases rows.len(),
{
    if rows.len() == 0 {
        0
    } else {
        signed_sum_rows(rows.drop_last()) + (if rows.last().entry_type is Debit {
            rows.last().amount as int
        } else {
            -(rows.last().amount as int)
        })
    }
}

/// Law: the persisted journal-entry rows of a ledger write carry exactly the
/// signed sum of the requested legs — in particular, a request whose debits
/// equal its credits persists rows whose debits equal their credits.
pub proof fn lemma_persisted_rows_inherit_balance(entries: Seq<CreateJournalEntryDto>, tx_id: u128,
    actor: u128, now: i64)
    ensures
        signed_sum_rows(journal_rows(entries, tx_id, actor, now)) == signed_sum(entries),
    decreases entries.len(),
{
    if entries.len() > 0 {
        lemma_persisted_rows_inherit_balance(entries.drop_last(), tx_id, actor, now);
        assert(journal_rows(entries, tx_id, actor, now).drop_last() =~= journal_rows(
            entries.drop_last(),
            tx_id,
            actor,
            now,
        ));
    }
}

/// Law: the rows any tenant-scoped listing presents — here the transaction
/// listing, in its stated order — all belong to the requested tenant; a row
/// of another tenant is never handed out.
pub proof fn lemma_listing_is_tenant_isolated(s: Seq<Transaction>, tenant_id: u128)
    ensures
        forall|k: int|
            0 <= k < transactions_listed(s, tenant_id).len() ==> (#[trigger] transactions_listed(
                s,
                tenant_id,
            )[k]).tenant_id == tenant_id,
{
    let pred = |t: Transaction| t.tenant_id == tenant_id;
    let f = s.filter(pred);
    lemma_order_by_sub(f, |a: Transaction, b: Transaction| transaction_le(a, b));
    assert forall|k: int|
        0 <= k < transactions_listed(s, tenant_id).len() implies (#[trigger] transactions_listed(
            s,
            tenant_id,
        )[k]).tenant_id == tenant_id by {
        let j = choose|j: int| 0 <= j < f.len() && transactions_listed(s, tenant_id)[k] == f[j];
        s.lemma_filter_pred(pred, j);
    }
}

} // verus!
