//! The atomic ledger write path: creating a transaction with its journal
//! entries, full rollback on a bad account reference, and cascading deletion.

use ledger::codes::{AccountNormalBalance, JournalEntryType, TransactionType};
use ledger::dto::{
    CreateAccountDto, CreateAccountTypeDto, CreateJournalEntryDto, CreateTenantDto,
    CreateTransactionDto,
};
use ledger::services::account::create_account;
use ledger::services::account_type::create_account_type;
use ledger::services::journal_entry::list_journal_entries_for_transaction;
use ledger::services::tenant::create_tenant;
use ledger::services::transaction::{
    create_transaction, delete_transaction, entries_balanced, get_transaction_by_id,
    list_transactions,
};
use ledger::store::Ledger;

const ACTOR: u128 = 77;
const NOW: i64 = 1_700_000_000;

fn tenant_dto(name: &str) -> CreateTenantDto {
    CreateTenantDto {
        name: name.to_string(),
        industry: None,
        base_currency_code: "USD".to_string(),
        fiscal_year_end_month: 12,
    }
}

fn leg(account_id: u128, entry_type: JournalEntryType, amount: i64) -> CreateJournalEntryDto {
    CreateJournalEntryDto {
        account_id,
        entry_type,
        amount,
        currency_code: "USD".to_string(),
        exchange_rate: None,
        converted_amount: None,
        memo: None,
    }
}

fn tx_dto(legs: Vec<CreateJournalEntryDto>) -> CreateTransactionDto {
    CreateTransactionDto {
        transaction_date: 20_000,
        description: "Office supplies".to_string(),
        transaction_type: TransactionType::Expense,
        category_id: None,
        tags: None,
        amount: 10_000,
        currency_code: "USD".to_string(),
        is_reconciled: None,
        reconciliation_date: None,
        notes: None,
        source_document_url: None,
        journal_entries: legs,
    }
}

/// A store with one tenant, one account type and two active accounts.
fn setup() -> (Ledger, u128, u128, u128) {
    let mut store = Ledger::new();
    let tenant = create_tenant(&mut store, ACTOR, NOW, tenant_dto("Acme")).unwrap();
    let at = create_account_type(
        &mut store,
        ACTOR,
        NOW,
        CreateAccountTypeDto {
            name: "Asset".to_string(),
            normal_balance: AccountNormalBalance::DEBIT,
        },
    )
    .unwrap();
    let a1 = create_account(
        &mut store,
        tenant.id,
        ACTOR,
        NOW,
        CreateAccountDto {
            account_type_id: at.id,
            name: "Cash".to_string(),
            account_code: None,
            description: None,
            currency_code: "USD".to_string(),
        },
    )
    .unwrap();
    let a2 = create_account(
        &mut store,
        tenant.id,
        ACTOR,
        NOW,
        CreateAccountDto {
            account_type_id: at.id,
            name: "Revenue".to_string(),
            account_code: None,
            description: None,
            currency_code: "USD".to_string(),
        },
    )
    .unwrap();
    (store, tenant.id, a1.id, a2.id)
}

#[test]
fn creating_a_transaction_persists_one_row_per_leg() {
    let (mut store, tenant_id, a1, a2) = setup();
    let legs = vec![
        leg(a1, JournalEntryType::Debit, 10_000),
        leg(a2, JournalEntryType::Credit, 10_000),
    ];
    let before_txs = store.transactions.len();
    let before_entries = store.journal_entries.len();
    let tx = create_transaction(&mut store, tenant_id, ACTOR, NOW, tx_dto(legs)).unwrap();
    assert_eq!(store.transactions.len(), before_txs + 1);
    assert_eq!(store.journal_entries.len(), before_entries + 2);
    for e in &store.journal_entries {
        assert_eq!(e.transaction_id, tx.id);
    }
    assert_eq!(tx.tenant_id, tenant_id);
    assert_eq!(tx.created_by, ACTOR);
    assert_eq!(tx.updated_by, ACTOR);
    assert!(!tx.is_reconciled);
}

#[test]
fn full_ledger_scenario_two_balanced_legs() {
    // Tenant with base currency, an Asset/DEBIT account type, two accounts,
    // then a transaction of two balanced legs of one hundred units each.
    let (mut store, tenant_id, a1, a2) = setup();
    let legs = vec![
        leg(a1, JournalEntryType::Debit, 100_00),
        leg(a2, JournalEntryType::Credit, 100_00),
    ];
    assert!(entries_balanced(&legs));
    let tx = create_transaction(&mut store, tenant_id, ACTOR, NOW, tx_dto(legs)).unwrap();
    let listed = list_journal_entries_for_transaction(&store, tenant_id, tx.id).unwrap();
    assert_eq!(listed.len(), 2);
    assert!(listed.iter().all(|e| e.transaction_id == tx.id));
    assert_eq!(listed[0].account_id, a1);
    assert_eq!(listed[0].amount, 100_00);
    assert_eq!(listed[1].account_id, a2);
    let fetched = get_transaction_by_id(&store, tenant_id, tx.id).unwrap();
    assert_eq!(fetched.tenant_id, tenant_id);
}

#[test]
fn bad_account_reference_rolls_back_everything() {
    let (mut store, tenant_id, a1, _) = setup();
    let before_txs = store.transactions.len();
    let before_entries = store.journal_entries.len();
    let missing: u128 = 999_999;
    let legs = vec![
        leg(a1, JournalEntryType::Debit, 500),
        leg(missing, JournalEntryType::Credit, 500),
    ];
    let err = create_transaction(&mut store, tenant_id, ACTOR, NOW, tx_dto(legs)).unwrap_err();
    assert!(err.is_validation());
    assert_eq!(
        err.message().as_str(),
        format!("Account ID {} is invalid or inactive for tenant {}", missing, tenant_id)
    );
    assert_eq!(store.transactions.len(), before_txs);
    assert_eq!(store.journal_entries.len(), before_entries);
}

#[test]
fn inactive_account_reference_is_rejected() {
    let (mut store, tenant_id, a1, a2) = setup();
    ledger::services::account::deactivate_account(&mut store, tenant_id, a2, ACTOR, NOW).unwrap();
    let legs = vec![
        leg(a1, JournalEntryType::Debit, 500),
        leg(a2, JournalEntryType::Credit, 500),
    ];
    let err = create_transaction(&mut store, tenant_id, ACTOR, NOW, tx_dto(legs)).unwrap_err();
    assert!(err.is_validation());
    assert!(store.journal_entries.is_empty());
}

#[test]
fn other_tenants_account_is_rejected() {
    let (mut store, tenant_id, a1, _) = setup();
    let other = create_tenant(&mut store, ACTOR, NOW, tenant_dto("Rival")).unwrap();
    let legs = vec![leg(a1, JournalEntryType::Debit, 500)];
    let err = create_transaction(&mut store, other.id, ACTOR, NOW, tx_dto(legs)).unwrap_err();
    assert!(err.is_validation());
    assert!(store.transactions.is_empty());
}

#[test]
fn invalid_transaction_fields_are_rejected() {
    let (mut store, tenant_id, a1, _) = setup();
    let mut dto = tx_dto(vec![leg(a1, JournalEntryType::Debit, 500)]);
    dto.amount = 0;
    let err = create_transaction(&mut store, tenant_id, ACTOR, NOW, dto).unwrap_err();
    assert!(err.is_validation());
    assert_eq!(err.message().as_str(), "Invalid field values in request");

    let mut dto = tx_dto(vec![leg(a1, JournalEntryType::Debit, 500)]);
    dto.description = String::new();
    assert!(create_transaction(&mut store, tenant_id, ACTOR, NOW, dto).is_err());

    let mut dto = tx_dto(vec![leg(a1, JournalEntryType::Debit, 500)]);
    dto.currency_code = "US".to_string();
    assert!(create_transaction(&mut store, tenant_id, ACTOR, NOW, dto).is_err());

    let mut dto = tx_dto(vec![leg(a1, JournalEntryType::Debit, -1)]);
    assert!(create_transaction(&mut store, tenant_id, ACTOR, NOW, dto).is_err());
    assert!(store.transactions.is_empty());
}

#[test]
fn deleting_a_transaction_removes_its_entries() {
    let (mut store, tenant_id, a1, a2) = setup();
    let keep = create_transaction(
        &mut store,
        tenant_id,
        ACTOR,
        NOW,
        tx_dto(vec![leg(a1, JournalEntryType::Debit, 100)]),
    )
    .unwrap();
    let gone = create_transaction(
        &mut store,
        tenant_id,
        ACTOR,
        NOW,
        tx_dto(vec![
            leg(a1, JournalEntryType::Debit, 300),
            leg(a2, JournalEntryType::Credit, 300),
        ]),
    )
    .unwrap();
    assert_eq!(store.transactions.len(), 2);
    assert_eq!(store.journal_entries.len(), 3);
    delete_transaction(&mut store, tenant_id, gone.id).unwrap();
    assert_eq!(store.transactions.len(), 1);
    assert_eq!(store.journal_entries.len(), 1);
    assert_eq!(store.journal_entries[0].transaction_id, keep.id);
    assert_eq!(store.transactions[0].id, keep.id);
}

#[test]
fn deleting_under_the_wrong_tenant_touches_nothing() {
    let (mut store, tenant_id, a1, a2) = setup();
    let other = create_tenant(&mut store, ACTOR, NOW, tenant_dto("Rival")).unwrap();
    let tx = create_transaction(
        &mut store,
        tenant_id,
        ACTOR,
        NOW,
        tx_dto(vec![
            leg(a1, JournalEntryType::Debit, 300),
            leg(a2, JournalEntryType::Credit, 300),
        ]),
    )
    .unwrap();
    let err = delete_transaction(&mut store, other.id, tx.id).unwrap_err();
    assert!(err.is_not_found());
    assert_eq!(
        err.message().as_str(),
        format!("Transaction with ID {} not found or not owned by tenant {}", tx.id, other.id)
    );
    assert_eq!(store.transactions.len(), 1);
    assert_eq!(store.journal_entries.len(), 2);
    let err = delete_transaction(&mut store, tenant_id, 123_456).unwrap_err();
    assert!(err.is_not_found());
    assert_eq!(store.transactions.len(), 1);
}

#[test]
fn listing_transactions_never_crosses_tenants() {
    let (mut store, tenant_id, a1, _) = setup();
    let other = create_tenant(&mut store, ACTOR, NOW, tenant_dto("Rival")).unwrap();
    create_transaction(
        &mut store,
        tenant_id,
        ACTOR,
        NOW,
        tx_dto(vec![leg(a1, JournalEntryType::Debit, 100)]),
    )
    .unwrap();
    let mine = list_transactions(&store, tenant_id);
    assert_eq!(mine.len(), 1);
    assert!(mine.iter().all(|t| t.tenant_id == tenant_id));
    let theirs = list_transactions(&store, other.id);
    assert!(theirs.is_empty());
}

#[test]
fn balance_check_exact_values() {
    let legs = vec![
        leg(1, JournalEntryType::Debit, 250),
        leg(2, JournalEntryType::Credit, 150),
        leg(3, JournalEntryType::Credit, 100),
    ];
    assert!(entries_balanced(&legs));
    let legs = vec![
        leg(1, JournalEntryType::Debit, 250),
        leg(2, JournalEntryType::Credit, 151),
    ];
    assert!(!entries_balanced(&legs));
    let empty: Vec<CreateJournalEntryDto> = Vec::new();
    assert!(entries_balanced(&empty));
}

#[test]
fn amount_bounds_are_the_column_limits() {
    let (mut store, tenant_id, a1, _) = setup();
    let max_units: i64 = 999_999_999_999_999_999;
    let mut dto = tx_dto(vec![leg(a1, JournalEntryType::Debit, 1)]);
    dto.amount = max_units;
    assert!(create_transaction(&mut store, tenant_id, ACTOR, NOW, dto).is_ok());
    let mut dto = tx_dto(vec![leg(a1, JournalEntryType::Debit, 1)]);
    dto.amount = max_units + 1;
    assert!(create_transaction(&mut store, tenant_id, ACTOR, NOW, dto)
        .unwrap_err()
        .is_validation());
    let mut dto = tx_dto(Vec::new());
    dto.journal_entries = vec![leg(a1, JournalEntryType::Debit, max_units + 1)];
    assert!(create_transaction(&mut store, tenant_id, ACTOR, NOW, dto)
        .unwrap_err()
        .is_validation());
}

#[test]
fn reconciliation_flag_can_be_supplied() {
    let (mut store, tenant_id, a1, _) = setup();
    let mut dto = tx_dto(vec![leg(a1, JournalEntryType::Debit, 1)]);
    dto.is_reconciled = Some(true);
    dto.reconciliation_date = Some(21_000);
    let tx = create_transaction(&mut store, tenant_id, ACTOR, NOW, dto).unwrap();
    assert!(tx.is_reconciled);
    assert_eq!(tx.reconciliation_date, Some(21_000));
}
