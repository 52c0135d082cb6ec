//! The order every listing presents its rows in: names ascending for the
//! name-keyed entities, newest-first for transactions, rates and users,
//! oldest-first for a transaction's legs, and reference order for budget line
//! items — ties always keeping insertion order.

use ledger::codes::{AccountNormalBalance, JournalEntryType, TransactionType};
use ledger::dto::{
    CreateAccountDto, CreateAccountTypeDto, CreateBudgetDto, CreateBudgetLineItemDto,
    CreateCurrencyDto, CreateExchangeRateDto, CreateJournalEntryDto, CreateTagDto, CreateTenantDto,
    CreateTransactionDto, CreateUserRequest,
};
use ledger::services::account::{create_account, list_accounts};
use ledger::services::account_type::create_account_type;
use ledger::services::budget::{create_budget, list_budgets};
use ledger::services::budget_line_item::{create_budget_line_item, list_budget_line_items};
use ledger::services::currency::{create_currency, list_currencies};
use ledger::services::exchange_rate::{create_exchange_rate, list_exchange_rates};
use ledger::services::journal_entry::{create_journal_entry, list_journal_entries_for_transaction};
use ledger::services::tag::{create_tag, list_tags};
use ledger::services::tenant::{create_tenant, list_tenants};
use ledger::services::transaction::{create_transaction, list_transactions};
use ledger::services::user::{create_user, list_users};
use ledger::store::Ledger;

const ACTOR: u128 = 1;
const NOW: i64 = 100;

fn tenant_dto(name: &str) -> CreateTenantDto {
    CreateTenantDto {
        name: name.to_string(),
        industry: None,
        base_currency_code: "USD".to_string(),
        fiscal_year_end_month: 12,
    }
}

fn tx_dto(date: i64, legs: Vec<CreateJournalEntryDto>) -> CreateTransactionDto {
    CreateTransactionDto {
        transaction_date: date,
        description: "Entry".to_string(),
        transaction_type: TransactionType::Expense,
        category_id: None,
        tags: None,
        amount: 100,
        currency_code: "USD".to_string(),
        is_reconciled: None,
        reconciliation_date: None,
        notes: None,
        source_document_url: None,
        journal_entries: legs,
    }
}

#[test]
fn tenants_list_by_name_ascending() {
    let mut store = Ledger::new();
    for name in ["Mango", "Apple", "Zebra", "Apple"] {
        create_tenant(&mut store, ACTOR, NOW, tenant_dto(name)).unwrap();
    }
    let rows = list_tenants(&store);
    let names: Vec<&str> = rows.iter().map(|t| t.name.as_str()).collect::<Vec<_>>();
    assert_eq!(names, vec!["Apple", "Apple", "Mango", "Zebra"]);
}

#[test]
fn currencies_and_account_types_and_tags_list_by_name() {
    let mut store = Ledger::new();
    for (code, name) in [("USD", "US Dollar"), ("EUR", "Euro"), ("JPY", "Yen")] {
        create_currency(
            &mut store,
            ACTOR,
            NOW,
            CreateCurrencyDto { code: code.to_string(), name: name.to_string(), symbol: None },
        )
        .unwrap();
    }
    let rows = list_currencies(&store);
    let names: Vec<&str> = rows.iter().map(|c| c.name.as_str()).collect();
    assert_eq!(names, vec!["Euro", "US Dollar", "Yen"]);

    for name in ["Liability", "Asset", "Equity"] {
        create_account_type(
            &mut store,
            ACTOR,
            NOW,
            CreateAccountTypeDto {
                name: name.to_string(),
                normal_balance: AccountNormalBalance::DEBIT,
            },
        )
        .unwrap();
    }
    let rows = ledger::services::account_type::list_account_types(&store);
    let names: Vec<&str> = rows.iter().map(|t| t.name.as_str()).collect();
    assert_eq!(names, vec!["Asset", "Equity", "Liability"]);

    let t = create_tenant(&mut store, ACTOR, NOW, tenant_dto("Acme")).unwrap();
    for name in ["travel", "food", "rent"] {
        create_tag(
            &mut store,
            t.id,
            ACTOR,
            NOW,
            CreateTagDto { name: name.to_string(), description: None },
        )
        .unwrap();
    }
    let rows = list_tags(&store, t.id);
    let names: Vec<&str> = rows.iter().map(|x| x.name.as_str()).collect();
    assert_eq!(names, vec!["food", "rent", "travel"]);
}

#[test]
fn accounts_list_by_name_ascending() {
    let mut store = Ledger::new();
    let t = create_tenant(&mut store, ACTOR, NOW, tenant_dto("Acme")).unwrap();
    let at = create_account_type(
        &mut store,
        ACTOR,
        NOW,
        CreateAccountTypeDto { name: "Asset".to_string(), normal_balance: AccountNormalBalance::DEBIT },
    )
    .unwrap();
    for name in ["Savings", "Cash", "Receivables"] {
        create_account(
            &mut store,
            t.id,
            ACTOR,
            NOW,
            CreateAccountDto {
                account_type_id: at.id,
                name: name.to_string(),
                account_code: None,
                description: None,
                currency_code: "USD".to_string(),
            },
        )
        .unwrap();
    }
    let rows = list_accounts(&store, t.id);
    let names: Vec<&str> = rows.iter().map(|a| a.name.as_str()).collect();
    assert_eq!(names, vec!["Cash", "Receivables", "Savings"]);
}

#[test]
fn transactions_list_newest_date_first_then_newest_creation() {
    let mut store = Ledger::new();
    let t = create_tenant(&mut store, ACTOR, NOW, tenant_dto("Acme")).unwrap();
    // Inserted out of date order, with a tie on the middle date.
    let old = create_transaction(&mut store, t.id, ACTOR, 10, tx_dto(100, Vec::new())).unwrap();
    let tie_early = create_transaction(&mut store, t.id, ACTOR, 20, tx_dto(200, Vec::new())).unwrap();
    let newest = create_transaction(&mut store, t.id, ACTOR, 30, tx_dto(300, Vec::new())).unwrap();
    let tie_late = create_transaction(&mut store, t.id, ACTOR, 40, tx_dto(200, Vec::new())).unwrap();
    let ids: Vec<u128> = list_transactions(&store, t.id).iter().map(|x| x.id).collect();
    // Date 300 first; the two at date 200 by creation instant descending; date 100 last.
    assert_eq!(ids, vec![newest.id, tie_late.id, tie_early.id, old.id]);
}

#[test]
fn journal_entries_list_oldest_creation_first() {
    let mut store = Ledger::new();
    let t = create_tenant(&mut store, ACTOR, NOW, tenant_dto("Acme")).unwrap();
    let at = create_account_type(
        &mut store,
        ACTOR,
        NOW,
        CreateAccountTypeDto { name: "Asset".to_string(), normal_balance: AccountNormalBalance::DEBIT },
    )
    .unwrap();
    let a = create_account(
        &mut store,
        t.id,
        ACTOR,
        NOW,
        CreateAccountDto {
            account_type_id: at.id,
            name: "Cash".to_string(),
            account_code: None,
            description: None,
            currency_code: "USD".to_string(),
        },
    )
    .unwrap();
    let tx = create_transaction(&mut store, t.id, ACTOR, NOW, tx_dto(1, Vec::new())).unwrap();
    let leg = |amount: i64| CreateJournalEntryDto {
        account_id: a.id,
        entry_type: JournalEntryType::Debit,
        amount,
        currency_code: "USD".to_string(),
        exchange_rate: None,
        converted_amount: None,
        memo: None,
    };
    // Created at instants 300, 100, 200 — listed oldest first: 100, 200, 300.
    create_journal_entry(&mut store, t.id, ACTOR, 300, tx.id, leg(3)).unwrap();
    create_journal_entry(&mut store, t.id, ACTOR, 100, tx.id, leg(1)).unwrap();
    create_journal_entry(&mut store, t.id, ACTOR, 200, tx.id, leg(2)).unwrap();
    let amounts: Vec<i64> = list_journal_entries_for_transaction(&store, t.id, tx.id)
        .unwrap()
        .iter()
        .map(|e| e.amount)
        .collect();
    assert_eq!(amounts, vec![1, 2, 3]);
}

#[test]
fn budgets_list_latest_start_first_ties_by_name() {
    let mut store = Ledger::new();
    let t = create_tenant(&mut store, ACTOR, NOW, tenant_dto("Acme")).unwrap();
    let budget = |name: &str, start: i64| CreateBudgetDto {
        name: name.to_string(),
        start_date: start,
        end_date: start + 30,
        currency_code: "USD".to_string(),
    };
    create_budget(&mut store, t.id, ACTOR, NOW, budget("Summer", 200)).unwrap();
    create_budget(&mut store, t.id, ACTOR, NOW, budget("Winter", 400)).unwrap();
    create_budget(&mut store, t.id, ACTOR, NOW, budget("Autumn", 200)).unwrap();
    let rows = list_budgets(&store, t.id);
    let names: Vec<&str> = rows.iter().map(|b| b.name.as_str()).collect();
    assert_eq!(names, vec!["Winter", "Autumn", "Summer"]);
}

#[test]
fn line_items_list_by_category_then_account_absent_last() {
    let mut store = Ledger::new();
    let t = create_tenant(&mut store, ACTOR, NOW, tenant_dto("Acme")).unwrap();
    let b = create_budget(
        &mut store,
        t.id,
        ACTOR,
        NOW,
        CreateBudgetDto {
            name: "Yearly".to_string(),
            start_date: 0,
            end_date: 365,
            currency_code: "USD".to_string(),
        },
    )
    .unwrap();
    let at = create_account_type(
        &mut store,
        ACTOR,
        NOW,
        CreateAccountTypeDto { name: "Asset".to_string(), normal_balance: AccountNormalBalance::DEBIT },
    )
    .unwrap();
    let cat = |store: &mut Ledger, name: &str| {
        ledger::services::category::create_category(
            store,
            t.id,
            ACTOR,
            NOW,
            ledger::dto::CreateCategoryDto {
                name: name.to_string(),
                description: None,
                category_type: ledger::codes::CategoryType::Expense,
                parent_category_id: None,
            },
        )
        .unwrap()
        .id
    };
    let c1 = cat(&mut store, "Food");
    let c2 = cat(&mut store, "Rent");
    let acct = create_account(
        &mut store,
        t.id,
        ACTOR,
        NOW,
        CreateAccountDto {
            account_type_id: at.id,
            name: "Cash".to_string(),
            account_code: None,
            description: None,
            currency_code: "USD".to_string(),
        },
    )
    .unwrap()
    .id;
    let li = |store: &mut Ledger, c: Option<u128>, a: Option<u128>, amount: i64| {
        create_budget_line_item(
            store,
            t.id,
            ACTOR,
            NOW,
            b.id,
            CreateBudgetLineItemDto { category_id: c, account_id: a, budgeted_amount: amount },
        )
        .unwrap()
        .id
    };
    let no_refs = li(&mut store, None, None, 1);
    let second_cat = li(&mut store, Some(c2), None, 2);
    let first_cat_acct = li(&mut store, Some(c1), Some(acct), 3);
    let first_cat_bare = li(&mut store, Some(c1), None, 4);
    let ids: Vec<u128> =
        list_budget_line_items(&store, t.id, b.id).unwrap().iter().map(|x| x.id).collect();
    // Category ids ascend (c1 was created before c2); within c1 the resolved
    // account precedes the absent one; the row without references comes last.
    assert_eq!(ids, vec![first_cat_acct, first_cat_bare, second_cat, no_refs]);
}

#[test]
fn rates_list_latest_date_first_ties_by_codes() {
    let mut store = Ledger::new();
    let rate = |base: &str, target: &str, date: i64| CreateExchangeRateDto {
        tenant_id: None,
        base_currency_code: base.to_string(),
        target_currency_code: target.to_string(),
        rate: 1_000_000,
        rate_date: date,
        source: None,
    };
    create_exchange_rate(&mut store, ACTOR, NOW, rate("USD", "EUR", 10)).unwrap();
    create_exchange_rate(&mut store, ACTOR, NOW, rate("USD", "JPY", 20)).unwrap();
    create_exchange_rate(&mut store, ACTOR, NOW, rate("USD", "EUR", 20)).unwrap();
    create_exchange_rate(&mut store, ACTOR, NOW, rate("EUR", "JPY", 20)).unwrap();
    let keys: Vec<(i64, String, String)> = list_exchange_rates(&store, None)
        .iter()
        .map(|x| (x.rate_date, x.base_currency_code.clone(), x.target_currency_code.clone()))
        .collect();
    assert_eq!(
        keys,
        vec![
            (20, "EUR".to_string(), "JPY".to_string()),
            (20, "USD".to_string(), "EUR".to_string()),
            (20, "USD".to_string(), "JPY".to_string()),
            (10, "USD".to_string(), "EUR".to_string()),
        ]
    );
}

#[test]
fn users_list_newest_registration_first() {
    let mut store = Ledger::new();
    let req = |email: &str| CreateUserRequest {
        auth_provider_id: "p".to_string(),
        auth_provider_type: "EMAIL_PASSWORD".to_string(),
        email: email.to_string(),
        password: None,
        first_name: "Ada".to_string(),
        last_name: "Lovelace".to_string(),
    };
    create_user(&mut store, 100, req("first@example.com")).unwrap();
    create_user(&mut store, 300, req("third@example.com")).unwrap();
    create_user(&mut store, 200, req("second@example.com")).unwrap();
    let rows = list_users(&store);
    let emails: Vec<&str> = rows.iter().map(|u| u.email.as_str()).collect();
    assert_eq!(emails, vec!["third@example.com", "second@example.com", "first@example.com"]);
}
