//! Exchange rates (latest-rate selection, hard deletion), budgets with their
//! date-range rules, budget line items reached through their budget, and the
//! category tree with its cycle rejection.

use ledger::codes::{AccountNormalBalance, CategoryType};
use ledger::dto::{
    CreateAccountDto, CreateAccountTypeDto, CreateBudgetDto, CreateBudgetLineItemDto,
    CreateCategoryDto, CreateExchangeRateDto, CreateTenantDto, UpdateBudgetDto,
    UpdateCategoryDto, UpdateExchangeRateDto,
};
use ledger::services::budget::{create_budget, deactivate_budget, update_budget};
use ledger::services::budget_line_item::{
    create_budget_line_item, deactivate_budget_line_item, get_budget_line_item_by_id,
    list_budget_line_items,
};
use ledger::services::category::{
    create_category, deactivate_category, get_category_by_id, list_categories, update_category,
};
use ledger::services::exchange_rate::{
    create_exchange_rate, delete_exchange_rate, get_exchange_rate_by_id, get_latest_exchange_rate,
    list_exchange_rates, update_exchange_rate,
};
use ledger::services::tenant::create_tenant;
use ledger::store::Ledger;

const ACTOR: u128 = 3;
const NOW: i64 = 500;

fn new_tenant(store: &mut Ledger, name: &str) -> u128 {
    create_tenant(
        store,
        ACTOR,
        NOW,
        CreateTenantDto {
            name: name.to_string(),
            industry: None,
            base_currency_code: "USD".to_string(),
            fiscal_year_end_month: 12,
        },
    )
    .unwrap()
    .id
}

fn rate_dto(tenant_id: Option<u128>, rate: i64, rate_date: i64) -> CreateExchangeRateDto {
    CreateExchangeRateDto {
        tenant_id,
        base_currency_code: "USD".to_string(),
        target_currency_code: "EUR".to_string(),
        rate,
        rate_date,
        source: None,
    }
}

#[test]
fn latest_rate_picks_newest_date_then_newest_creation() {
    let mut store = Ledger::new();
    let t = new_tenant(&mut store, "Acme");
    create_exchange_rate(&mut store, ACTOR, 100, rate_dto(Some(t), 900_000, 10)).unwrap();
    let newest = create_exchange_rate(&mut store, ACTOR, 200, rate_dto(Some(t), 910_000, 30)).unwrap();
    create_exchange_rate(&mut store, ACTOR, 300, rate_dto(Some(t), 920_000, 20)).unwrap();
    // A system-wide rate with a later date must not shadow the tenant's.
    create_exchange_rate(&mut store, ACTOR, 400, rate_dto(None, 990_000, 99)).unwrap();
    let latest = get_latest_exchange_rate(&store, Some(t), "USD", "EUR").unwrap();
    assert_eq!(latest.id, newest.id);
    assert_eq!(latest.rate, 910_000);
    // Same date: the later creation wins.
    let tie = create_exchange_rate(&mut store, ACTOR, 250, rate_dto(Some(t), 915_000, 30)).unwrap();
    let latest = get_latest_exchange_rate(&store, Some(t), "USD", "EUR").unwrap();
    assert_eq!(latest.id, tie.id);
}

#[test]
fn latest_rate_without_match_is_not_found() {
    let mut store = Ledger::new();
    create_exchange_rate(&mut store, ACTOR, 100, rate_dto(None, 900_000, 10)).unwrap();
    let err = get_latest_exchange_rate(&store, None, "USD", "JPY").unwrap_err();
    assert!(err.is_not_found());
    assert_eq!(
        err.message().as_str(),
        "No exchange rate found for base USD to target JPY"
    );
}

#[test]
fn rate_listing_separates_scopes() {
    let mut store = Ledger::new();
    let t = new_tenant(&mut store, "Acme");
    create_exchange_rate(&mut store, ACTOR, 100, rate_dto(Some(t), 900_000, 10)).unwrap();
    create_exchange_rate(&mut store, ACTOR, 100, rate_dto(None, 905_000, 10)).unwrap();
    assert_eq!(list_exchange_rates(&store, Some(t)).len(), 1);
    assert_eq!(list_exchange_rates(&store, None).len(), 1);
    assert!(list_exchange_rates(&store, Some(t + 1)).is_empty());
}

#[test]
fn rates_are_hard_deleted() {
    let mut store = Ledger::new();
    let r = create_exchange_rate(&mut store, ACTOR, NOW, rate_dto(None, 900_000, 10)).unwrap();
    let patched = update_exchange_rate(
        &mut store,
        r.id,
        ACTOR,
        NOW + 1,
        UpdateExchangeRateDto { rate: Some(901_000), rate_date: None, source: None },
    )
    .unwrap();
    assert_eq!(patched.rate, 901_000);
    assert_eq!(patched.rate_date, 10);
    delete_exchange_rate(&mut store, r.id).unwrap();
    assert!(store.exchange_rates.is_empty());
    let err = get_exchange_rate_by_id(&store, r.id).unwrap_err();
    assert!(err.is_not_found());
    assert_eq!(err.message().as_str(), format!("Exchange rate with ID {} not found", r.id));
    assert!(delete_exchange_rate(&mut store, r.id).unwrap_err().is_not_found());
}

#[test]
fn rate_bounds_are_enforced() {
    let mut store = Ledger::new();
    assert!(create_exchange_rate(&mut store, ACTOR, NOW, rate_dto(None, 0, 10))
        .unwrap_err()
        .is_validation());
    assert!(create_exchange_rate(&mut store, ACTOR, NOW, rate_dto(None, 1, 10)).is_ok());
}

#[test]
fn budget_dates_must_be_ordered() {
    let mut store = Ledger::new();
    let t = new_tenant(&mut store, "Acme");
    let err = create_budget(
        &mut store,
        t,
        ACTOR,
        NOW,
        CreateBudgetDto {
            name: "Backwards".to_string(),
            start_date: 100,
            end_date: 99,
            currency_code: "USD".to_string(),
        },
    )
    .unwrap_err();
    assert!(err.is_validation());
    assert_eq!(err.message().as_str(), "End date cannot be before start date");
    let b = create_budget(
        &mut store,
        t,
        ACTOR,
        NOW,
        CreateBudgetDto {
            name: "Quarterly".to_string(),
            start_date: 100,
            end_date: 190,
            currency_code: "USD".to_string(),
        },
    )
    .unwrap();
    // A patch whose own dates conflict is rejected outright.
    let err = update_budget(
        &mut store,
        t,
        b.id,
        ACTOR,
        NOW + 1,
        UpdateBudgetDto {
            name: None,
            start_date: Some(50),
            end_date: Some(40),
            currency_code: None,
            is_active: None,
        },
    )
    .unwrap_err();
    assert_eq!(
        err.message().as_str(),
        "Updated end date cannot be before updated start date"
    );
    // A patch that conflicts with the kept start date is rejected too.
    let err = update_budget(
        &mut store,
        t,
        b.id,
        ACTOR,
        NOW + 1,
        UpdateBudgetDto {
            name: None,
            start_date: None,
            end_date: Some(99),
            currency_code: None,
            is_active: None,
        },
    )
    .unwrap_err();
    assert_eq!(
        err.message().as_str(),
        "Resulting end date cannot be before resulting start date"
    );
    assert_eq!(store.budgets[0].end_date, 190);
    // A consistent patch goes through.
    let patched = update_budget(
        &mut store,
        t,
        b.id,
        ACTOR,
        NOW + 2,
        UpdateBudgetDto {
            name: None,
            start_date: None,
            end_date: Some(200),
            currency_code: None,
            is_active: None,
        },
    )
    .unwrap();
    assert_eq!(patched.start_date, 100);
    assert_eq!(patched.end_date, 200);
}

#[test]
fn line_items_are_reached_through_their_budget() {
    let mut store = Ledger::new();
    let t = new_tenant(&mut store, "Acme");
    let other = new_tenant(&mut store, "Rival");
    let b = create_budget(
        &mut store,
        t,
        ACTOR,
        NOW,
        CreateBudgetDto {
            name: "Yearly".to_string(),
            start_date: 0,
            end_date: 365,
            currency_code: "USD".to_string(),
        },
    )
    .unwrap();
    let li = create_budget_line_item(
        &mut store,
        t,
        ACTOR,
        NOW,
        b.id,
        CreateBudgetLineItemDto { category_id: None, account_id: None, budgeted_amount: 5_000 },
    )
    .unwrap();
    assert_eq!(list_budget_line_items(&store, t, b.id).unwrap().len(), 1);
    assert!(list_budget_line_items(&store, other, b.id).unwrap_err().is_not_found());
    assert!(get_budget_line_item_by_id(&store, other, li.id).unwrap_err().is_not_found());
    // A line item referencing another tenant's budget cannot be created.
    let err = create_budget_line_item(
        &mut store,
        other,
        ACTOR,
        NOW,
        b.id,
        CreateBudgetLineItemDto { category_id: None, account_id: None, budgeted_amount: 1 },
    )
    .unwrap_err();
    assert!(err.is_not_found());
    // An unresolvable account reference is Validation.
    let err = create_budget_line_item(
        &mut store,
        t,
        ACTOR,
        NOW,
        b.id,
        CreateBudgetLineItemDto { category_id: None, account_id: Some(777), budgeted_amount: 1 },
    )
    .unwrap_err();
    assert!(err.is_validation());
    deactivate_budget_line_item(&mut store, t, li.id, ACTOR, NOW + 1).unwrap();
    assert!(list_budget_line_items(&store, t, b.id).unwrap().is_empty());
    assert!(deactivate_budget_line_item(&mut store, t, li.id, ACTOR, NOW + 2)
        .unwrap_err()
        .is_not_found());
    deactivate_budget(&mut store, t, b.id, ACTOR, NOW + 3).unwrap();
    assert!(list_budget_line_items(&store, t, b.id).unwrap_err().is_not_found());
}

#[test]
fn line_item_with_resolvable_references() {
    let mut store = Ledger::new();
    let t = new_tenant(&mut store, "Acme");
    let at = create_account_type_for(&mut store);
    let a = ledger::services::account::create_account(
        &mut store,
        t,
        ACTOR,
        NOW,
        CreateAccountDto {
            account_type_id: at,
            name: "Cash".to_string(),
            account_code: None,
            description: None,
            currency_code: "USD".to_string(),
        },
    )
    .unwrap();
    let c = create_category(
        &mut store,
        t,
        ACTOR,
        NOW,
        CreateCategoryDto {
            name: "Food".to_string(),
            description: None,
            category_type: CategoryType::Expense,
            parent_category_id: None,
        },
    )
    .unwrap();
    let b = create_budget(
        &mut store,
        t,
        ACTOR,
        NOW,
        CreateBudgetDto {
            name: "Yearly".to_string(),
            start_date: 0,
            end_date: 365,
            currency_code: "USD".to_string(),
        },
    )
    .unwrap();
    let li = create_budget_line_item(
        &mut store,
        t,
        ACTOR,
        NOW,
        b.id,
        CreateBudgetLineItemDto {
            category_id: Some(c.id),
            account_id: Some(a.id),
            budgeted_amount: 120_000,
        },
    )
    .unwrap();
    assert_eq!(li.category_id, Some(c.id));
    assert_eq!(li.account_id, Some(a.id));
    assert_eq!(li.budgeted_amount, 120_000);
}

fn create_account_type_for(store: &mut Ledger) -> u128 {
    ledger::services::account_type::create_account_type(
        store,
        ACTOR,
        NOW,
        CreateAccountTypeDto {
            name: "Asset".to_string(),
            normal_balance: AccountNormalBalance::DEBIT,
        },
    )
    .unwrap()
    .id
}

#[test]
fn category_tree_rejects_cycles() {
    let mut store = Ledger::new();
    let t = new_tenant(&mut store, "Acme");
    let root = create_category(
        &mut store,
        t,
        ACTOR,
        NOW,
        CreateCategoryDto {
            name: "Spending".to_string(),
            description: None,
            category_type: CategoryType::Expense,
            parent_category_id: None,
        },
    )
    .unwrap();
    let child = create_category(
        &mut store,
        t,
        ACTOR,
        NOW,
        CreateCategoryDto {
            name: "Groceries".to_string(),
            description: None,
            category_type: CategoryType::Expense,
            parent_category_id: Some(root.id),
        },
    )
    .unwrap();
    // Re-rooting the parent under its own child would close a cycle.
    let err = update_category(
        &mut store,
        t,
        root.id,
        ACTOR,
        NOW + 1,
        UpdateCategoryDto {
            name: None,
            description: None,
            category_type: None,
            parent_category_id: Some(child.id),
            is_active: None,
        },
    )
    .unwrap_err();
    assert!(err.is_validation());
    assert_eq!(
        err.message().as_str(),
        format!("Parent assignment would create a cycle for category {}", root.id)
    );
    assert_eq!(store.categories[0].parent_category_id, None);
    // Making a node its own parent is the smallest cycle.
    let err = update_category(
        &mut store,
        t,
        child.id,
        ACTOR,
        NOW + 1,
        UpdateCategoryDto {
            name: None,
            description: None,
            category_type: None,
            parent_category_id: Some(child.id),
            is_active: None,
        },
    )
    .unwrap_err();
    assert!(err.is_validation());
    // A parent of another tenant never resolves.
    let other = new_tenant(&mut store, "Rival");
    let err = create_category(
        &mut store,
        other,
        ACTOR,
        NOW,
        CreateCategoryDto {
            name: "Stolen".to_string(),
            description: None,
            category_type: CategoryType::Other,
            parent_category_id: Some(root.id),
        },
    )
    .unwrap_err();
    assert!(err.is_validation());
    assert_eq!(
        err.message().as_str(),
        format!("Category ID {} is invalid or inactive for tenant {}", root.id, other)
    );
}

#[test]
fn category_lifecycle() {
    let mut store = Ledger::new();
    let t = new_tenant(&mut store, "Acme");
    let c = create_category(
        &mut store,
        t,
        ACTOR,
        NOW,
        CreateCategoryDto {
            name: "Income".to_string(),
            description: None,
            category_type: CategoryType::Income,
            parent_category_id: None,
        },
    )
    .unwrap();
    assert_eq!(get_category_by_id(&store, t, c.id).unwrap().name, "Income");
    assert_eq!(list_categories(&store, t).len(), 1);
    deactivate_category(&mut store, t, c.id, ACTOR, NOW + 1).unwrap();
    assert!(list_categories(&store, t).is_empty());
    assert!(get_category_by_id(&store, t, c.id).unwrap_err().is_not_found());
}

#[test]
fn empty_rate_update_is_rejected() {
    let mut store = Ledger::new();
    let r = create_exchange_rate(&mut store, ACTOR, NOW, rate_dto(None, 900_000, 10)).unwrap();
    let before = store.exchange_rates.clone();
    let err = update_exchange_rate(
        &mut store,
        r.id,
        ACTOR,
        NOW + 1,
        UpdateExchangeRateDto { rate: None, rate_date: None, source: None },
    )
    .unwrap_err();
    assert!(err.is_validation());
    assert_eq!(err.message().as_str(), "No fields provided for update");
    assert_eq!(store.exchange_rates, before);
}
