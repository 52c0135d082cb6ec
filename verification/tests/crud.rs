//! The shared CRUD behaviour: sparse updates, empty-patch rejection, soft
//! deletion, tenant isolation of listings, and the currency-code uniqueness
//! violation.

use ledger::codes::AccountNormalBalance;
use ledger::dto::{
    CreateAccountDto, CreateAccountTypeDto, CreateCurrencyDto, CreateTagDto, CreateTenantDto,
    UpdateAccountDto, UpdateAccountTypeDto, UpdateCurrencyDto, UpdateTagDto, UpdateTenantDto,
};
use ledger::services::account::{
    create_account, deactivate_account, get_account_by_id, list_accounts, update_account,
};
use ledger::services::account_type::{
    create_account_type, deactivate_account_type, get_account_type_by_id, list_account_types,
    update_account_type,
};
use ledger::services::currency::{
    create_currency, deactivate_currency, get_currency_by_code, list_currencies, update_currency,
};
use ledger::services::tag::{create_tag, deactivate_tag, list_tags, update_tag};
use ledger::services::tenant::{
    create_tenant, deactivate_tenant, get_tenant_by_id, list_tenants, update_tenant,
};
use ledger::store::Ledger;

const ACTOR: u128 = 11;
const LATER: i64 = 2_000;
const NOW: i64 = 1_000;

fn tenant_dto(name: &str) -> CreateTenantDto {
    CreateTenantDto {
        name: name.to_string(),
        industry: Some("Retail".to_string()),
        base_currency_code: "USD".to_string(),
        fiscal_year_end_month: 6,
    }
}

fn empty_tenant_patch() -> UpdateTenantDto {
    UpdateTenantDto {
        name: None,
        industry: None,
        base_currency_code: None,
        fiscal_year_end_month: None,
        is_active: None,
    }
}

#[test]
fn empty_update_is_rejected_and_row_untouched() {
    let mut store = Ledger::new();
    let t = create_tenant(&mut store, ACTOR, NOW, tenant_dto("Acme")).unwrap();
    let before = store.tenants.clone();
    let err = update_tenant(&mut store, t.id, ACTOR, LATER, empty_tenant_patch()).unwrap_err();
    assert!(err.is_validation());
    assert_eq!(err.message().as_str(), "No fields provided for update");
    assert_eq!(store.tenants, before);
}

#[test]
fn sparse_update_touches_only_named_fields_and_stamps() {
    let mut store = Ledger::new();
    let t = create_tenant(&mut store, ACTOR, NOW, tenant_dto("Acme")).unwrap();
    let updated = update_tenant(
        &mut store,
        t.id,
        42,
        LATER,
        UpdateTenantDto {
            name: Some("Acme Corp".to_string()),
            ..empty_tenant_patch()
        },
    )
    .unwrap();
    assert_eq!(updated.name, "Acme Corp");
    assert_eq!(updated.industry, t.industry);
    assert_eq!(updated.base_currency_code, t.base_currency_code);
    assert_eq!(updated.fiscal_year_end_month, t.fiscal_year_end_month);
    assert_eq!(updated.created_at, NOW);
    assert_eq!(updated.created_by, ACTOR);
    assert_eq!(updated.updated_at, LATER);
    assert_eq!(updated.updated_by, 42);
    assert!(updated.is_active);
}

#[test]
fn updating_a_missing_tenant_is_not_found() {
    let mut store = Ledger::new();
    let err = update_tenant(
        &mut store,
        5,
        ACTOR,
        NOW,
        UpdateTenantDto { name: Some("X".to_string()), ..empty_tenant_patch() },
    )
    .unwrap_err();
    assert!(err.is_not_found());
    assert_eq!(err.message().as_str(), "Tenant with ID 5 not found");
}

#[test]
fn deactivation_follows_the_soft_delete_rules() {
    let mut store = Ledger::new();
    let t = create_tenant(&mut store, ACTOR, NOW, tenant_dto("Acme")).unwrap();
    deactivate_tenant(&mut store, t.id, 42, LATER).unwrap();
    let row = &store.tenants[0];
    assert!(!row.is_active);
    assert_eq!(row.updated_at, LATER);
    assert_eq!(row.updated_by, 42);
    assert_eq!(row.name, t.name);
    // Deactivating again: NotFound, row untouched.
    let before = store.tenants.clone();
    let err = deactivate_tenant(&mut store, t.id, 43, LATER + 1).unwrap_err();
    assert!(err.is_not_found());
    assert_eq!(
        err.message().as_str(),
        format!("Tenant with ID {} not found or already inactive", t.id)
    );
    assert_eq!(store.tenants, before);
    // A nonexistent id is NotFound too.
    assert!(deactivate_tenant(&mut store, 9_999, ACTOR, NOW).unwrap_err().is_not_found());
}

#[test]
fn inactive_rows_disappear_from_gets_and_listings() {
    let mut store = Ledger::new();
    let t = create_tenant(&mut store, ACTOR, NOW, tenant_dto("Acme")).unwrap();
    assert_eq!(list_tenants(&store).len(), 1);
    assert!(get_tenant_by_id(&store, t.id).is_ok());
    deactivate_tenant(&mut store, t.id, ACTOR, LATER).unwrap();
    assert!(list_tenants(&store).is_empty());
    let err = get_tenant_by_id(&store, t.id).unwrap_err();
    assert!(err.is_not_found());
}

#[test]
fn duplicate_currency_code_is_a_database_error() {
    let mut store = Ledger::new();
    let dto = CreateCurrencyDto {
        code: "USD".to_string(),
        name: "US Dollar".to_string(),
        symbol: Some("$".to_string()),
    };
    create_currency(&mut store, ACTOR, NOW, dto).unwrap();
    let again = CreateCurrencyDto {
        code: "USD".to_string(),
        name: "US Dollar again".to_string(),
        symbol: None,
    };
    let err = create_currency(&mut store, ACTOR, LATER, again).unwrap_err();
    assert!(err.is_database_error());
    assert_eq!(err.message().as_str(), "Currency with code USD already exists");
    assert_eq!(store.currencies.len(), 1);
    assert_eq!(store.currencies[0].name, "US Dollar");
}

#[test]
fn currency_crud_round_trip() {
    let mut store = Ledger::new();
    create_currency(
        &mut store,
        ACTOR,
        NOW,
        CreateCurrencyDto {
            code: "EUR".to_string(),
            name: "Euro".to_string(),
            symbol: None,
        },
    )
    .unwrap();
    let got = get_currency_by_code(&store, "EUR").unwrap();
    assert_eq!(got.name, "Euro");
    let updated = update_currency(
        &mut store,
        "EUR",
        ACTOR,
        LATER,
        UpdateCurrencyDto {
            name: None,
            symbol: Some("E".to_string()),
            is_active: None,
        },
    )
    .unwrap();
    assert_eq!(updated.symbol.as_deref(), Some("E"));
    assert_eq!(updated.name, "Euro");
    deactivate_currency(&mut store, "EUR", ACTOR, LATER).unwrap();
    assert!(get_currency_by_code(&store, "EUR").unwrap_err().is_not_found());
    assert!(list_currencies(&store).is_empty());
    let err = deactivate_currency(&mut store, "EUR", ACTOR, LATER).unwrap_err();
    assert!(err.is_not_found());
    assert_eq!(
        err.message().as_str(),
        "Currency with code EUR not found or already inactive"
    );
}

#[test]
fn invalid_currency_fields_are_rejected() {
    let mut store = Ledger::new();
    let err = create_currency(
        &mut store,
        ACTOR,
        NOW,
        CreateCurrencyDto {
            code: "US".to_string(),
            name: "Short code".to_string(),
            symbol: None,
        },
    )
    .unwrap_err();
    assert!(err.is_validation());
    let err = create_currency(
        &mut store,
        ACTOR,
        NOW,
        CreateCurrencyDto {
            code: "USD".to_string(),
            name: String::new(),
            symbol: None,
        },
    )
    .unwrap_err();
    assert!(err.is_validation());
    assert!(store.currencies.is_empty());
}

#[test]
fn accounts_are_tenant_scoped() {
    let mut store = Ledger::new();
    let t1 = create_tenant(&mut store, ACTOR, NOW, tenant_dto("One")).unwrap();
    let t2 = create_tenant(&mut store, ACTOR, NOW, tenant_dto("Two")).unwrap();
    let at = create_account_type(
        &mut store,
        ACTOR,
        NOW,
        CreateAccountTypeDto {
            name: "Asset".to_string(),
            normal_balance: AccountNormalBalance::DEBIT,
        },
    )
    .unwrap();
    let a = create_account(
        &mut store,
        t1.id,
        ACTOR,
        NOW,
        CreateAccountDto {
            account_type_id: at.id,
            name: "Cash".to_string(),
            account_code: Some("1000".to_string()),
            description: None,
            currency_code: "USD".to_string(),
        },
    )
    .unwrap();
    assert_eq!(list_accounts(&store, t1.id).len(), 1);
    assert!(list_accounts(&store, t2.id).is_empty());
    assert!(get_account_by_id(&store, t2.id, a.id).unwrap_err().is_not_found());
    // A cross-tenant update must fail and leave the row alone.
    let err = update_account(
        &mut store,
        t2.id,
        a.id,
        ACTOR,
        LATER,
        UpdateAccountDto {
            account_type_id: None,
            name: Some("Hijacked".to_string()),
            account_code: None,
            description: None,
            currency_code: None,
            is_active: None,
        },
    )
    .unwrap_err();
    assert!(err.is_not_found());
    assert_eq!(store.accounts[0].name, "Cash");
    // A cross-tenant deactivation must fail too.
    assert!(deactivate_account(&mut store, t2.id, a.id, ACTOR, LATER).unwrap_err().is_not_found());
    assert!(store.accounts[0].is_active);
}

#[test]
fn account_creation_requires_an_active_account_type() {
    let mut store = Ledger::new();
    let t = create_tenant(&mut store, ACTOR, NOW, tenant_dto("One")).unwrap();
    let err = create_account(
        &mut store,
        t.id,
        ACTOR,
        NOW,
        CreateAccountDto {
            account_type_id: 424_242,
            name: "Cash".to_string(),
            account_code: None,
            description: None,
            currency_code: "USD".to_string(),
        },
    )
    .unwrap_err();
    assert!(err.is_validation());
    assert_eq!(
        err.message().as_str(),
        "Account type ID 424242 is invalid or inactive"
    );
    assert!(store.accounts.is_empty());
}

#[test]
fn tag_lifecycle_under_one_tenant() {
    let mut store = Ledger::new();
    let t = create_tenant(&mut store, ACTOR, NOW, tenant_dto("One")).unwrap();
    let tag = create_tag(
        &mut store,
        t.id,
        ACTOR,
        NOW,
        CreateTagDto { name: "travel".to_string(), description: None },
    )
    .unwrap();
    assert_eq!(list_tags(&store, t.id).len(), 1);
    let updated = update_tag(
        &mut store,
        t.id,
        tag.id,
        ACTOR,
        LATER,
        UpdateTagDto {
            name: None,
            description: Some("Trips and travel".to_string()),
            is_active: None,
        },
    )
    .unwrap();
    assert_eq!(updated.name, "travel");
    assert_eq!(updated.description.as_deref(), Some("Trips and travel"));
    deactivate_tag(&mut store, t.id, tag.id, ACTOR, LATER).unwrap();
    assert!(list_tags(&store, t.id).is_empty());
}

#[test]
fn name_length_bounds_are_enforced() {
    let mut store = Ledger::new();
    let long = "x".repeat(256);
    let err = create_tenant(
        &mut store,
        ACTOR,
        NOW,
        CreateTenantDto {
            name: long,
            industry: None,
            base_currency_code: "USD".to_string(),
            fiscal_year_end_month: 1,
        },
    )
    .unwrap_err();
    assert!(err.is_validation());
    let err = create_tenant(
        &mut store,
        ACTOR,
        NOW,
        CreateTenantDto {
            name: "Fine".to_string(),
            industry: None,
            base_currency_code: "USD".to_string(),
            fiscal_year_end_month: 13,
        },
    )
    .unwrap_err();
    assert!(err.is_validation());
    assert!(store.tenants.is_empty());
    assert!(create_tenant(
        &mut store,
        ACTOR,
        NOW,
        CreateTenantDto {
            name: "x".repeat(255),
            industry: None,
            base_currency_code: "USD".to_string(),
            fiscal_year_end_month: 1,
        },
    )
    .is_ok());
}

#[test]
fn account_type_lifecycle() {
    let mut store = Ledger::new();
    let at = create_account_type(
        &mut store,
        ACTOR,
        NOW,
        CreateAccountTypeDto {
            name: "Liability".to_string(),
            normal_balance: AccountNormalBalance::CREDIT,
        },
    )
    .unwrap();
    assert_eq!(get_account_type_by_id(&store, at.id).unwrap().name, "Liability");
    assert_eq!(list_account_types(&store).len(), 1);
    let patched = update_account_type(
        &mut store,
        at.id,
        42,
        LATER,
        UpdateAccountTypeDto {
            name: None,
            normal_balance: Some(AccountNormalBalance::DEBIT),
            is_active: None,
        },
    )
    .unwrap();
    assert_eq!(patched.name, "Liability");
    assert_eq!(patched.normal_balance, AccountNormalBalance::DEBIT);
    assert_eq!(patched.updated_by, 42);
    deactivate_account_type(&mut store, at.id, ACTOR, LATER).unwrap();
    assert!(list_account_types(&store).is_empty());
    let err = get_account_type_by_id(&store, at.id).unwrap_err();
    assert!(err.is_not_found());
    assert_eq!(
        err.message().as_str(),
        format!("Account type with ID {} not found", at.id)
    );
}

#[test]
fn account_update_resolves_a_patched_account_type() {
    let mut store = Ledger::new();
    let t = create_tenant(&mut store, ACTOR, NOW, tenant_dto("One")).unwrap();
    let at = create_account_type(
        &mut store,
        ACTOR,
        NOW,
        CreateAccountTypeDto {
            name: "Asset".to_string(),
            normal_balance: AccountNormalBalance::DEBIT,
        },
    )
    .unwrap();
    let a = create_account(
        &mut store,
        t.id,
        ACTOR,
        NOW,
        CreateAccountDto {
            account_type_id: at.id,
            name: "Cash".to_string(),
            account_code: None,
            description: None,
            currency_code: "USD".to_string(),
        },
    )
    .unwrap();
    let err = update_account(
        &mut store,
        t.id,
        a.id,
        ACTOR,
        LATER,
        UpdateAccountDto {
            account_type_id: Some(31_337),
            name: None,
            account_code: None,
            description: None,
            currency_code: None,
            is_active: None,
        },
    )
    .unwrap_err();
    assert!(err.is_validation());
    assert_eq!(store.accounts[0].account_type_id, at.id);
    let patched = update_account(
        &mut store,
        t.id,
        a.id,
        ACTOR,
        LATER,
        UpdateAccountDto {
            account_type_id: None,
            name: Some("Petty cash".to_string()),
            account_code: Some("1001".to_string()),
            description: None,
            currency_code: None,
            is_active: None,
        },
    )
    .unwrap();
    assert_eq!(patched.name, "Petty cash");
    assert_eq!(patched.account_code.as_deref(), Some("1001"));
    assert_eq!(patched.currency_code, "USD");
    assert_eq!(patched.updated_at, LATER);
}
