//! The entity services: list, get, create, sparse update and deactivate (or
//! delete) for every persisted entity, all operating on the [`crate::store::Ledger`].

pub mod account;
pub mod account_type;
pub mod budget;
pub mod budget_line_item;
pub mod category;
pub mod currency;
pub mod exchange_rate;
pub mod journal_entry;
pub mod tag;
pub mod tenant;
pub mod transaction;
pub mod user;
