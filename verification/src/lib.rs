//! A multi-tenant double-entry bookkeeping core.
//!
//! The library models the persisted state of a small accounting backend as an
//! in-memory [`store::Ledger`] and verifies every operation on it: ledger
//! writes with their atomicity guarantees, tenant-scoped ownership checks,
//! and sparse partial updates that always refresh the audit stamps.

pub mod codes;
pub mod dto;
pub mod error;
pub mod laws;
pub mod models;
pub mod order;
pub mod ownership;
pub mod services;
pub mod store;
pub mod strutil;
