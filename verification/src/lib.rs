//! Verified storage and address management for the onchain username
//! contracts (core registry, factory and auction) on Soroban.
//!
//! `model` describes storage mathematically; `host` and `ledger` hold the
//! trusted wrappers around `soroban_sdk`; `keys` builds storage keys;
//! `shared` holds the shared storage and authorization helpers; the
//! `*_storage` modules and `address_manager` are the contracts' logic, and
//! `laws` states what holds across their operations.
pub mod address_list;
pub mod address_manager;
pub mod auction_storage;
pub mod core_storage;
pub mod factory_storage;
pub mod host;
pub mod keys;
pub mod laws;
pub mod ledger;
pub mod model;
pub mod shared;
pub mod types;
