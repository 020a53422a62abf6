//! Multi-tenant operations backend core.
//!
//! Each client organization ("tenant") owns an isolated relational ledger of
//! orders and sales and an isolated document collection of live inventory.
//! This crate holds the verified core of such a backend:
//!
//! - a tenant resolver that extracts a tenant identity from an opaque
//!   session artifact and fails closed when it is absent or malformed;
//! - a pool registry that lazily creates, caches and shares one connection
//!   pool per tenant key;
//! - a fulfillment engine that keeps the ledger and the inventory collection
//!   consistent as orders are delivered and sales are recorded, including
//!   SKU generation and randomized restock re-pricing.
//!
//! I/O (HTTP, the relational store, the document store, the notification
//! stream) stays outside; the functions here compute over plain values and
//! carry contracts that Verus checks.

pub mod errors;
pub mod fulfillment;
pub mod inventory;
pub mod models;
pub mod pricing;
pub mod registry;
pub mod sku;
pub mod tenant;
