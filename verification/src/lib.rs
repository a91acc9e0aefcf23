//! A ledger and inventory consistency engine for a small retail business.
//!
//! Commercial documents (purchase orders, customer sales and generic party
//! transactions) carry line items and payments.  The engine keeps a
//! document's totals, its payment status, the running balance of its
//! counterparty and the stock of the catalog items it names consistent with
//! each other through the document's whole life cycle.
//!
//! Money is held as a signed count of millionths of the currency unit.

pub mod adjust;
pub mod config;
pub mod creation;
pub mod effects;
pub mod error;
pub mod header;
pub mod items;
pub mod kinds;
pub mod laws;
pub mod ledger;
pub mod lifecycle;
pub mod money;
pub mod numbering;
pub mod order;
pub mod payments;
pub mod posting;
pub mod queries;
pub mod records;
pub mod sale;
pub mod session;
pub mod snapshot;
mod stamps;
pub mod submit;
pub mod text;
pub mod transaction;
pub mod validate;
pub mod wording;
