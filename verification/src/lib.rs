//! Data-access layer of a small point-of-sale / tab-management application.
//!
//! Five entities — `User`, `Product`, `Account`, `Item`, `Payment` — are kept
//! in an embedded relational store. Each entity has a create / find / edit /
//! delete surface; `Account` is an aggregate whose reads join the items and
//! payments of the account and compute the derived monetary totals
//! `paid_amount` and `account_total`.
//!
//! Monetary amounts and quantities are integers. Rows travel between the
//! store and the verified logic as vectors of [`values::SqlValue`]; decoding a
//! row into an entity, and computing the account totals, is verified code with
//! exact contracts. The module [`model`] states the layer's reference
//! semantics over maps and proves the round-trip, edit and cascade laws.

use vstd::prelude::*;

pub mod account;
pub mod db;
pub mod item;
pub mod model;
pub mod payment;
pub mod product;
pub mod rows;
pub mod schema;
pub mod totals;
pub mod user;
pub mod values;

verus! {

pub use account::Account;
pub use item::Item;
pub use payment::Payment;
pub use product::Product;
pub use user::User;

/// Failure of one store operation.
///
/// `Backend` carries the message of an error reported by the embedded store,
/// unchanged. `MalformedRow` is returned when a fetched row does not have the
/// shape the schema promises. `Overflow` is returned when an account's totals
/// do not fit the machine integer that carries them.
#[derive(Debug, Clone, PartialEq, Eq)]
pub enum StoreError {
    Backend(String),
    MalformedRow,
    Overflow,
}

} // verus!
