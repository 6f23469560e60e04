//! Accounts: one user's running tab, read as an aggregate.
//!
//! An account row stores only `(id, user_id)`. Reading an account joins the
//! items and payments whose `account_id` matches and computes the derived
//! totals; nothing derived is ever stored.

use vstd::prelude::*;

use crate::db::exec;
use crate::db::fresh_id;
use crate::db::query_all;
use crate::db::query_one;
use crate::db::raw_params;
use crate::item::Item;
use crate::rows::decode_account_row;
use crate::payment::Payment;
use crate::rows::decode_items;
use crate::rows::decode_payments;
use crate::rows::item_matches_row;
use crate::rows::item_row_ok;
use crate::rows::lemma_rows_items_total;
use crate::rows::lemma_rows_paid_amount;
use crate::rows::payment_matches_row;
use crate::rows::payment_row_ok;
use crate::rows::rows_items_total;
use crate::rows::rows_paid_amount;
use crate::totals::account_total_of;
use crate::totals::items_total;
use crate::totals::paid_amount_of;
use crate::totals::sum_amounts;
use crate::values::SqlValue;
use crate::StoreError;

verus! {

/// The account aggregate: the stored row plus, filled in on read, the
/// associated items and payments and the derived totals.
#[derive(Debug, Clone)]
pub struct Account {
    pub id: String,
    pub user_id: String,
    pub items: Option<Vec<Item>>,
    pub payments: Option<Vec<Payment>>,
    pub paid_amount: i64,
    pub account_total: i64,
}

impl Account {
    /// A well-formed aggregate: both lists are filled, every listed item and
    /// payment is well formed and belongs to this account, `paid_amount` is
    /// the sum of the payments' amounts and `account_total` the sum over the
    /// items of price × quantity.
    pub open spec fn wf(self) -> bool {
        &&& self.items matches Some(its) && self.account_total == items_total(its@) && (forall|
            k: int,
        |
            0 <= k < its@.len() ==> (#[trigger] its@[k]).wf() && its@[k].account_id@ == self.id@)
        &&& self.payments matches Some(ps) && self.paid_amount == sum_amounts(ps@) && (forall|
            k: int,
        |
            0 <= k < ps@.len() ==> (#[trigger] ps@[k]).wf() && ps@[k].account_id@ == self.id@)
    }

    /// Opens an account for a user under a fresh id and returns the id.
    /// Whether the user exists is not checked here: the store enforces the
    /// reference and a violation comes back as a store error.
    pub fn create_account(conn: &rusqlite::Connection, user_id: String) -> (r: Result<
        String,
        StoreError,
    >)
        ensures
            r matches Ok(id) ==> id@.len() > 0,
            r matches Err(e) ==> e is Backend || e is MalformedRow,
    {
        let id = fresh_id(conn)?;
        let args = vec![SqlValue::Text(id.clone()), SqlValue::Text(user_id)];
        match exec(
            conn,
            "INSERT INTO accounts (id, user_id) VALUES (?1, ?2)",
            raw_params(&args),
        ) {
            Ok(_) => Ok(id),
            Err(m) => Err(StoreError::Backend(m)),
        }
    }

    /// Reads the full aggregate for an account: the stored row, every item
    /// and payment of the account, and the derived totals. An absent id is
    /// `Ok(None)`, never an error; a present aggregate is well formed — it
    /// carries the asked-for id and totals that are exactly the sums over its
    /// lists — and its three reads happen in sequence, under the caller's
    /// single-connection discipline.
    pub fn find_one(conn: &rusqlite::Connection, id: String) -> (r: Result<
        Option<Account>,
        StoreError,
    >)
        ensures
            r matches Ok(Some(a)) ==> a.wf() && a.id@ == id@,
            r matches Err(e) ==> e is Backend || e is MalformedRow || e is Overflow,
    {
        let args = vec![SqlValue::Text(id.clone())];
        let row = match query_one(
            conn,
            "SELECT id, user_id FROM accounts WHERE id = ?1",
            raw_params(&args),
        ) {
            Ok(Some(row)) => row,
            Ok(None) => { return Ok(None); },
            Err(m) => { return Err(StoreError::Backend(m)); },
        };
        let (row_id, user_id) = match decode_account_row(&row) {
            Ok(p) => p,
            Err(e) => { return Err(e); },
        };
        if !(row_id == id) {
            return Err(StoreError::MalformedRow);
        }
        let item_args = vec![SqlValue::Text(id.clone())];
        let item_rows = match query_all(
            conn,
            "SELECT id, name, quantity, product_id, price, notes, account_id FROM items WHERE account_id = ?1",
            raw_params(&item_args),
        ) {
            Ok(rows) => rows,
            Err(m) => { return Err(StoreError::Backend(m)); },
        };
        let payment_args = vec![SqlValue::Text(id.clone())];
        let payment_rows = match query_all(
            conn,
            "SELECT id, amount, account_id FROM payments WHERE account_id = ?1",
            raw_params(&payment_args),
        ) {
            Ok(rows) => rows,
            Err(m) => { return Err(StoreError::Backend(m)); },
        };
        match aggregate(id, user_id, &item_rows, &payment_rows) {
            Ok(a) => Ok(Some(a)),
            Err(e) => Err(e),
        }
    }

    /// Deletes the account and everything referencing it, children first:
    /// its items, then its payments, then the account row itself. A failure
    /// partway leaves no dangling reference behind; every failure is the
    /// store's own error, surfaced.
    pub fn delete_one(conn: &rusqlite::Connection, id: String) -> (r: Result<(), StoreError>)
        ensures
            r matches Err(e) ==> e is Backend,
    {
        let child_args = vec![SqlValue::Text(id.clone())];
        match exec(conn, "DELETE FROM items WHERE account_id = ?1", raw_params(&child_args)) {
            Ok(_) => (),
            Err(m) => { return Err(StoreError::Backend(m)); },
        }
        match exec(conn, "DELETE FROM payments WHERE account_id = ?1", raw_params(&child_args)) {
            Ok(_) => (),
            Err(m) => { return Err(StoreError::Backend(m)); },
        }
        let args = vec![SqlValue::Text(id)];
        match exec(conn, "DELETE FROM accounts WHERE id = ?1", raw_params(&args)) {
            Ok(_) => Ok(()),
            Err(m) => Err(StoreError::Backend(m)),
        }
    }
}

/// Law: aggregate linearity. On a well-formed aggregate, `paid_amount` is
/// exactly the sum of the amounts of the account's payments and
/// `account_total` exactly the sum over the account's items of
/// price × quantity. `account_total` is **not** reduced by the payments:
/// the governing behaviour of the layer is that one item at price 20 ×
/// quantity 2 together with one payment of 100 reads back as
/// `account_total` 40 and `paid_amount` 100 — a reading of the total as
/// "items total minus paid amount" would give −60 there and is wrong. The
/// last clause records the one case where that subtraction form agrees,
/// an account whose payments sum to zero; it holds nowhere else.
pub proof fn lemma_aggregate_linearity(a: Account)
    requires
        a.wf(),
    ensures
        a.payments matches Some(ps) ==> a.paid_amount == sum_amounts(ps@),
        a.items matches Some(its) ==> a.account_total == items_total(its@),
        sum_amounts(a.payments.unwrap()@) == 0 ==> a.account_total == items_total(
            a.items.unwrap()@,
        ) - a.paid_amount,
{
}

/// Assembles the aggregate for account `id`, owned by `user_id`, from the
/// item rows and payment rows fetched for that account.
///
/// Succeeds exactly when every row is well shaped, belongs to the account,
/// and both totals fit the machine integer; the aggregate then carries
/// exactly the decoded rows and their totals.
pub fn aggregate(
    id: String,
    user_id: String,
    item_rows: &Vec<Vec<SqlValue>>,
    payment_rows: &Vec<Vec<SqlValue>>,
) -> (r: Result<Account, StoreError>)
    ensures
        r matches Ok(a) ==> {
            &&& a.wf()
            &&& a.id@ == id@
            &&& a.user_id@ == user_id@
            &&& a.items matches Some(its) && its@.len() == item_rows@.len() && (forall|k: int|
                0 <= k < item_rows@.len() ==> item_matches_row(
                    #[trigger] its@[k],
                    item_rows@[k]@,
                ))
            &&& a.payments matches Some(ps) && ps@.len() == payment_rows@.len() && (forall|k: int|
                0 <= k < payment_rows@.len() ==> payment_matches_row(
                    #[trigger] ps@[k],
                    payment_rows@[k]@,
                ))
            &&& a.paid_amount == rows_paid_amount(payment_rows@)
            &&& a.account_total == rows_items_total(item_rows@)
        },
        r is Ok <==> ({
            &&& forall|k: int|
                0 <= k < item_rows@.len() ==> item_row_ok((#[trigger] item_rows@[k])@)
                    && item_rows@[k]@[6].text() == id@
            &&& forall|k: int|
                0 <= k < payment_rows@.len() ==> payment_row_ok((#[trigger] payment_rows@[k])@)
                    && payment_rows@[k]@[2].text() == id@
            &&& rows_paid_amount(payment_rows@) <= i64::MAX
            &&& rows_items_total(item_rows@) <= i64::MAX
        }),
        r matches Err(e) ==> (e == StoreError::MalformedRow || e == StoreError::Overflow),
{
    let items = match decode_items(item_rows, &id) {
        Ok(v) => v,
        Err(e) => { return Err(e); },
    };
    let payments = match decode_payments(payment_rows, &id) {
        Ok(v) => v,
        Err(e) => { return Err(e); },
    };
    proof {
        lemma_rows_items_total(items@, item_rows@);
        lemma_rows_paid_amount(payments@, payment_rows@);
    }
    let paid_amount = match paid_amount_of(&payments) {
        Some(t) => t,
        None => { return Err(StoreError::Overflow); },
    };
    let account_total = match account_total_of(&items) {
        Some(t) => t,
        None => { return Err(StoreError::Overflow); },
    };
    Ok(
        Account {
            id,
            user_id,
            items: Some(items),
            payments: Some(payments),
            paid_amount,
            account_total,
        },
    )
}

} // verus!
