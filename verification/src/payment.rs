//! Payments: credits applied to an account.

use vstd::prelude::*;

use crate::db::exec;
use crate::db::fresh_id;
use crate::db::query_one;
use crate::db::raw_params;
use crate::rows::decode_payment;
use crate::values::SqlValue;
use crate::StoreError;

verus! {

/// A credit applied to an account, reducing its outstanding balance.
#[derive(Debug, Clone)]
pub struct Payment {
    pub id: String,
    pub amount: i64,
    pub account_id: String,
}

impl Payment {
    /// A stored payment carries a non-negative amount.
    pub open spec fn wf(self) -> bool {
        self.amount >= 0
    }

    /// Records a payment against an account under a fresh id and returns the
    /// id. The account must exist: the store enforces the reference and its
    /// violation comes back as a store error.
    pub fn create_one(conn: &rusqlite::Connection, amount: i64, account_id: String) -> (r: Result<
        String,
        StoreError,
    >)
        requires
            amount >= 0,
        ensures
            r matches Ok(id) ==> id@.len() > 0,
            r matches Err(e) ==> e is Backend || e is MalformedRow,
    {
        let id = fresh_id(conn)?;
        let args = vec![
            SqlValue::Text(id.clone()),
            SqlValue::Int(amount),
            SqlValue::Text(account_id),
        ];
        match exec(
            conn,
            "INSERT INTO payments (id, amount, account_id) VALUES (?1, ?2, ?3)",
            raw_params(&args),
        ) {
            Ok(_) => Ok(id),
            Err(m) => Err(StoreError::Backend(m)),
        }
    }

    /// Finds a payment by id. An absent id is `Ok(None)`, never an error; a
    /// present payment is well formed and carries the asked-for id.
    pub fn find_one(conn: &rusqlite::Connection, id: String) -> (r: Result<
        Option<Payment>,
        StoreError,
    >)
        ensures
            r matches Ok(Some(p)) ==> p.wf() && p.id@ == id@,
            r matches Err(e) ==> e is Backend || e is MalformedRow,
    {
        let args = vec![SqlValue::Text(id.clone())];
        let row = match query_one(
            conn,
            "SELECT id, amount, account_id FROM payments WHERE id = ?1",
            raw_params(&args),
        ) {
            Ok(Some(row)) => row,
            Ok(None) => { return Ok(None); },
            Err(m) => { return Err(StoreError::Backend(m)); },
        };
        let p = match decode_payment(&row) {
            Ok(p) => p,
            Err(e) => { return Err(e); },
        };
        if !(p.id == id) {
            return Err(StoreError::MalformedRow);
        }
        Ok(Some(p))
    }

    /// Replaces the payment's amount.
    pub fn update_amount(conn: &rusqlite::Connection, id: String, new_amount: i64) -> (r: Result<
        (),
        StoreError,
    >)
        requires
            new_amount >= 0,
        ensures
            r matches Err(e) ==> e is Backend,
    {
        let args = vec![SqlValue::Int(new_amount), SqlValue::Text(id)];
        match exec(conn, "UPDATE payments SET amount = ?1 WHERE id = ?2", raw_params(&args)) {
            Ok(_) => Ok(()),
            Err(m) => Err(StoreError::Backend(m)),
        }
    }

    /// Removes the payment row, if it is there.
    pub fn delete_one(conn: &rusqlite::Connection, id: String) -> (r: Result<(), StoreError>)
        ensures
            r matches Err(e) ==> e is Backend,
    {
        let args = vec![SqlValue::Text(id)];
        match exec(conn, "DELETE FROM payments WHERE id = ?1", raw_params(&args)) {
            Ok(_) => Ok(()),
            Err(m) => Err(StoreError::Backend(m)),
        }
    }
}

} // verus!
