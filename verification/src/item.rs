//! Items: priced lines on an account, linked to a catalogued product.

use vstd::prelude::*;

use crate::db::exec;
use crate::db::fresh_id;
use crate::db::query_one;
use crate::db::raw_params;
use crate::rows::decode_item;
use crate::values::SqlValue;
use crate::StoreError;

verus! {

/// A priced line on an account: a quantity of a catalogued product, at the
/// price it was billed at, with an optional free-form note.
#[derive(Debug, Clone)]
pub struct Item {
    pub id: String,
    pub name: String,
    pub quantity: i64,
    pub product_id: String,
    pub price: i64,
    pub notes: Option<String>,
    pub account_id: String,
}

impl Item {
    /// A stored item has at least one unit and a non-negative price.
    pub open spec fn wf(self) -> bool {
        self.quantity >= 1 && self.price >= 0
    }

    /// Puts an item on an account under a fresh id and returns the id. The
    /// note starts out absent. Account and product must exist: the store
    /// enforces both references and a violation comes back as a store error.
    pub fn create_item(
        conn: &rusqlite::Connection,
        name: String,
        quantity: i64,
        price: i64,
        account_id: String,
        product_id: String,
    ) -> (r: Result<String, StoreError>)
        requires
            quantity >= 1,
            price >= 0,
        ensures
            r matches Ok(id) ==> id@.len() > 0,
            r matches Err(e) ==> e is Backend || e is MalformedRow,
    {
        let id = fresh_id(conn)?;
        let args = vec![
            SqlValue::Text(id.clone()),
            SqlValue::Text(name),
            SqlValue::Int(quantity),
            SqlValue::Text(product_id),
            SqlValue::Int(price),
            SqlValue::Null,
            SqlValue::Text(account_id),
        ];
        match exec(
            conn,
            "INSERT INTO items (id, name, quantity, product_id, price, notes, account_id) VALUES (?1, ?2, ?3, ?4, ?5, ?6, ?7)",
            raw_params(&args),
        ) {
            Ok(_) => Ok(id),
            Err(m) => Err(StoreError::Backend(m)),
        }
    }

    /// Finds an item by id. An absent id is `Ok(None)`, never an error; a
    /// present item is well formed and carries the asked-for id.
    pub fn find_item(conn: &rusqlite::Connection, id: String) -> (r: Result<
        Option<Item>,
        StoreError,
    >)
        ensures
            r matches Ok(Some(it)) ==> it.wf() && it.id@ == id@,
            r matches Err(e) ==> e is Backend || e is MalformedRow,
    {
        let args = vec![SqlValue::Text(id.clone())];
        let row = match query_one(
            conn,
            "SELECT id, name, quantity, product_id, price, notes, account_id FROM items WHERE id = ?1",
            raw_params(&args),
        ) {
            Ok(Some(row)) => row,
            Ok(None) => { return Ok(None); },
            Err(m) => { return Err(StoreError::Backend(m)); },
        };
        let it = match decode_item(&row) {
            Ok(it) => it,
            Err(e) => { return Err(e); },
        };
        if !(it.id == id) {
            return Err(StoreError::MalformedRow);
        }
        Ok(Some(it))
    }

    /// Replaces the item's name.
    pub fn edit_name(conn: &rusqlite::Connection, id: String, new_name: String) -> (r: Result<
        (),
        StoreError,
    >)
        ensures
            r matches Err(e) ==> e is Backend,
    {
        let args = vec![SqlValue::Text(new_name), SqlValue::Text(id)];
        match exec(conn, "UPDATE items SET name = ?1 WHERE id = ?2", raw_params(&args)) {
            Ok(_) => Ok(()),
            Err(m) => Err(StoreError::Backend(m)),
        }
    }

    /// Replaces the item's price.
    pub fn edit_price(conn: &rusqlite::Connection, id: String, new_price: i64) -> (r: Result<
        (),
        StoreError,
    >)
        requires
            new_price >= 0,
        ensures
            r matches Err(e) ==> e is Backend,
    {
        let args = vec![SqlValue::Int(new_price), SqlValue::Text(id)];
        match exec(conn, "UPDATE items SET price = ?1 WHERE id = ?2", raw_params(&args)) {
            Ok(_) => Ok(()),
            Err(m) => Err(StoreError::Backend(m)),
        }
    }

    /// Replaces the item's note: present with a value, or explicitly absent,
    /// which is stored as null.
    pub fn edit_note(conn: &rusqlite::Connection, id: String, notes: Option<String>) -> (r: Result<
        (),
        StoreError,
    >)
        ensures
            r matches Err(e) ==> e is Backend,
    {
        let note_value = match notes {
            Some(s) => SqlValue::Text(s),
            None => SqlValue::Null,
        };
        let args = vec![note_value, SqlValue::Text(id)];
        match exec(conn, "UPDATE items SET notes = ?1 WHERE id = ?2", raw_params(&args)) {
            Ok(_) => Ok(()),
            Err(m) => Err(StoreError::Backend(m)),
        }
    }

    /// Removes the item row, if it is there.
    pub fn delete_one(conn: &rusqlite::Connection, id: String) -> (r: Result<(), StoreError>)
        ensures
            r matches Err(e) ==> e is Backend,
    {
        let args = vec![SqlValue::Text(id)];
        match exec(conn, "DELETE FROM items WHERE id = ?1", raw_params(&args)) {
            Ok(_) => Ok(()),
            Err(m) => Err(StoreError::Backend(m)),
        }
    }
}

} // verus!
