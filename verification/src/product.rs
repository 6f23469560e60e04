//! Products: the catalogue entries items refer to.

use vstd::prelude::*;

use crate::db::exec;
use crate::db::fresh_id;
use crate::db::query_one;
use crate::db::raw_params;
use crate::rows::decode_product;
use crate::values::SqlValue;
use crate::StoreError;

verus! {

/// A catalogued product with its current list price.
#[derive(Debug, Clone)]
pub struct Product {
    pub id: String,
    pub name: String,
    pub price: i64,
}

impl Product {
    /// A stored product carries a non-negative price.
    pub open spec fn wf(self) -> bool {
        self.price >= 0
    }

    /// Creates a product under a fresh id and returns the id.
    pub fn create_one(conn: &rusqlite::Connection, name: &str, price: i64) -> (r: Result<
        String,
        StoreError,
    >)
        requires
            price >= 0,
        ensures
            r matches Ok(id) ==> id@.len() > 0,
            r matches Err(e) ==> e is Backend || e is MalformedRow,
    {
        let id = fresh_id(conn)?;
        let args = vec![
            SqlValue::Text(id.clone()),
            SqlValue::Text(name.to_owned()),
            SqlValue::Int(price),
        ];
        match exec(
            conn,
            "INSERT INTO products (id, name, price) VALUES (?1, ?2, ?3)",
            raw_params(&args),
        ) {
            Ok(_) => Ok(id),
            Err(m) => Err(StoreError::Backend(m)),
        }
    }

    /// Finds a product by id. An absent id is `Ok(None)`, never an error; a
    /// present product is well formed and carries the asked-for id.
    pub fn find_one(conn: &rusqlite::Connection, id: String) -> (r: Result<
        Option<Product>,
        StoreError,
    >)
        ensures
            r matches Ok(Some(p)) ==> p.wf() && p.id@ == id@,
            r matches Err(e) ==> e is Backend || e is MalformedRow,
    {
        let args = vec![SqlValue::Text(id.clone())];
        let row = match query_one(
            conn,
            "SELECT id, name, price FROM products WHERE id = ?1",
            raw_params(&args),
        ) {
            Ok(Some(row)) => row,
            Ok(None) => { return Ok(None); },
            Err(m) => { return Err(StoreError::Backend(m)); },
        };
        let p = match decode_product(&row) {
            Ok(p) => p,
            Err(e) => { return Err(e); },
        };
        if !(p.id == id) {
            return Err(StoreError::MalformedRow);
        }
        Ok(Some(p))
    }

    /// Replaces the product's price.
    pub fn edit_price(conn: &rusqlite::Connection, id: String, new_price: i64) -> (r: Result<
        (),
        StoreError,
    >)
        requires
            new_price >= 0,
        ensures
            r matches Err(e) ==> e is Backend,
    {
        let args = vec![SqlValue::Int(new_price), SqlValue::Text(id)];
        match exec(conn, "UPDATE products SET price = ?1 WHERE id = ?2", raw_params(&args)) {
            Ok(_) => Ok(()),
            Err(m) => Err(StoreError::Backend(m)),
        }
    }

    /// Replaces the product's name.
    pub fn edit_name(conn: &rusqlite::Connection, id: String, new_name: &str) -> (r: Result<
        (),
        StoreError,
    >)
        ensures
            r matches Err(e) ==> e is Backend,
    {
        let args = vec![SqlValue::Text(new_name.to_owned()), SqlValue::Text(id)];
        match exec(conn, "UPDATE products SET name = ?1 WHERE id = ?2", raw_params(&args)) {
            Ok(_) => Ok(()),
            Err(m) => Err(StoreError::Backend(m)),
        }
    }

    /// Removes the product row, if it is there.
    pub fn delete_one(conn: &rusqlite::Connection, id: String) -> (r: Result<(), StoreError>)
        ensures
            r matches Err(e) ==> e is Backend,
    {
        let args = vec![SqlValue::Text(id)];
        match exec(conn, "DELETE FROM products WHERE id = ?1", raw_params(&args)) {
            Ok(_) => Ok(()),
            Err(m) => Err(StoreError::Backend(m)),
        }
    }
}

} // verus!
