//! Users: owners of accounts.

use vstd::prelude::*;

use crate::db::exec;
use crate::db::fresh_id;
use crate::db::query_one;
use crate::db::raw_params;
use crate::rows::decode_user;
use crate::values::SqlValue;
use crate::StoreError;

verus! {

/// A user of the application. The store also keeps a vestigial `account_id`
/// column on the users table; it is never written by this layer and is not
/// part of the in-memory record — the authoritative user-to-account edge is
/// the account's `user_id`.
#[derive(Debug, Clone)]
pub struct User {
    pub id: String,
    pub username: String,
    pub password: String,
}

impl User {
    /// Creates a user under a fresh id and returns the id. Username and
    /// password must be non-empty. Every failure is the store's own error or
    /// a malformed draw of the fresh id.
    pub fn create_one(conn: &rusqlite::Connection, username: String, password: String) -> (r:
        Result<String, StoreError>)
        requires
            username@.len() > 0,
            password@.len() > 0,
        ensures
            r matches Ok(id) ==> id@.len() > 0,
            r matches Err(e) ==> e is Backend || e is MalformedRow,
    {
        let id = fresh_id(conn)?;
        let args = vec![
            SqlValue::Text(id.clone()),
            SqlValue::Text(username),
            SqlValue::Text(password),
        ];
        match exec(
            conn,
            "INSERT INTO users (id, username, password) VALUES (?1, ?2, ?3)",
            raw_params(&args),
        ) {
            Ok(_) => Ok(id),
            Err(m) => Err(StoreError::Backend(m)),
        }
    }

    /// Finds a user by id. An absent id is `Ok(None)`, never an error; a
    /// present user decodes from the stored row and carries the asked-for id.
    pub fn find_one(conn: &rusqlite::Connection, id: String) -> (r: Result<
        Option<User>,
        StoreError,
    >)
        ensures
            r matches Ok(Some(u)) ==> u.id@ == id@,
            r matches Err(e) ==> e is Backend || e is MalformedRow,
    {
        let args = vec![SqlValue::Text(id.clone())];
        let row = match query_one(
            conn,
            "SELECT id, username, password, account_id FROM users WHERE id = ?1",
            raw_params(&args),
        ) {
            Ok(Some(row)) => row,
            Ok(None) => { return Ok(None); },
            Err(m) => { return Err(StoreError::Backend(m)); },
        };
        let u = match decode_user(&row) {
            Ok(u) => u,
            Err(e) => { return Err(e); },
        };
        if !(u.id == id) {
            return Err(StoreError::MalformedRow);
        }
        Ok(Some(u))
    }

    /// Removes the user row, if it is there. Every failure is the store's
    /// own error, surfaced; the layer adds none.
    pub fn delete_one(conn: &rusqlite::Connection, id: String) -> (r: Result<(), StoreError>)
        ensures
            r matches Err(e) ==> e is Backend,
    {
        let args = vec![SqlValue::Text(id)];
        match exec(conn, "DELETE FROM users WHERE id = ?1", raw_params(&args)) {
            Ok(_) => Ok(()),
            Err(m) => Err(StoreError::Backend(m)),
        }
    }
}

} // verus!
