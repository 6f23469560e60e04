//! The five tables of the store.

use vstd::prelude::*;

use crate::db::exec;
use crate::StoreError;

verus! {

/// Creates the five tables if they are not there yet.
///
/// Identifiers are opaque text, monetary amounts and quantities integers.
/// The `users.account_id` column is vestigial: it is kept for on-disk
/// compatibility, left null, and never read — the authoritative
/// user-to-account edge is `accounts.user_id`. Every failure is the store's
/// own error, surfaced.
pub fn init_schema(conn: &rusqlite::Connection) -> (r: Result<(), StoreError>)
    ensures
        r matches Err(e) ==> e is Backend,
{
    let stmts = [
        "CREATE TABLE IF NOT EXISTS users (
            id TEXT PRIMARY KEY,
            username TEXT NOT NULL,
            password TEXT NOT NULL,
            account_id TEXT
        )",
        "CREATE TABLE IF NOT EXISTS products (
            id TEXT PRIMARY KEY,
            name TEXT NOT NULL,
            price INTEGER NOT NULL
        )",
        "CREATE TABLE IF NOT EXISTS accounts (
            id TEXT PRIMARY KEY,
            user_id TEXT NOT NULL,
            FOREIGN KEY (user_id) REFERENCES users(id)
        )",
        "CREATE TABLE IF NOT EXISTS payments (
            id TEXT PRIMARY KEY,
            amount INTEGER NOT NULL,
            account_id TEXT NOT NULL,
            FOREIGN KEY (account_id) REFERENCES accounts(id)
        )",
        "CREATE TABLE IF NOT EXISTS items (
            id TEXT PRIMARY KEY,
            name TEXT NOT NULL,
            quantity INTEGER NOT NULL,
            product_id TEXT NOT NULL,
            price INTEGER NOT NULL,
            notes TEXT,
            account_id TEXT NOT NULL,
            FOREIGN KEY (product_id) REFERENCES products(id),
            FOREIGN KEY (account_id) REFERENCES accounts(id)
        )",
    ];
    let mut k: usize = 0;
    while k < 5
        invariant
            k <= 5,
        decreases 5 - k,
    {
        match exec(conn, stmts[k], Vec::new()) {
            Ok(_) => (),
            Err(m) => { return Err(StoreError::Backend(m)); },
        }
        k = k + 1;
    }
    Ok(())
}

} // verus!
