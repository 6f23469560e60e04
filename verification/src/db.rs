//! The trusted edge to the embedded relational store.
//!
//! Everything the library asks of the store goes through the wrappers
//! `exec`, `query_one` and `query_all`, with `raw_value` and `plain_value`
//! converting single column values at the boundary. Nothing is promised of
//! what a statement does to the stored data, so every fetched row is
//! validated and decoded by verified code before the logic reads it.

use vstd::prelude::*;

use crate::values::SqlValue;
use crate::StoreError;

verus! {

#[verifier::external_type_specification]
#[verifier::external_body]
pub struct ExConnection(rusqlite::Connection);

#[verifier::external_type_specification]
#[verifier::external_body]
pub struct ExValue(rusqlite::types::Value);

/// Relies on the `rusqlite::types::Value` constructors: turns one plain
/// column value into the store's dynamic value, variant for variant.
#[verifier::external_body]
fn raw_value(v: &SqlValue) -> rusqlite::types::Value {
    match v {
        SqlValue::Null => rusqlite::types::Value::Null,
        SqlValue::Int(i) => rusqlite::types::Value::Integer(*i),
        SqlValue::Text(s) => rusqlite::types::Value::Text(s.clone()),
        SqlValue::Other => rusqlite::types::Value::Null,
    }
}

/// Relies on matching `rusqlite::types::Value`: brings one dynamic column
/// value back as a plain value, variant for variant. Reals and blobs, which
/// the schema never writes, come back as `Other`.
#[verifier::external_body]
fn plain_value(v: rusqlite::types::Value) -> SqlValue {
    match v {
        rusqlite::types::Value::Null => SqlValue::Null,
        rusqlite::types::Value::Integer(i) => SqlValue::Int(i),
        rusqlite::types::Value::Text(s) => SqlValue::Text(s),
        _ => SqlValue::Other,
    }
}

/// Turns a parameter list into the store's dynamic values, one for one.
pub(crate) fn raw_params(args: &Vec<SqlValue>) -> (r: Vec<rusqlite::types::Value>) {
    let mut out: Vec<rusqlite::types::Value> = Vec::new();
    let n = args.len();
    let mut k: usize = 0;
    while k < n
        invariant
            k <= n,
            n == args@.len(),
        decreases n - k,
    {
        out.push(raw_value(&args[k]));
        k = k + 1;
    }
    out
}

/// Relies on `rusqlite::Connection::execute`: runs one SQL statement with the
/// given parameters and reports the number of rows it changed, or the store's
/// error as its message.
#[verifier::external_body]
pub(crate) fn exec(
    conn: &rusqlite::Connection,
    sql: &str,
    args: Vec<rusqlite::types::Value>,
) -> (r: Result<usize, String>) {
    conn.execute(sql, rusqlite::params_from_iter(args)).map_err(|e| e.to_string())
}

/// Relies on `rusqlite::Connection::prepare`, `Statement::query`,
/// `Rows::next` and `Row::get`: runs one SELECT and hands back the first
/// matching row's columns, `None` when no row matches, or the store's error
/// as its message.
#[verifier::external_body]
pub(crate) fn query_one(
    conn: &rusqlite::Connection,
    sql: &str,
    args: Vec<rusqlite::types::Value>,
) -> (r: Result<Option<Vec<SqlValue>>, String>) {
    let go = || -> rusqlite::Result<Option<Vec<SqlValue>>> {
        let mut stmt = conn.prepare(sql)?;
        let n = stmt.column_count();
        let mut rows = stmt.query(rusqlite::params_from_iter(args))?;
        match rows.next()? {
            Some(row) => Ok(Some((0..n).map(|i| row.get(i).map(plain_value)).collect::<rusqlite::Result<Vec<_>>>()?)),
            None => Ok(None),
        }
    };
    go().map_err(|e| e.to_string())
}

/// Relies on `rusqlite::Connection::prepare`, `Statement::query`,
/// `Rows::next` and `Row::get`: runs one SELECT and hands back every matching
/// row's columns, in the order the store returns them, or the store's error
/// as its message.
#[verifier::external_body]
pub(crate) fn query_all(
    conn: &rusqlite::Connection,
    sql: &str,
    args: Vec<rusqlite::types::Value>,
) -> (r: Result<Vec<Vec<SqlValue>>, String>) {
    let go = || -> rusqlite::Result<Vec<Vec<SqlValue>>> {
        let mut stmt = conn.prepare(sql)?;
        let n = stmt.column_count();
        let mut rows = stmt.query(rusqlite::params_from_iter(args))?;
        let mut out = Vec::new();
        while let Some(row) = rows.next()? {
            out.push((0..n).map(|i| row.get(i).map(plain_value)).collect::<rusqlite::Result<Vec<_>>>()?);
        }
        Ok(out)
    };
    go().map_err(|e| e.to_string())
}

/// Draws a fresh identifier from the store: 16 random bytes, hex-encoded by
/// the store itself. Nothing is assumed of the draw beyond what the decoded
/// row shows; a returned id is checked non-empty.
pub fn fresh_id(conn: &rusqlite::Connection) -> (r: Result<String, StoreError>)
    ensures
        r matches Ok(id) ==> id@.len() > 0,
        r matches Err(e) ==> e is Backend || e is MalformedRow,
{
    let row = match query_one(conn, "SELECT lower(hex(randomblob(16)))", Vec::new()) {
        Ok(Some(row)) => row,
        Ok(None) => { return Err(StoreError::MalformedRow); },
        Err(m) => { return Err(StoreError::Backend(m)); },
    };
    if row.len() != 1 {
        return Err(StoreError::MalformedRow);
    }
    let id = match &row[0] {
        SqlValue::Text(s) => s.clone(),
        _ => { return Err(StoreError::MalformedRow); },
    };
    if id.as_str().is_empty() {
        return Err(StoreError::MalformedRow);
    }
    Ok(id)
}

} // verus!
