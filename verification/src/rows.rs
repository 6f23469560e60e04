//! Decoding fetched rows into entities.
//!
//! Each table has a fixed column list; a fetched row is a `Vec<SqlValue>` in
//! that order. The decoders below are total: a row of the right shape decodes
//! to exactly the entity whose fields the row carries, and every other row is
//! rejected as [`StoreError::MalformedRow`]. The shape predicates also fold
//! in the schema's invariants: prices and amounts are non-negative and an
//! item has at least one unit.

use vstd::prelude::*;

use crate::item::Item;
use crate::payment::Payment;
use crate::product::Product;
use crate::user::User;
use crate::values::SqlValue;
use crate::StoreError;

verus! {

/// Shape of a `users` row: `id, username, password, account_id`, with a
/// non-empty username and password. The last column is vestigial and may
/// hold anything.
pub open spec fn user_row_ok(row: Seq<SqlValue>) -> bool {
    &&& row.len() == 4
    &&& row[0] is Text
    &&& row[1] is Text
    &&& row[1].text().len() > 0
    &&& row[2] is Text
    &&& row[2].text().len() > 0
}

/// The decoded user carries exactly the row's fields.
pub open spec fn user_matches_row(u: User, row: Seq<SqlValue>) -> bool {
    &&& u.id@ == row[0].text()
    &&& u.username@ == row[1].text()
    &&& u.password@ == row[2].text()
}

/// Shape of a `products` row: `id, name, price` with a non-negative price.
pub open spec fn product_row_ok(row: Seq<SqlValue>) -> bool {
    &&& row.len() == 3
    &&& row[0] is Text
    &&& row[1] is Text
    &&& row[2] is Int
    &&& row[2].int_value() >= 0
}

/// The decoded product carries exactly the row's fields.
pub open spec fn product_matches_row(p: Product, row: Seq<SqlValue>) -> bool {
    &&& p.id@ == row[0].text()
    &&& p.name@ == row[1].text()
    &&& p.price == row[2].int_value()
}

/// Shape of an `accounts` row: `id, user_id`.
pub open spec fn account_row_ok(row: Seq<SqlValue>) -> bool {
    &&& row.len() == 2
    &&& row[0] is Text
    &&& row[1] is Text
}

/// Shape of a `payments` row: `id, amount, account_id` with a non-negative
/// amount.
pub open spec fn payment_row_ok(row: Seq<SqlValue>) -> bool {
    &&& row.len() == 3
    &&& row[0] is Text
    &&& row[1] is Int
    &&& row[1].int_value() >= 0
    &&& row[2] is Text
}

/// The decoded payment carries exactly the row's fields.
pub open spec fn payment_matches_row(p: Payment, row: Seq<SqlValue>) -> bool {
    &&& p.id@ == row[0].text()
    &&& p.amount == row[1].int_value()
    &&& p.account_id@ == row[2].text()
}

/// Shape of an `items` row:
/// `id, name, quantity, product_id, price, notes, account_id`,
/// with at least one unit, a non-negative price and an optional note.
pub open spec fn item_row_ok(row: Seq<SqlValue>) -> bool {
    &&& row.len() == 7
    &&& row[0] is Text
    &&& row[1] is Text
    &&& row[2] is Int
    &&& row[2].int_value() >= 1
    &&& row[3] is Text
    &&& row[4] is Int
    &&& row[4].int_value() >= 0
    &&& (row[5] is Null || row[5] is Text)
    &&& row[6] is Text
}

/// The decoded item carries exactly the row's fields; an absent note comes
/// from a null column.
pub open spec fn item_matches_row(it: Item, row: Seq<SqlValue>) -> bool {
    &&& it.id@ == row[0].text()
    &&& it.name@ == row[1].text()
    &&& it.quantity == row[2].int_value()
    &&& it.product_id@ == row[3].text()
    &&& it.price == row[4].int_value()
    &&& (match it.notes {
        Option::Some(s) => row[5] is Text && s@ == row[5].text(),
        Option::None => row[5] is Null,
    })
    &&& it.account_id@ == row[6].text()
}

/// Decodes a `users` row.
pub fn decode_user(row: &Vec<SqlValue>) -> (r: Result<User, StoreError>)
    ensures
        r is Ok <==> user_row_ok(row@),
        r matches Ok(u) ==> user_matches_row(u, row@),
        r matches Err(e) ==> e == StoreError::MalformedRow,
{
    if row.len() != 4 {
        return Err(StoreError::MalformedRow);
    }
    let id = match &row[0] {
        SqlValue::Text(s) => s.clone(),
        _ => { return Err(StoreError::MalformedRow); },
    };
    let username = match &row[1] {
        SqlValue::Text(s) => s.clone(),
        _ => { return Err(StoreError::MalformedRow); },
    };
    let password = match &row[2] {
        SqlValue::Text(s) => s.clone(),
        _ => { return Err(StoreError::MalformedRow); },
    };
    if username.as_str().is_empty() || password.as_str().is_empty() {
        return Err(StoreError::MalformedRow);
    }
    Ok(User { id, username, password })
}

/// Decodes a `products` row.
pub fn decode_product(row: &Vec<SqlValue>) -> (r: Result<Product, StoreError>)
    ensures
        r is Ok <==> product_row_ok(row@),
        r matches Ok(p) ==> p.wf() && product_matches_row(p, row@),
        r matches Err(e) ==> e == StoreError::MalformedRow,
{
    if row.len() != 3 {
        return Err(StoreError::MalformedRow);
    }
    let id = match &row[0] {
        SqlValue::Text(s) => s.clone(),
        _ => { return Err(StoreError::MalformedRow); },
    };
    let name = match &row[1] {
        SqlValue::Text(s) => s.clone(),
        _ => { return Err(StoreError::MalformedRow); },
    };
    let price = match &row[2] {
        SqlValue::Int(i) => *i,
        _ => { return Err(StoreError::MalformedRow); },
    };
    if price < 0 {
        return Err(StoreError::MalformedRow);
    }
    Ok(Product { id, name, price })
}

/// Decodes an `accounts` row into the pair of account id and owning user id.
pub fn decode_account_row(row: &Vec<SqlValue>) -> (r: Result<(String, String), StoreError>)
    ensures
        r is Ok <==> account_row_ok(row@),
        r matches Ok(p) ==> p.0@ == row@[0].text() && p.1@ == row@[1].text(),
        r matches Err(e) ==> e == StoreError::MalformedRow,
{
    if row.len() != 2 {
        return Err(StoreError::MalformedRow);
    }
    let id = match &row[0] {
        SqlValue::Text(s) => s.clone(),
        _ => { return Err(StoreError::MalformedRow); },
    };
    let user_id = match &row[1] {
        SqlValue::Text(s) => s.clone(),
        _ => { return Err(StoreError::MalformedRow); },
    };
    Ok((id, user_id))
}

/// Decodes a `payments` row.
pub fn decode_payment(row: &Vec<SqlValue>) -> (r: Result<Payment, StoreError>)
    ensures
        r is Ok <==> payment_row_ok(row@),
        r matches Ok(p) ==> p.wf() && payment_matches_row(p, row@),
        r matches Err(e) ==> e == StoreError::MalformedRow,
{
    if row.len() != 3 {
        return Err(StoreError::MalformedRow);
    }
    let id = match &row[0] {
        SqlValue::Text(s) => s.clone(),
        _ => { return Err(StoreError::MalformedRow); },
    };
    let amount = match &row[1] {
        SqlValue::Int(i) => *i,
        _ => { return Err(StoreError::MalformedRow); },
    };
    if amount < 0 {
        return Err(StoreError::MalformedRow);
    }
    let account_id = match &row[2] {
        SqlValue::Text(s) => s.clone(),
        _ => { return Err(StoreError::MalformedRow); },
    };
    Ok(Payment { id, amount, account_id })
}

/// Decodes an `items` row.
pub fn decode_item(row: &Vec<SqlValue>) -> (r: Result<Item, StoreError>)
    ensures
        r is Ok <==> item_row_ok(row@),
        r matches Ok(it) ==> it.wf() && item_matches_row(it, row@),
        r matches Err(e) ==> e == StoreError::MalformedRow,
{
    if row.len() != 7 {
        return Err(StoreError::MalformedRow);
    }
    let id = match &row[0] {
        SqlValue::Text(s) => s.clone(),
        _ => { return Err(StoreError::MalformedRow); },
    };
    let name = match &row[1] {
        SqlValue::Text(s) => s.clone(),
        _ => { return Err(StoreError::MalformedRow); },
    };
    let quantity = match &row[2] {
        SqlValue::Int(i) => *i,
        _ => { return Err(StoreError::MalformedRow); },
    };
    if quantity < 1 {
        return Err(StoreError::MalformedRow);
    }
    let product_id = match &row[3] {
        SqlValue::Text(s) => s.clone(),
        _ => { return Err(StoreError::MalformedRow); },
    };
    let price = match &row[4] {
        SqlValue::Int(i) => *i,
        _ => { return Err(StoreError::MalformedRow); },
    };
    if price < 0 {
        return Err(StoreError::MalformedRow);
    }
    let notes = match &row[5] {
        SqlValue::Null => None,
        SqlValue::Text(s) => Some(s.clone()),
        _ => { return Err(StoreError::MalformedRow); },
    };
    let account_id = match &row[6] {
        SqlValue::Text(s) => s.clone(),
        _ => { return Err(StoreError::MalformedRow); },
    };
    Ok(Item { id, name, quantity, product_id, price, notes, account_id })
}

/// The paid amount an account's payment rows carry: the sum of the amount
/// columns.
pub open spec fn rows_paid_amount(rows: Seq<Vec<SqlValue>>) -> int
    decreases rows.len(),
{
    if rows.len() == 0 {
        0
    } else {
        rows_paid_amount(rows.drop_last()) + rows.last()@[1].int_value()
    }
}

/// The account total an account's item rows carry: the sum of
/// price × quantity over the price and quantity columns.
pub open spec fn rows_items_total(rows: Seq<Vec<SqlValue>>) -> int
    decreases rows.len(),
{
    if rows.len() == 0 {
        0
    } else {
        rows_items_total(rows.drop_last()) + rows.last()@[4].int_value() * rows.last()@[2].int_value()
    }
}

/// Payments decoded row by row sum to the paid amount the rows carry.
pub proof fn lemma_rows_paid_amount(ps: Seq<Payment>, rows: Seq<Vec<SqlValue>>)
    requires
        ps.len() == rows.len(),
        forall|k: int| 0 <= k < rows.len() ==> payment_matches_row(#[trigger] ps[k], rows[k]@),
    ensures
        crate::totals::sum_amounts(ps) == rows_paid_amount(rows),
    decreases ps.len(),
{
    if ps.len() > 0 {
        assert forall|k: int| 0 <= k < rows.len() - 1 implies payment_matches_row(
            #[trigger] ps.drop_last()[k],
            rows.drop_last()[k]@,
        ) by {
            assert(ps.drop_last()[k] == ps[k]);
            assert(rows.drop_last()[k] == rows[k]);
        }
        lemma_rows_paid_amount(ps.drop_last(), rows.drop_last());
        assert(payment_matches_row(ps[ps.len() - 1], rows[ps.len() - 1]@));
    }
}

/// Items decoded row by row sum to the account total the rows carry.
pub proof fn lemma_rows_items_total(its: Seq<Item>, rows: Seq<Vec<SqlValue>>)
    requires
        its.len() == rows.len(),
        forall|k: int| 0 <= k < rows.len() ==> item_matches_row(#[trigger] its[k], rows[k]@),
    ensures
        crate::totals::items_total(its) == rows_items_total(rows),
    decreases its.len(),
{
    if its.len() > 0 {
        assert forall|k: int| 0 <= k < rows.len() - 1 implies item_matches_row(
            #[trigger] its.drop_last()[k],
            rows.drop_last()[k]@,
        ) by {
            assert(its.drop_last()[k] == its[k]);
            assert(rows.drop_last()[k] == rows[k]);
        }
        lemma_rows_items_total(its.drop_last(), rows.drop_last());
        assert(item_matches_row(its[its.len() - 1], rows[its.len() - 1]@));
    }
}

/// Decodes the item rows of one account, checking that every row indeed
/// belongs to that account.
///
/// Succeeds exactly when every row is a well-shaped item row whose account
/// column names the given account.
pub fn decode_items(rows: &Vec<Vec<SqlValue>>, account_id: &String) -> (r: Result<
    Vec<Item>,
    StoreError,
>)
    ensures
        r matches Ok(its) ==> its@.len() == rows@.len() && (forall|k: int|
            0 <= k < rows@.len() ==> (#[trigger] its@[k]).wf() && item_matches_row(
                its@[k],
                rows@[k]@,
            ) && its@[k].account_id@ == account_id@),
        r is Ok <==> (forall|k: int|
            0 <= k < rows@.len() ==> item_row_ok((#[trigger] rows@[k])@) && rows@[k]@[6].text()
                == account_id@),
        r matches Err(e) ==> e == StoreError::MalformedRow,
{
    let mut its: Vec<Item> = Vec::new();
    let n = rows.len();
    let mut k: usize = 0;
    while k < n
        invariant
            0 <= k <= n,
            n == rows@.len(),
            its@.len() == k,
            forall|j: int|
                0 <= j < k ==> (#[trigger] its@[j]).wf() && item_matches_row(its@[j], rows@[j]@)
                    && its@[j].account_id@ == account_id@,
            forall|j: int|
                0 <= j < k ==> item_row_ok((#[trigger] rows@[j])@) && rows@[j]@[6].text()
                    == account_id@,
        decreases n - k,
    {
        let it = match decode_item(&rows[k]) {
            Ok(it) => it,
            Err(e) => { return Err(e); },
        };
        if !(it.account_id == *account_id) {
            return Err(StoreError::MalformedRow);
        }
        its.push(it);
        k = k + 1;
    }
    Ok(its)
}

/// Decodes the payment rows of one account, checking that every row indeed
/// belongs to that account.
///
/// Succeeds exactly when every row is a well-shaped payment row whose account
/// column names the given account.
pub fn decode_payments(rows: &Vec<Vec<SqlValue>>, account_id: &String) -> (r: Result<
    Vec<Payment>,
    StoreError,
>)
    ensures
        r matches Ok(ps) ==> ps@.len() == rows@.len() && (forall|k: int|
            0 <= k < rows@.len() ==> (#[trigger] ps@[k]).wf() && payment_matches_row(
                ps@[k],
                rows@[k]@,
            ) && ps@[k].account_id@ == account_id@),
        r is Ok <==> (forall|k: int|
            0 <= k < rows@.len() ==> payment_row_ok((#[trigger] rows@[k])@) && rows@[k]@[2].text()
                == account_id@),
        r matches Err(e) ==> e == StoreError::MalformedRow,
{
    let mut ps: Vec<Payment> = Vec::new();
    let n = rows.len();
    let mut k: usize = 0;
    while k < n
        invariant
            0 <= k <= n,
            n == rows@.len(),
            ps@.len() == k,
            forall|j: int|
                0 <= j < k ==> (#[trigger] ps@[j]).wf() && payment_matches_row(ps@[j], rows@[j]@)
                    && ps@[j].account_id@ == account_id@,
            forall|j: int|
                0 <= j < k ==> payment_row_ok((#[trigger] rows@[j])@) && rows@[j]@[2].text()
                    == account_id@,
        decreases n - k,
    {
        let p = match decode_payment(&rows[k]) {
            Ok(p) => p,
            Err(e) => { return Err(e); },
        };
        if !(p.account_id == *account_id) {
            return Err(StoreError::MalformedRow);
        }
        ps.push(p);
        k = k + 1;
    }
    Ok(ps)
}

} // verus!
