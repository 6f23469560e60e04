use tab_store::account::aggregate;
use tab_store::rows::decode_item;
use tab_store::rows::decode_payment;
use tab_store::rows::decode_product;
use tab_store::rows::decode_user;
use tab_store::values::SqlValue;
use tab_store::StoreError;

fn text(s: &str) -> SqlValue {
    SqlValue::Text(s.to_string())
}

fn item_row(id: &str, quantity: i64, price: i64, account: &str) -> Vec<SqlValue> {
    vec![
        text(id),
        text("Item A"),
        SqlValue::Int(quantity),
        text("prod-1"),
        SqlValue::Int(price),
        SqlValue::Null,
        text(account),
    ]
}

fn payment_row(id: &str, amount: i64, account: &str) -> Vec<SqlValue> {
    vec![text(id), SqlValue::Int(amount), text(account)]
}

#[test]
fn decode_user_row_carries_all_fields() {
    let row = vec![text("u-1"), text("john"), text("password"), SqlValue::Null];
    let u = decode_user(&row).unwrap();
    assert_eq!(u.id, "u-1");
    assert_eq!(u.username, "john");
    assert_eq!(u.password, "password");
}

#[test]
fn decode_user_rejects_short_row() {
    let row = vec![text("u-1"), text("john")];
    assert_eq!(decode_user(&row).unwrap_err(), StoreError::MalformedRow);
}

#[test]
fn decode_user_rejects_empty_username_or_password() {
    let row = vec![text("u-1"), text(""), text("password"), SqlValue::Null];
    assert_eq!(decode_user(&row).unwrap_err(), StoreError::MalformedRow);
    let row = vec![text("u-1"), text("john"), text(""), SqlValue::Null];
    assert_eq!(decode_user(&row).unwrap_err(), StoreError::MalformedRow);
}

#[test]
fn decode_product_rejects_negative_price() {
    let ok = vec![text("p-1"), text("Widget"), SqlValue::Int(10)];
    assert_eq!(decode_product(&ok).unwrap().price, 10);
    let bad = vec![text("p-1"), text("Widget"), SqlValue::Int(-1)];
    assert_eq!(decode_product(&bad).unwrap_err(), StoreError::MalformedRow);
}

#[test]
fn decode_payment_rejects_negative_amount() {
    let bad = payment_row("pay-1", -5, "a-1");
    assert_eq!(decode_payment(&bad).unwrap_err(), StoreError::MalformedRow);
    let ok = payment_row("pay-1", 5, "a-1");
    assert_eq!(decode_payment(&ok).unwrap().amount, 5);
}

#[test]
fn decode_item_notes_and_quantity() {
    let it = decode_item(&item_row("i-1", 2, 20, "a-1")).unwrap();
    assert_eq!(it.notes, None);
    assert_eq!(it.quantity, 2);
    assert_eq!(it.price, 20);

    let mut noted = item_row("i-1", 2, 20, "a-1");
    noted[5] = text("keep cold");
    let it = decode_item(&noted).unwrap();
    assert_eq!(it.notes, Some("keep cold".to_string()));

    let zero = item_row("i-1", 0, 20, "a-1");
    assert_eq!(decode_item(&zero).unwrap_err(), StoreError::MalformedRow);
}

#[test]
fn decode_item_rejects_real_valued_column() {
    let mut bad = item_row("i-1", 2, 20, "a-1");
    bad[4] = SqlValue::Other;
    assert_eq!(decode_item(&bad).unwrap_err(), StoreError::MalformedRow);
}

#[test]
fn aggregate_exact_totals() {
    let items = vec![item_row("i-1", 2, 20, "a-1")];
    let payments = vec![payment_row("pay-1", 100, "a-1")];
    let a = aggregate("a-1".to_string(), "u-1".to_string(), &items, &payments).unwrap();
    assert_eq!(a.paid_amount, 100);
    assert_eq!(a.account_total, 40);
    assert_eq!(a.items.unwrap().len(), 1);
    assert_eq!(a.payments.unwrap().len(), 1);
}

#[test]
fn aggregate_empty_account_has_zero_totals() {
    let a = aggregate("a-1".to_string(), "u-1".to_string(), &vec![], &vec![]).unwrap();
    assert_eq!(a.paid_amount, 0);
    assert_eq!(a.account_total, 0);
}

#[test]
fn aggregate_sums_several_rows() {
    let items = vec![
        item_row("i-1", 2, 20, "a-1"),
        item_row("i-2", 3, 7, "a-1"),
    ];
    let payments = vec![
        payment_row("pay-1", 100, "a-1"),
        payment_row("pay-2", 1, "a-1"),
    ];
    let a = aggregate("a-1".to_string(), "u-1".to_string(), &items, &payments).unwrap();
    assert_eq!(a.paid_amount, 101);
    assert_eq!(a.account_total, 61);
}

#[test]
fn aggregate_rejects_foreign_rows() {
    let items = vec![item_row("i-1", 2, 20, "other-account")];
    let err = aggregate("a-1".to_string(), "u-1".to_string(), &items, &vec![]).unwrap_err();
    assert_eq!(err, StoreError::MalformedRow);
}

#[test]
fn aggregate_overflow_on_items() {
    let items = vec![item_row("i-1", 2, i64::MAX, "a-1")];
    let err = aggregate("a-1".to_string(), "u-1".to_string(), &items, &vec![]).unwrap_err();
    assert_eq!(err, StoreError::Overflow);
}

#[test]
fn aggregate_overflow_on_payments() {
    let payments = vec![
        payment_row("pay-1", i64::MAX, "a-1"),
        payment_row("pay-2", 1, "a-1"),
    ];
    let err = aggregate("a-1".to_string(), "u-1".to_string(), &vec![], &payments).unwrap_err();
    assert_eq!(err, StoreError::Overflow);
}
