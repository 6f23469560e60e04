use r2d2::Pool;
use r2d2::PooledConnection;
use r2d2_sqlite::SqliteConnectionManager;

use tab_store::schema::init_schema;
use tab_store::Account;
use tab_store::Item;
use tab_store::Payment;
use tab_store::Product;
use tab_store::StoreError;
use tab_store::User;

fn setup() -> PooledConnection<SqliteConnectionManager> {
    let manager = SqliteConnectionManager::memory();
    let pool = Pool::builder().max_size(1).build(manager).unwrap();
    let conn = pool.get().unwrap();
    init_schema(&conn).unwrap();
    conn
}

#[test]
fn test_user_crud() {
    let conn = setup();

    let username = "john";
    let password = "password";
    let test_id = User::create_one(&conn, username.to_string(), password.to_string())
        .unwrap()
        .clone();

    let found_user = User::find_one(&conn, test_id.clone()).unwrap();
    assert!(found_user.is_some());
    let user = found_user.unwrap();
    assert_eq!(user.username, username);
    assert_eq!(user.password, password);

    User::delete_one(&conn, test_id.clone()).unwrap();

    let users = User::find_one(&conn, test_id.clone()).unwrap();
    assert!(users.is_none());
}

#[test]
fn test_product_crud() {
    let conn = setup();

    let name = "Product A";
    let price = 10;
    let test_id = Product::create_one(&conn, name, price).unwrap().clone();

    let new_price = 15;
    Product::edit_price(&conn, test_id.clone(), new_price).unwrap();

    let found_product = Product::find_one(&conn, test_id.clone()).unwrap();
    assert!(found_product.is_some());
    let product = found_product.unwrap();
    assert_eq!(product.price, new_price);

    let new_name = "Product B";
    Product::edit_name(&conn, test_id.clone(), new_name).unwrap();

    let found_product = Product::find_one(&conn, test_id.clone()).unwrap();
    assert!(found_product.is_some());
    let product = found_product.unwrap();
    assert_eq!(product.name, new_name);

    Product::delete_one(&conn, test_id.clone()).unwrap();

    let products = Product::find_one(&conn, test_id.clone()).unwrap();
    assert!(products.is_none());
}

#[test]
fn test_payment_crud() {
    let conn = setup();

    let username = "john";
    let password = "password";
    let test_id = User::create_one(&conn, username.to_string(), password.to_string())
        .unwrap()
        .clone();

    let account_id: String = Account::create_account(&conn, test_id.clone()).unwrap();

    let amount = 100;
    Payment::create_one(&conn, amount, account_id.clone()).unwrap();

    let mut stmt = conn
        .prepare("SELECT * FROM payments WHERE account_id = ?1")
        .unwrap();
    let payment_iter = stmt
        .query_map((account_id.as_str(),), |row| {
            Ok(Payment {
                id: row.get(0)?,
                amount: row.get(1)?,
                account_id: row.get(2)?,
            })
        })
        .unwrap();

    let mut payments = Vec::new();
    for payment_result in payment_iter {
        let payment = payment_result.unwrap();
        payments.push(payment);
    }

    assert_eq!(payments.len(), 1);
    let payment = payments.pop().unwrap();
    assert_eq!(payment.amount, amount);

    let new_amount = 200;
    Payment::update_amount(&conn, payment.id.clone(), new_amount).unwrap();

    let payment = Payment::find_one(&conn, payment.id.clone()).unwrap();
    assert!(payment.is_some());
    let payment = payment.unwrap();
    assert_eq!(payment.amount, new_amount);

    Payment::delete_one(&conn, payment.id.clone()).unwrap();

    let payment = Payment::find_one(&conn, payment.id.clone()).unwrap();
    assert!(payment.is_none());

    Account::delete_one(&conn, account_id.clone()).unwrap();

    User::delete_one(&conn, test_id.clone()).unwrap();

    let users = User::find_one(&conn, test_id.clone()).unwrap();
    assert!(users.is_none());
}

#[test]
fn test_item_crud() {
    let conn = setup();

    let username = "john";
    let password = "password";
    let user_id = User::create_one(&conn, username.to_string(), password.to_string())
        .unwrap()
        .clone();

    let account_id: String = Account::create_account(&conn, user_id.clone()).unwrap();

    let name = "Product A";
    let price = 10;
    let product_id = Product::create_one(&conn, name, price).unwrap().clone();

    let name = "Item A".to_string();
    let quantity = 2;
    let price = 20;
    let item_id: String = Item::create_item(
        &conn,
        name.clone(),
        quantity,
        price,
        account_id.clone(),
        product_id.clone(),
    )
    .unwrap();

    let item = Item::find_item(&conn, item_id.clone()).unwrap();
    let item = item.unwrap();
    assert_eq!(item.name, name);
    assert_eq!(item.quantity, quantity);
    assert_eq!(item.price, price);

    let notes = Some("Some notes".to_string());
    Item::edit_note(&conn, item_id.clone(), notes.clone()).unwrap();

    let item = Item::find_item(&conn, item_id.clone()).unwrap();
    assert!(item.is_some());
    let item = item.unwrap();
    assert_eq!(item.notes, notes);

    let new_price = 25;
    Item::edit_price(&conn, item_id.clone(), new_price).unwrap();

    let item = Item::find_item(&conn, item_id.clone()).unwrap();
    assert!(item.is_some());
    let item = item.unwrap();
    assert_eq!(item.price, new_price);

    let new_name = "New Item".to_string();
    Item::edit_name(&conn, item.id.clone(), new_name.clone()).unwrap();

    let item = Item::find_item(&conn, item_id.clone()).unwrap();
    assert!(item.is_some());
    let item = item.unwrap();
    assert_eq!(item.name, new_name);

    Item::delete_one(&conn, item.id.clone()).unwrap();

    let item = Item::find_item(&conn, item.id.clone()).unwrap();
    assert!(item.is_none());

    Account::delete_one(&conn, account_id.clone()).unwrap();
    Product::delete_one(&conn, product_id.clone()).unwrap();
}

#[test]
fn test_account_crud() {
    let conn = setup();

    let username = "john";
    let password = "password";
    let user_id = User::create_one(&conn, username.to_string(), password.to_string())
        .unwrap()
        .clone();

    let name = "Product A";
    let price = 10;
    let product_id = Product::create_one(&conn, name, price).unwrap().clone();

    let account_id = Account::create_account(&conn, user_id.clone()).unwrap();

    let account = Account::find_one(&conn, account_id.clone()).unwrap();
    assert!(account.is_some());
    let account = account.unwrap();
    assert_eq!(account.id, account_id);
    assert_eq!(account.user_id, user_id);
    assert_eq!(account.paid_amount, 0);
    assert_eq!(account.account_total, 0);

    let name = "Item A".to_string();
    let quantity = 2;
    let price = 20;
    let item_id: String = Item::create_item(
        &conn,
        name.clone(),
        quantity,
        price,
        account_id.clone(),
        product_id.clone(),
    )
    .unwrap();

    let amount = 100;
    Payment::create_one(&conn, amount, account_id.clone()).unwrap();

    let account = Account::find_one(&conn, account_id.clone()).unwrap();
    assert!(account.is_some());
    let account = account.unwrap();
    assert_eq!(account.items.unwrap().len(), 1);
    assert_eq!(account.payments.unwrap().len(), 1);
    assert_eq!(account.paid_amount, 100);
    assert_eq!(account.account_total, 40);

    Account::delete_one(&conn, account_id.clone()).unwrap();

    let account = Account::find_one(&conn, account_id.clone()).unwrap();
    assert!(account.is_none());

    let item = Item::find_item(&conn, item_id.clone()).unwrap();
    assert!(item.is_none());

    User::delete_one(&conn, user_id.clone()).unwrap();
}

#[test]
fn cascade_removes_payments_and_spares_users() {
    let conn = setup();

    let user_id = User::create_one(&conn, "ada".to_string(), "pw".to_string()).unwrap();
    let account_id = Account::create_account(&conn, user_id.clone()).unwrap();
    let payment_id = Payment::create_one(&conn, 75, account_id.clone()).unwrap();

    Account::delete_one(&conn, account_id.clone()).unwrap();

    assert!(Account::find_one(&conn, account_id).unwrap().is_none());
    assert!(Payment::find_one(&conn, payment_id).unwrap().is_none());
    let user = User::find_one(&conn, user_id).unwrap().unwrap();
    assert_eq!(user.username, "ada");
}

#[test]
fn find_item_rejects_malformed_stored_row() {
    let conn = setup();

    let user_id = User::create_one(&conn, "ada".to_string(), "pw".to_string()).unwrap();
    let account_id = Account::create_account(&conn, user_id.clone()).unwrap();
    let product_id = Product::create_one(&conn, "Widget", 5).unwrap();

    conn.execute(
        "INSERT INTO items (id, name, quantity, product_id, price, notes, account_id)
         VALUES (?1, ?2, ?3, ?4, ?5, NULL, ?6)",
        (
            "bad-item",
            "Broken",
            "many",
            product_id.as_str(),
            5,
            account_id.as_str(),
        ),
    )
    .unwrap();

    let err = Item::find_item(&conn, "bad-item".to_string()).unwrap_err();
    assert_eq!(err, StoreError::MalformedRow);
}

#[test]
fn account_find_overflows_on_huge_items() {
    let conn = setup();

    let user_id = User::create_one(&conn, "ada".to_string(), "pw".to_string()).unwrap();
    let account_id = Account::create_account(&conn, user_id.clone()).unwrap();
    let product_id = Product::create_one(&conn, "Widget", 5).unwrap();

    Item::create_item(
        &conn,
        "Huge".to_string(),
        2,
        i64::MAX,
        account_id.clone(),
        product_id.clone(),
    )
    .unwrap();

    let err = Account::find_one(&conn, account_id).unwrap_err();
    assert_eq!(err, StoreError::Overflow);
}

#[test]
fn finds_on_absent_ids_are_none_not_errors() {
    let conn = setup();

    assert!(User::find_one(&conn, "nobody".to_string()).unwrap().is_none());
    assert!(Product::find_one(&conn, "nothing".to_string()).unwrap().is_none());
    assert!(Account::find_one(&conn, "no-account".to_string()).unwrap().is_none());
    assert!(Item::find_item(&conn, "no-item".to_string()).unwrap().is_none());
    assert!(Payment::find_one(&conn, "no-payment".to_string()).unwrap().is_none());
}
