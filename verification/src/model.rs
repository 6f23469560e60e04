//! Reference semantics of the data layer.
//!
//! The store is modelled as five tables, each a map from identifier to
//! record; every operation of the layer has its meaning here as a function on
//! that model. The proof functions at the end state the laws the layer
//! promises of the store: a created row is found and a deleted row is not,
//! edits land in the row they name, and deleting an account removes exactly
//! the account's items and payments while touching no user or product.

use vstd::prelude::*;

verus! {

/// A stored user row.
pub struct UserRec {
    pub username: Seq<char>,
    pub password: Seq<char>,
}

/// A stored product row.
pub struct ProductRec {
    pub name: Seq<char>,
    pub price: int,
}

/// A stored item row.
pub struct ItemRec {
    pub name: Seq<char>,
    pub quantity: int,
    pub product_id: Seq<char>,
    pub price: int,
    pub notes: Option<Seq<char>>,
    pub account_id: Seq<char>,
}

/// A stored payment row.
pub struct PaymentRec {
    pub amount: int,
    pub account_id: Seq<char>,
}

/// The whole store: five tables keyed by identifier. An account row holds
/// only the owning user's id.
pub struct StoreModel {
    pub users: Map<Seq<char>, UserRec>,
    pub products: Map<Seq<char>, ProductRec>,
    pub accounts: Map<Seq<char>, Seq<char>>,
    pub items: Map<Seq<char>, ItemRec>,
    pub payments: Map<Seq<char>, PaymentRec>,
}

pub open spec fn create_user(
    m: StoreModel,
    id: Seq<char>,
    username: Seq<char>,
    password: Seq<char>,
) -> StoreModel {
    StoreModel { users: m.users.insert(id, UserRec { username, password }), ..m }
}

pub open spec fn find_user(m: StoreModel, id: Seq<char>) -> Option<UserRec> {
    if m.users.dom().contains(id) {
        Some(m.users[id])
    } else {
        None
    }
}

pub open spec fn delete_user(m: StoreModel, id: Seq<char>) -> StoreModel {
    StoreModel { users: m.users.remove(id), ..m }
}

pub open spec fn create_product(
    m: StoreModel,
    id: Seq<char>,
    name: Seq<char>,
    price: int,
) -> StoreModel {
    StoreModel { products: m.products.insert(id, ProductRec { name, price }), ..m }
}

pub open spec fn find_product(m: StoreModel, id: Seq<char>) -> Option<ProductRec> {
    if m.products.dom().contains(id) {
        Some(m.products[id])
    } else {
        None
    }
}

pub open spec fn edit_product_name(m: StoreModel, id: Seq<char>, name: Seq<char>) -> StoreModel {
    if m.products.dom().contains(id) {
        StoreModel {
            products: m.products.insert(id, ProductRec { name, ..m.products[id] }),
            ..m
        }
    } else {
        m
    }
}

pub open spec fn edit_product_price(m: StoreModel, id: Seq<char>, price: int) -> StoreModel {
    if m.products.dom().contains(id) {
        StoreModel {
            products: m.products.insert(id, ProductRec { price, ..m.products[id] }),
            ..m
        }
    } else {
        m
    }
}

pub open spec fn delete_product(m: StoreModel, id: Seq<char>) -> StoreModel {
    StoreModel { products: m.products.remove(id), ..m }
}

pub open spec fn create_account(m: StoreModel, id: Seq<char>, user_id: Seq<char>) -> StoreModel {
    StoreModel { accounts: m.accounts.insert(id, user_id), ..m }
}

pub open spec fn find_account(m: StoreModel, id: Seq<char>) -> Option<Seq<char>> {
    if m.accounts.dom().contains(id) {
        Some(m.accounts[id])
    } else {
        None
    }
}

pub open spec fn create_item(m: StoreModel, id: Seq<char>, rec: ItemRec) -> StoreModel {
    StoreModel { items: m.items.insert(id, rec), ..m }
}

pub open spec fn find_item(m: StoreModel, id: Seq<char>) -> Option<ItemRec> {
    if m.items.dom().contains(id) {
        Some(m.items[id])
    } else {
        None
    }
}

pub open spec fn edit_item_name(m: StoreModel, id: Seq<char>, name: Seq<char>) -> StoreModel {
    if m.items.dom().contains(id) {
        StoreModel { items: m.items.insert(id, ItemRec { name, ..m.items[id] }), ..m }
    } else {
        m
    }
}

pub open spec fn edit_item_price(m: StoreModel, id: Seq<char>, price: int) -> StoreModel {
    if m.items.dom().contains(id) {
        StoreModel { items: m.items.insert(id, ItemRec { price, ..m.items[id] }), ..m }
    } else {
        m
    }
}

pub open spec fn edit_item_note(m: StoreModel, id: Seq<char>, notes: Option<Seq<char>>) -> StoreModel {
    if m.items.dom().contains(id) {
        StoreModel { items: m.items.insert(id, ItemRec { notes, ..m.items[id] }), ..m }
    } else {
        m
    }
}

pub open spec fn delete_item(m: StoreModel, id: Seq<char>) -> StoreModel {
    StoreModel { items: m.items.remove(id), ..m }
}

pub open spec fn create_payment(m: StoreModel, id: Seq<char>, rec: PaymentRec) -> StoreModel {
    StoreModel { payments: m.payments.insert(id, rec), ..m }
}

pub open spec fn find_payment(m: StoreModel, id: Seq<char>) -> Option<PaymentRec> {
    if m.payments.dom().contains(id) {
        Some(m.payments[id])
    } else {
        None
    }
}

pub open spec fn update_payment_amount(m: StoreModel, id: Seq<char>, amount: int) -> StoreModel {
    if m.payments.dom().contains(id) {
        StoreModel {
            payments: m.payments.insert(id, PaymentRec { amount, ..m.payments[id] }),
            ..m
        }
    } else {
        m
    }
}

pub open spec fn delete_payment(m: StoreModel, id: Seq<char>) -> StoreModel {
    StoreModel { payments: m.payments.remove(id), ..m }
}

/// Deleting an account removes the account row and every item and payment
/// whose `account_id` names it; users and products are untouched.
pub open spec fn delete_account(m: StoreModel, id: Seq<char>) -> StoreModel {
    StoreModel {
        accounts: m.accounts.remove(id),
        items: m.items.restrict(
            Set::new(|k: Seq<char>| m.items.dom().contains(k) && m.items[k].account_id != id),
        ),
        payments: m.payments.restrict(
            Set::new(
                |k: Seq<char>| m.payments.dom().contains(k) && m.payments[k].account_id != id,
            ),
        ),
        ..m
    }
}

/// Law: a created user is found with exactly the fields it was created with,
/// and a deleted user is not found.
pub proof fn lemma_user_round_trip(
    m: StoreModel,
    id: Seq<char>,
    username: Seq<char>,
    password: Seq<char>,
)
    ensures
        find_user(create_user(m, id, username, password), id) == Some(
            UserRec { username, password },
        ),
        find_user(delete_user(m, id), id) == None::<UserRec>,
{
}

/// Law: a created product is found with exactly the fields it was created
/// with, and a deleted product is not found.
pub proof fn lemma_product_round_trip(m: StoreModel, id: Seq<char>, name: Seq<char>, price: int)
    ensures
        find_product(create_product(m, id, name, price), id) == Some(ProductRec { name, price }),
        find_product(delete_product(m, id), id) == None::<ProductRec>,
{
}

/// Law: a created account is found with exactly the owner it was created
/// with, and a deleted account is not found.
pub proof fn lemma_account_round_trip(m: StoreModel, id: Seq<char>, user_id: Seq<char>)
    ensures
        find_account(create_account(m, id, user_id), id) == Some(user_id),
        find_account(delete_account(m, id), id) == None::<Seq<char>>,
{
}

/// Law: a created item is found with exactly the record it was created with,
/// and a deleted item is not found.
pub proof fn lemma_item_round_trip(m: StoreModel, id: Seq<char>, rec: ItemRec)
    ensures
        find_item(create_item(m, id, rec), id) == Some(rec),
        find_item(delete_item(m, id), id) == None::<ItemRec>,
{
}

/// Law: a created payment is found with exactly the record it was created
/// with, and a deleted payment is not found.
pub proof fn lemma_payment_round_trip(m: StoreModel, id: Seq<char>, rec: PaymentRec)
    ensures
        find_payment(create_payment(m, id, rec), id) == Some(rec),
        find_payment(delete_payment(m, id), id) == None::<PaymentRec>,
{
}

/// Law: creating a product and then editing its name and its price leaves
/// exactly the edited pair to be found.
pub proof fn lemma_product_edits(
    m: StoreModel,
    id: Seq<char>,
    name1: Seq<char>,
    price1: int,
    name2: Seq<char>,
    price2: int,
)
    ensures
        find_product(
            edit_product_price(
                edit_product_name(create_product(m, id, name1, price1), id, name2),
                id,
                price2,
            ),
            id,
        ) == Some(ProductRec { name: name2, price: price2 }),
{
}

/// Law: creating an item and then editing its name, its price and its note
/// leaves exactly the edited record to be found; the untouched fields keep
/// the values the item was created with.
pub proof fn lemma_item_edits(
    m: StoreModel,
    id: Seq<char>,
    rec: ItemRec,
    name2: Seq<char>,
    price2: int,
    notes2: Option<Seq<char>>,
)
    ensures
        find_item(
            edit_item_note(
                edit_item_price(edit_item_name(create_item(m, id, rec), id, name2), id, price2),
                id,
                notes2,
            ),
            id,
        ) == Some(ItemRec { name: name2, price: price2, notes: notes2, ..rec }),
{
}

/// Law: creating a payment and then updating its amount leaves exactly the
/// updated record to be found.
pub proof fn lemma_payment_update(m: StoreModel, id: Seq<char>, rec: PaymentRec, amount2: int)
    ensures
        find_payment(update_payment_amount(create_payment(m, id, rec), id, amount2), id) == Some(
            PaymentRec { amount: amount2, ..rec },
        ),
{
}

/// Law: the account cascade. After deleting an account, the account itself
/// and every item and payment that referenced it are no longer found; every
/// item and payment of another account is found unchanged; and no user or
/// product row is touched.
pub proof fn lemma_account_cascade(m: StoreModel, a: Seq<char>)
    ensures
        find_account(delete_account(m, a), a) == None::<Seq<char>>,
        forall|i: Seq<char>|
            m.items.dom().contains(i) && m.items[i].account_id == a ==> find_item(
                delete_account(m, a),
                i,
            ) == None::<ItemRec>,
        forall|i: Seq<char>|
            m.items.dom().contains(i) && m.items[i].account_id != a ==> find_item(
                delete_account(m, a),
                i,
            ) == find_item(m, i),
        forall|p: Seq<char>|
            m.payments.dom().contains(p) && m.payments[p].account_id == a ==> find_payment(
                delete_account(m, a),
                p,
            ) == None::<PaymentRec>,
        forall|p: Seq<char>|
            m.payments.dom().contains(p) && m.payments[p].account_id != a ==> find_payment(
                delete_account(m, a),
                p,
            ) == find_payment(m, p),
        delete_account(m, a).users == m.users,
        delete_account(m, a).products == m.products,
{
    let md = delete_account(m, a);
    assert forall|i: Seq<char>|
        m.items.dom().contains(i) && m.items[i].account_id == a implies find_item(md, i)
        == None::<ItemRec> by {
        assert(!md.items.dom().contains(i));
    }
    assert forall|i: Seq<char>|
        m.items.dom().contains(i) && m.items[i].account_id != a implies find_item(md, i)
        == find_item(m, i) by {
        assert(md.items.dom().contains(i));
        assert(md.items[i] == m.items[i]);
    }
    assert forall|p: Seq<char>|
        m.payments.dom().contains(p) && m.payments[p].account_id == a implies find_payment(md, p)
        == None::<PaymentRec> by {
        assert(!md.payments.dom().contains(p));
    }
    assert forall|p: Seq<char>|
        m.payments.dom().contains(p) && m.payments[p].account_id != a implies find_payment(md, p)
        == find_payment(m, p) by {
        assert(md.payments.dom().contains(p));
        assert(md.payments[p] == m.payments[p]);
    }
}

} // verus!
