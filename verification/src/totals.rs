//! The derived monetary totals of an account.
//!
//! `paid_amount` is the sum of the amounts of the account's payments;
//! `account_total` is the sum over the account's items of price × quantity.
//! Both are computed on read, never stored. The executable computations
//! return `None` exactly when the mathematical total does not fit an `i64`.

use vstd::prelude::*;

use crate::item::Item;
use crate::payment::Payment;

verus! {

/// The sum of the amounts of a sequence of payments.
pub open spec fn sum_amounts(s: Seq<Payment>) -> int
    decreases s.len(),
{
    if s.len() == 0 {
        0
    } else {
        sum_amounts(s.drop_last()) + s.last().amount
    }
}

/// The sum over a sequence of items of price × quantity.
pub open spec fn items_total(s: Seq<Item>) -> int
    decreases s.len(),
{
    if s.len() == 0 {
        0
    } else {
        items_total(s.drop_last()) + s.last().price * s.last().quantity
    }
}

/// Law: the paid amount is linear in the payments — appending one payment
/// raises the sum by exactly that payment's amount.
pub proof fn lemma_sum_amounts_linear(s: Seq<Payment>, p: Payment)
    ensures
        sum_amounts(s.push(p)) == sum_amounts(s) + p.amount,
{
    assert(s.push(p).drop_last() =~= s);
}

/// Law: the items total is linear in the items — appending one item raises
/// the sum by exactly that item's price × quantity.
pub proof fn lemma_items_total_linear(s: Seq<Item>, it: Item)
    ensures
        items_total(s.push(it)) == items_total(s) + it.price * it.quantity,
{
    assert(s.push(it).drop_last() =~= s);
}

/// Over well-formed payments the sum never shrinks as the sequence grows.
pub proof fn lemma_sum_amounts_prefix(s: Seq<Payment>, i: int)
    requires
        0 <= i <= s.len(),
        forall|k: int| 0 <= k < s.len() ==> s[k].wf(),
    ensures
        sum_amounts(s.subrange(0, i)) <= sum_amounts(s),
    decreases s.len() - i,
{
    if i == s.len() {
        assert(s.subrange(0, i) =~= s);
    } else {
        assert(s.subrange(0, i + 1).drop_last() =~= s.subrange(0, i));
        assert(s.subrange(0, i + 1).last() == s[i]);
        lemma_sum_amounts_prefix(s, i + 1);
    }
}

/// Over well-formed items the total never shrinks as the sequence grows.
pub proof fn lemma_items_total_prefix(s: Seq<Item>, i: int)
    requires
        0 <= i <= s.len(),
        forall|k: int| 0 <= k < s.len() ==> s[k].wf(),
    ensures
        items_total(s.subrange(0, i)) <= items_total(s),
    decreases s.len() - i,
{
    if i == s.len() {
        assert(s.subrange(0, i) =~= s);
    } else {
        assert(s.subrange(0, i + 1).drop_last() =~= s.subrange(0, i));
        assert(s.subrange(0, i + 1).last() == s[i]);
        assert(s[i].price * s[i].quantity >= 0) by (nonlinear_arith)
            requires
                s[i].price >= 0,
                s[i].quantity >= 1,
        ;
        lemma_items_total_prefix(s, i + 1);
    }
}

/// Computes the paid amount of an account from its payments.
///
/// Returns the exact sum of the amounts, or `None` exactly when that sum does
/// not fit an `i64`.
pub fn paid_amount_of(payments: &Vec<Payment>) -> (r: Option<i64>)
    requires
        forall|k: int| 0 <= k < payments@.len() ==> payments@[k].wf(),
    ensures
        r matches Some(t) ==> t == sum_amounts(payments@),
        r is Some <==> sum_amounts(payments@) <= i64::MAX,
{
    let mut acc: i64 = 0;
    let n = payments.len();
    let mut k: usize = 0;
    while k < n
        invariant
            0 <= k <= n,
            n == payments@.len(),
            forall|j: int| 0 <= j < payments@.len() ==> payments@[j].wf(),
            0 <= acc,
            acc == sum_amounts(payments@.subrange(0, k as int)),
        decreases n - k,
    {
        let a = payments[k].amount;
        proof {
            assert(payments@.subrange(0, k + 1 as int).drop_last() =~= payments@.subrange(
                0,
                k as int,
            ));
            assert(payments@.subrange(0, k + 1 as int).last() == payments@[k as int]);
        }
        if a > i64::MAX - acc {
            proof {
                lemma_sum_amounts_prefix(payments@, k + 1 as int);
            }
            return None;
        }
        acc = acc + a;
        k = k + 1;
    }
    proof {
        assert(payments@.subrange(0, n as int) =~= payments@);
    }
    Some(acc)
}

/// Computes the account total of an account from its items.
///
/// Returns the exact sum over the items of price × quantity, or `None`
/// exactly when that sum does not fit an `i64`.
pub fn account_total_of(items: &Vec<Item>) -> (r: Option<i64>)
    requires
        forall|k: int| 0 <= k < items@.len() ==> items@[k].wf(),
    ensures
        r matches Some(t) ==> t == items_total(items@),
        r is Some <==> items_total(items@) <= i64::MAX,
{
    let mut acc: i64 = 0;
    let n = items.len();
    let mut k: usize = 0;
    while k < n
        invariant
            0 <= k <= n,
            n == items@.len(),
            forall|j: int| 0 <= j < items@.len() ==> items@[j].wf(),
            0 <= acc,
            acc == items_total(items@.subrange(0, k as int)),
        decreases n - k,
    {
        let p: i128 = items[k].price as i128;
        let q: i128 = items[k].quantity as i128;
        proof {
            assert(items@.subrange(0, k + 1 as int).drop_last() =~= items@.subrange(0, k as int));
            assert(items@.subrange(0, k + 1 as int).last() == items@[k as int]);
            assert(p * q >= 0 && p * q <= 0x7fff_ffff_ffff_ffff * 0x7fff_ffff_ffff_ffff) by (
            nonlinear_arith)
                requires
                    0 <= p <= 0x7fff_ffff_ffff_ffff,
                    1 <= q <= 0x7fff_ffff_ffff_ffff,
            ;
        }
        let term: i128 = p * q;
        if term > i64::MAX as i128 || (acc as i128) > i64::MAX as i128 - term {
            proof {
                lemma_items_total_prefix(items@, k + 1 as int);
            }
            return None;
        }
        acc = acc + (term as i64);
        k = k + 1;
    }
    proof {
        assert(items@.subrange(0, n as int) =~= items@);
    }
    Some(acc)
}

} // verus!
