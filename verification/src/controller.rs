//! Purchase controller: the single atomic decision-and-mutation unit for
//! "attempt to buy product X".
//!
//! Error precedence is fixed: existence, then stock, then credit. An
//! unknown id is reported before any credit check, and every failure
//! leaves catalog and ledger untouched. On the one success path the stock
//! decrement and the credit debit happen together: no caller ever observes
//! one without the other.

use vstd::prelude::*;

use crate::catalog::Catalog;
use crate::catalog::Product;
use crate::catalog::catalog_wf;
use crate::catalog::has_id;
use crate::ledger::CreditLedger;

verus! {

/// Outcome of a purchase attempt. Every variant but `Success` reports a
/// rejected attempt; none of those mutates any state.
#[derive(Debug, PartialEq, Eq)]
pub enum PurchaseResult {
    /// The product was dispensed; carries its display name.
    Success { product_name: String },
    /// No product carries the requested id.
    ProductNotFound,
    /// The product exists but its stock is exhausted.
    OutOfStock,
    /// The product exists and is stocked, but the balance falls short by
    /// exactly `missing` cents.
    InsufficientCredit { missing: u64 },
}

/// What a purchase attempt does when the id resolves to position `i`:
/// stock and credit rules are checked in order, and only the fully
/// validated path mutates anything — then stock at `i` drops by one, the
/// credit drops by the price, and everything else is untouched.
pub open spec fn purchase_found_case(
    pre: Seq<Product>,
    pre_credit: u64,
    post: Seq<Product>,
    post_credit: u64,
    i: int,
    r: PurchaseResult,
) -> bool {
    let p = pre[i];
    &&& (p.stock == 0 ==> r == PurchaseResult::OutOfStock && post == pre && post_credit
        == pre_credit)
    &&& (p.stock > 0 && pre_credit < p.price ==> r == (PurchaseResult::InsufficientCredit {
        missing: (p.price - pre_credit) as u64,
    }) && post == pre && post_credit == pre_credit)
    &&& (p.stock > 0 && pre_credit >= p.price ==> {
        &&& r matches PurchaseResult::Success { product_name } && product_name@ == p.name@
        &&& post_credit == pre_credit - p.price
        &&& post.len() == pre.len()
        &&& post[i].id == p.id
        &&& post[i].name == p.name
        &&& post[i].price == p.price
        &&& post[i].category == p.category
        &&& post[i].stock == p.stock - 1
        &&& forall|j: int| 0 <= j < pre.len() && j != i ==> post[j] == pre[j]
    })
}

/// The full transition relation of a purchase attempt: an absent id is
/// rejected with `ProductNotFound` and no mutation; a present id is handled
/// by `purchase_found_case` at its position.
pub open spec fn purchase_transition(
    pre: Seq<Product>,
    pre_credit: u64,
    post: Seq<Product>,
    post_credit: u64,
    id: i32,
    r: PurchaseResult,
) -> bool {
    &&& (!has_id(pre, id) ==> r == PurchaseResult::ProductNotFound && post == pre && post_credit
        == pre_credit)
    &&& forall|i: int|
        0 <= i < pre.len() && #[trigger] pre[i].id == id ==> purchase_found_case(
            pre,
            pre_credit,
            post,
            post_credit,
            i,
            r,
        )
}

/// Attempt to buy the product carrying `id`, spending from the ledger.
pub fn purchase(catalog: &mut Catalog, ledger: &mut CreditLedger, id: i32) -> (r: PurchaseResult)
    requires
        catalog_wf(old(catalog)@),
    ensures
        catalog_wf(final(catalog)@),
        purchase_transition(old(catalog)@, old(ledger)@, final(catalog)@, final(ledger)@, id, r),
{
    match catalog.find_index(id) {
        None => PurchaseResult::ProductNotFound,
        Some(i) => {
            let stock = catalog.get(i).stock;
            let price = catalog.get(i).price;
            let credit = ledger.credit();
            if stock == 0 {
                PurchaseResult::OutOfStock
            } else if credit < price {
                PurchaseResult::InsufficientCredit { missing: price - credit }
            } else {
                let product_name = catalog.get(i).name.clone();
                catalog.decrement_stock(i);
                ledger.debit(price);
                PurchaseResult::Success { product_name }
            }
        },
    }
}

} // verus!
