//! The vending machine: the seed catalog, the credit ledger, and the
//! dispatch of one integer command to a state transition.

use vstd::prelude::*;

use crate::catalog::Catalog;
use crate::catalog::Category;
use crate::catalog::Product;
use crate::catalog::catalog_wf;
use crate::catalog::has_id;
use crate::controller::PurchaseResult;
use crate::controller::purchase;
use crate::controller::purchase_transition;
use crate::interpreter::Command;
use crate::interpreter::denomination;
use crate::interpreter::interpret;
use crate::ledger::CreditLedger;

verus! {

/// What one handled command did, for the caller to render. The machine
/// itself performs no output: dispensing, coin clicks and display text are
/// the device layer's business.
#[derive(Debug, PartialEq, Eq)]
pub enum Outcome {
    /// The quit command: the run loop should end.
    Quit,
    /// A coin was accepted; carries the balance after the deposit.
    CoinAccepted { new_credit: u64 },
    /// The balance was handed back; `amount` may be zero.
    Refunded { amount: u64 },
    /// A purchase was attempted, with this result.
    Purchase(PurchaseResult),
}

/// A machine instance: exclusively owned catalog and ledger, created once
/// and mutated only through `handle_command`.
pub struct VendingMachine {
    catalog: Catalog,
    ledger: CreditLedger,
}

impl VendingMachine {
    /// The product list, in display order.
    pub closed spec fn products(&self) -> Seq<Product> {
        self.catalog@
    }

    /// The credit balance, in cents.
    pub closed spec fn spec_credit(&self) -> u64 {
        self.ledger@
    }

    /// Machine well-formedness: the catalog invariant holds.
    pub open spec fn wf(&self) -> bool {
        catalog_wf(self.products())
    }

    /// A fresh machine: zero credit and the fixed seed catalog of eight
    /// products over three categories.
    pub fn new() -> (r: VendingMachine)
        ensures
            r.wf(),
            r.spec_credit() == 0,
            r.products().len() == 8,
            r.products()[0].id == 10 && r.products()[0].price == 120 && r.products()[0].stock == 5
                && r.products()[0].category == Category::Drink && r.products()[0].name@
                == "Coca-Cola Zero"@,
            r.products()[1].id == 11 && r.products()[1].price == 140 && r.products()[1].stock == 4
                && r.products()[1].category == Category::Drink && r.products()[1].name@
                == "Ice Tea Peche"@,
            r.products()[2].id == 12 && r.products()[2].price == 80 && r.products()[2].stock == 8
                && r.products()[2].category == Category::Drink && r.products()[2].name@
                == "Eau Minerale"@,
            r.products()[3].id == 20 && r.products()[3].price == 110 && r.products()[3].stock == 6
                && r.products()[3].category == Category::Snack && r.products()[3].name@
                == "Kinder Bueno"@,
            r.products()[4].id == 21 && r.products()[4].price == 130 && r.products()[4].stock == 3
                && r.products()[4].category == Category::Snack && r.products()[4].name@
                == "M&Ms Peanut"@,
            r.products()[5].id == 22 && r.products()[5].price == 100 && r.products()[5].stock == 2
                && r.products()[5].category == Category::Snack && r.products()[5].name@
                == "Chips Nature"@,
            r.products()[6].id == 30 && r.products()[6].price == 550 && r.products()[6].stock == 2
                && r.products()[6].category == Category::Tech && r.products()[6].name@
                == "Cable USB-C"@,
            r.products()[7].id == 31 && r.products()[7].price == 800 && r.products()[7].stock == 1
                && r.products()[7].category == Category::Tech && r.products()[7].name@
                == "Ecouteurs"@,
    {
        let mut products: Vec<Product> = Vec::new();
        products.push(
            Product {
                id: 10,
                name: String::from_str("Coca-Cola Zero"),
                price: 120,
                stock: 5,
                category: Category::Drink,
            },
        );
        products.push(
            Product {
                id: 11,
                name: String::from_str("Ice Tea Peche"),
                price: 140,
                stock: 4,
                category: Category::Drink,
            },
        );
        products.push(
            Product {
                id: 12,
                name: String::from_str("Eau Minerale"),
                price: 80,
                stock: 8,
                category: Category::Drink,
            },
        );
        products.push(
            Product {
                id: 20,
                name: String::from_str("Kinder Bueno"),
                price: 110,
                stock: 6,
                category: Category::Snack,
            },
        );
        products.push(
            Product {
                id: 21,
                name: String::from_str("M&Ms Peanut"),
                price: 130,
                stock: 3,
                category: Category::Snack,
            },
        );
        products.push(
            Product {
                id: 22,
                name: String::from_str("Chips Nature"),
                price: 100,
                stock: 2,
                category: Category::Snack,
            },
        );
        products.push(
            Product {
                id: 30,
                name: String::from_str("Cable USB-C"),
                price: 550,
                stock: 2,
                category: Category::Tech,
            },
        );
        products.push(
            Product {
                id: 31,
                name: String::from_str("Ecouteurs"),
                price: 800,
                stock: 1,
                category: Category::Tech,
            },
        );
        VendingMachine { catalog: Catalog::new(products), ledger: CreditLedger::new() }
    }

    /// Handle one integer command, already parsed by the caller, and report
    /// what happened. The routing table: `0` quits, `1..=5` deposit one coin
    /// of the fixed denomination, `99` refunds, and anything else is a
    /// purchase attempt. Every rejected action leaves the state unchanged.
    pub fn handle_command(&mut self, input: i32) -> (o: Outcome)
        requires
            old(self).wf(),
            1 <= input <= 5 ==> old(self).spec_credit() + 200 <= u64::MAX,
        ensures
            final(self).wf(),
            input == 0 ==> o == Outcome::Quit && final(self).products() == old(self).products()
                && final(self).spec_credit() == old(self).spec_credit(),
            1 <= input <= 5 ==> final(self).spec_credit() == old(self).spec_credit()
                + denomination(input) && final(self).products() == old(self).products() && o == (
            Outcome::CoinAccepted {
                new_credit: (old(self).spec_credit() + denomination(input)) as u64,
            }),
            input == 99 ==> final(self).spec_credit() == 0 && final(self).products()
                == old(self).products() && o == (Outcome::Refunded {
                amount: old(self).spec_credit(),
            }),
            !(input == 0 || 1 <= input <= 5 || input == 99) ==> (o matches Outcome::Purchase(r)
                && purchase_transition(
                old(self).products(),
                old(self).spec_credit(),
                final(self).products(),
                final(self).spec_credit(),
                input,
                r,
            )),
    {
        match interpret(input) {
            Command::Quit => Outcome::Quit,
            Command::Deposit(v) => {
                self.ledger.deposit(v);
                Outcome::CoinAccepted { new_credit: self.ledger.credit() }
            },
            Command::Refund => {
                let amount = self.ledger.refund();
                Outcome::Refunded { amount }
            },
            Command::Purchase(id) => {
                Outcome::Purchase(purchase(&mut self.catalog, &mut self.ledger, id))
            },
        }
    }

    /// The current balance, in cents.
    pub fn credit(&self) -> (r: u64)
        ensures
            r == self.spec_credit(),
    {
        self.ledger.credit()
    }

    /// How many products the catalog holds.
    pub fn product_count(&self) -> (n: usize)
        ensures
            n == self.products().len(),
    {
        self.catalog.len()
    }

    /// The product at a display position.
    pub fn product_at(&self, i: usize) -> (p: &Product)
        requires
            i < self.products().len(),
        ensures
            *p == self.products()[i as int],
    {
        self.catalog.get(i)
    }

    /// The live stock of the product carrying an id, if any product does.
    pub fn stock_of(&self, id: i32) -> (r: Option<u32>)
        ensures
            match r {
                Some(s) => exists|i: int|
                    0 <= i < self.products().len() && self.products()[i].id == id
                        && self.products()[i].stock == s,
                None => !has_id(self.products(), id),
            },
    {
        match self.catalog.find_index(id) {
            Some(i) => {
                let s = self.catalog.get(i).stock;
                assert(self.products()[i as int].id == id && self.products()[i as int].stock == s);
                Some(s)
            },
            None => None,
        }
    }
}

} // verus!
