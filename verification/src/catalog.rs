//! Product catalog: the ordered collection of purchasable products and
//! their live stock counts.

use vstd::prelude::*;

verus! {

/// Product family, used only to pick a display icon.
#[derive(Clone, Copy, Debug, PartialEq, Eq)]
pub enum Category {
    Drink,
    Snack,
    Tech,
}

/// One slot of the machine: immutable identity fields plus a mutable
/// stock count. Prices are in cents.
#[derive(Debug)]
pub struct Product {
    pub id: i32,
    pub name: String,
    pub price: u64,
    pub stock: u32,
    pub category: Category,
}

/// Some product of the catalog carries this id.
pub open spec fn has_id(s: Seq<Product>, id: i32) -> bool {
    exists|i: int| 0 <= i < s.len() && s[i].id == id
}

/// Catalog well-formedness: ids are pairwise distinct and every price is
/// positive.
pub open spec fn catalog_wf(s: Seq<Product>) -> bool {
    &&& forall|i: int, j: int|
        0 <= i < s.len() && 0 <= j < s.len() && i != j ==> s[i].id != s[j].id
    &&& forall|i: int| 0 <= i < s.len() ==> s[i].price > 0
}

/// The fixed, ordered product list. Insertion order is preserved; stock
/// counts are mutated only through `decrement_stock`.
pub struct Catalog {
    products: Vec<Product>,
}

impl View for Catalog {
    type V = Seq<Product>;

    closed spec fn view(&self) -> Seq<Product> {
        self.products@
    }
}

impl Catalog {
    /// Wrap a product list as a catalog.
    pub fn new(products: Vec<Product>) -> (r: Catalog)
        ensures
            r@ == products@,
    {
        Catalog { products }
    }

    /// How many products the catalog holds.
    pub fn len(&self) -> (n: usize)
        ensures
            n == self@.len(),
    {
        self.products.len()
    }

    /// The product at a position, for display and inspection.
    pub fn get(&self, i: usize) -> (p: &Product)
        requires
            i < self@.len(),
        ensures
            *p == self@[i as int],
    {
        &self.products[i]
    }

    /// Position of the product carrying an id, if any; never mutates state.
    pub fn find_index(&self, id: i32) -> (r: Option<usize>)
        ensures
            match r {
                Some(i) => i < self@.len() && self@[i as int].id == id,
                None => !has_id(self@, id),
            },
    {
        let mut i: usize = 0;
        while i < self.products.len()
            invariant
                i <= self@.len(),
                forall|j: int| 0 <= j < i ==> self@[j].id != id,
            decreases self@.len() - i,
        {
            if self.products[i].id == id {
                return Some(i);
            }
            i = i + 1;
        }
        None
    }

    /// Take one unit of stock at a position. Only the purchase path calls
    /// this, after all validation has passed; every other product and every
    /// identity field stays exactly as it was.
    pub fn decrement_stock(&mut self, i: usize)
        requires
            i < old(self)@.len(),
            old(self)@[i as int].stock > 0,
        ensures
            final(self)@.len() == old(self)@.len(),
            final(self)@[i as int].stock == old(self)@[i as int].stock - 1,
            final(self)@[i as int].id == old(self)@[i as int].id,
            final(self)@[i as int].name == old(self)@[i as int].name,
            final(self)@[i as int].price == old(self)@[i as int].price,
            final(self)@[i as int].category == old(self)@[i as int].category,
            forall|j: int|
                0 <= j < old(self)@.len() && j != i ==> final(self)@[j] == old(self)@[j],
    {
        let p = &mut self.products[i];
        p.stock = p.stock - 1;
    }
}

impl Product {
    /// The display icon of the product's category.
    pub fn get_icon(&self) -> (r: &'static str)
        ensures
            self.category == Category::Drink ==> r@ == "[Drink]"@,
            self.category == Category::Snack ==> r@ == "[Snack]"@,
            self.category == Category::Tech ==> r@ == "[Tech ]"@,
    {
        match self.category {
            Category::Drink => "[Drink]",
            Category::Snack => "[Snack]",
            Category::Tech => "[Tech ]",
        }
    }
}

} // verus!
