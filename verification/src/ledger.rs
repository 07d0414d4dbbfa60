//! Credit ledger: the accumulated balance awaiting spend.
//!
//! The balance is a number of cents. It grows by fixed-denomination
//! deposits, shrinks by debits during a purchase, and is reset by refunds.

use vstd::prelude::*;

verus! {

/// The coin values the machine accepts, in cents.
pub open spec fn is_denomination(v: u64) -> bool {
    v == 10 || v == 20 || v == 50 || v == 100 || v == 200
}

/// The amount a refund hands back: the whole balance.
pub open spec fn refunded_amount(credit: u64) -> u64 {
    credit
}

/// The balance a refund leaves behind: nothing.
pub open spec fn credit_after_refund(credit: u64) -> u64 {
    0
}

/// Law: a refund empties the ledger, so a second refund performed
/// immediately after a first one hands back zero.
pub proof fn lemma_refund_idempotent(credit: u64)
    ensures
        refunded_amount(credit) == credit,
        credit_after_refund(credit) == 0,
        refunded_amount(credit_after_refund(credit)) == 0,
{
}

/// The credit balance, in cents. Never negative by construction.
pub struct CreditLedger {
    credit: u64,
}

impl View for CreditLedger {
    type V = u64;

    closed spec fn view(&self) -> u64 {
        self.credit
    }
}

impl CreditLedger {
    /// A fresh ledger holds no credit.
    pub fn new() -> (r: CreditLedger)
        ensures
            r@ == 0,
    {
        CreditLedger { credit: 0 }
    }

    /// The current balance.
    pub fn credit(&self) -> (r: u64)
        ensures
            r == self@,
    {
        self.credit
    }

    /// Accept one coin of an accepted denomination: the balance grows by
    /// exactly that value and nothing else changes.
    pub fn deposit(&mut self, v: u64)
        requires
            is_denomination(v),
            old(self)@ + v <= u64::MAX,
        ensures
            final(self)@ == old(self)@ + v,
    {
        self.credit = self.credit + v;
    }

    /// Spend part of the balance; only ever called once a purchase has been
    /// fully validated, so the amount is covered.
    pub fn debit(&mut self, amount: u64)
        requires
            amount <= old(self)@,
        ensures
            final(self)@ == old(self)@ - amount,
    {
        self.credit = self.credit - amount;
    }

    /// Hand back the whole balance and reset it to zero. On an empty ledger
    /// this is a no-op that returns zero.
    pub fn refund(&mut self) -> (r: u64)
        ensures
            r == refunded_amount(old(self)@),
            final(self)@ == credit_after_refund(old(self)@),
    {
        let r = self.credit;
        self.credit = 0;
        r
    }
}

} // verus!
