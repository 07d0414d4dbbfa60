//! Command interpreter: a stateless router over one integer command.
//!
//! `0` quits, `1` through `5` deposit one coin of a fixed denomination,
//! `99` refunds the balance, and every other integer is treated as a
//! product id to purchase. `99` is reserved: it always means refund, even
//! though no product carries that id.

use vstd::prelude::*;

use crate::ledger::is_denomination;

verus! {

/// What one integer command asks the machine to do.
#[derive(Clone, Copy, Debug, PartialEq, Eq, Structural)]
pub enum Command {
    /// Terminate the run loop; no further state access.
    Quit,
    /// Insert one coin of this value, in cents.
    Deposit(u64),
    /// Hand back the whole balance.
    Refund,
    /// Attempt to buy the product carrying this id.
    Purchase(i32),
}

/// The fixed coin table: commands `1` through `5` map to these values,
/// in cents.
pub open spec fn denomination(input: i32) -> u64 {
    if input == 1 {
        10
    } else if input == 2 {
        20
    } else if input == 3 {
        50
    } else if input == 4 {
        100
    } else {
        200
    }
}

/// The routing table in full: how each integer command is read.
pub open spec fn spec_interpret(input: i32) -> Command {
    if input == 0 {
        Command::Quit
    } else if 1 <= input <= 5 {
        Command::Deposit(denomination(input))
    } else if input == 99 {
        Command::Refund
    } else {
        Command::Purchase(input)
    }
}

/// Read one integer command. Owns no state; only routes.
pub fn interpret(input: i32) -> (c: Command)
    ensures
        c == spec_interpret(input),
        c matches Command::Deposit(v) ==> is_denomination(v),
{
    if input == 0 {
        Command::Quit
    } else if 1 <= input && input <= 5 {
        Command::Deposit(denomination_value(input))
    } else if input == 99 {
        Command::Refund
    } else {
        Command::Purchase(input)
    }
}

/// The coin value of a deposit command, in cents.
pub fn denomination_value(input: i32) -> (v: u64)
    requires
        1 <= input <= 5,
    ensures
        v == denomination(input),
        is_denomination(v),
{
    match input {
        1 => 10,
        2 => 20,
        3 => 50,
        4 => 100,
        _ => 200,
    }
}

} // verus!
