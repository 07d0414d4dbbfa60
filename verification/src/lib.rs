//! Control logic of a retail vending machine.
//!
//! The library tracks a product catalog with live stock counts, accumulates
//! inserted credit, validates and executes purchases, and maps integer
//! commands to state transitions. All monetary amounts are integer cents,
//! so arithmetic is exact. Rendering and device effects are left to the
//! caller: every operation reports its outcome as a plain value.

pub mod catalog;
pub mod controller;
pub mod interpreter;
pub mod ledger;
pub mod machine;
