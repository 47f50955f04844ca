//! A small ledger for shared-expense tracking among a fixed group of
//! participants: groups with a member roster, expenses with a per-member
//! split schedule, and a one-way settlement state machine per member.
//!
//! The library holds the state-transition logic alone: validation,
//! record mutation, and the error taxonomy. The surrounding runtime
//! (account resolution, signing, the clock, the native value transfer)
//! hands in plain values and performs the actions a transition returns.

pub mod errors;
pub mod expense;
pub mod group;
pub mod identity;

pub use errors::ErrorCode;
pub use expense::{create_expense, pay_expense, sum_checked, CreateExpense, Expense, PayExpense};
pub use group::{add_member, create_group, AddMember, CreateGroup, Group};
pub use identity::Identity;
