//! State-transition rules of a ledger that holds one note per author.
//!
//! A note lives at an address derived from its author's key, a fixed tag and
//! the program's own key. Each instruction checks its accounts in a fixed
//! order, and only then changes them: a failed instruction changes nothing.

pub mod accounts;
pub mod address;
pub mod constants;
pub mod error;
pub mod instructions;
pub mod laws;
pub mod layout;
pub mod program;
pub mod state;
