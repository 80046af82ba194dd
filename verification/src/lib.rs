//! A marketplace in which owners list tokens of an outside token ledger at a
//! price per unit, and an exchange trades them against currency.
//!
//! - [`state`] holds the listings: at most one per token, ledger and owner.
//! - [`exchange`] holds the operations: `init`, `add`, `transfer`,
//!   `transfer_cis2`, `receive_ccd` and `list`.
//! - [`ledger`] holds what an operation asks of the world outside, and how
//!   it reads the answers.
//! - [`settlement`] divides the currency of a trade among those who are paid.
//! - [`guarantees`] holds what is proved of all this, whatever is answered
//!   from outside.
//!
//! The library makes no call to the world outside. An operation names the
//! request that it needs performed; the caller performs it and hands the
//! answer back. The listings and every decision are verified.

pub mod address;
pub mod errors;
pub mod exchange;
pub mod guarantees;
pub mod ledger;
pub mod parameter;
pub mod settlement;
pub mod state;
