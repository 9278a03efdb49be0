//! Issuing a one-of-a-kind token: the account checks that must pass before
//! anything is written, the fixed mint / metadata / master-edition sequence,
//! and a model of the records it leaves behind.

pub mod address;
pub mod derived;
pub mod accounts;
pub mod issue;
pub mod ledger;
pub mod laws;
