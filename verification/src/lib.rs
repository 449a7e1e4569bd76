//! A custody vault whose spending authority is a program-derived address.

pub mod accounts;
pub mod address;
pub mod authorizer;
pub mod error;
pub mod laws;
pub mod ledger;
pub mod vault;
