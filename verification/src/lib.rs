pub mod ledger;
pub mod token;
pub mod laws;
