pub mod address;
pub mod controller;
pub mod counter;
pub mod derivation;
pub mod errors;
pub mod laws;
pub mod ledger;
pub mod state;
pub mod table;
