//! A per-user interaction ledger: account records bound to one owner, a fee
//! charged on every logged interaction, and the program-derived addresses
//! under which the records and the shared treasury live.
pub mod address;
pub mod instructions;
pub mod laws;
pub mod layout;
pub mod state;
