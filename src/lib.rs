//! Double-entry ledger statements: the aggregation of posting lines into
//! account statements, the statement lifecycle and the hash chain that
//! links each posting to its predecessor in a ledger.

pub mod account;
pub mod posting;
pub mod statement;
mod fresh;
