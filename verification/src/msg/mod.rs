//! The messages the ledger understands, already decoded.

pub mod exec;
pub mod init;
pub mod query;
