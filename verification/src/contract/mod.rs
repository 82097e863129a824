//! The entry points: setup, the messages that change the ledger, and the
//! messages that read it.

pub mod exec;
pub mod init;
pub mod query;

pub use self::exec::execute;
pub use self::init::instantiate;
pub use self::query::query;
