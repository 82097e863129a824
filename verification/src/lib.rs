//! A delegated-spending ledger for a CosmWasm host.
//!
//! Account holders deposit the one accepted denomination, grant other
//! accounts the right to spend from their balance and revoke that right.
//! The persisted ledger and the address validator belong to the host; this
//! crate holds the transitions and proves what each of them does to the
//! ledger.
//!
//! - [`model`] says what the ledger holds and what each request does to
//!   it, and [`laws`] proves what follows: value is made by deposits
//!   alone, nobody spends another's funds without a grant in force, and a
//!   refused request changes nothing.
//! - [`host`] is the boundary to `cosmwasm_std` and `cw_storage_plus`: the
//!   calls into them, each with the contract it is taken to meet.
//! - [`state`] reads and writes single entries of the store, [`identity`]
//!   has addresses validated, and [`rules`] holds the decisions.
//! - [`contract`] holds the entry points, over the messages of [`msg`],
//!   the sender and funds of [`info`] and the attributes of [`response`].

pub mod contract;
pub mod decimal;
pub mod error;
pub mod host;
pub mod identity;
pub mod info;
pub mod laws;
pub mod model;
pub mod msg;
pub mod response;
pub mod rules;
pub mod state;

pub use contract::{execute, instantiate, query};
pub use error::ContractError;
pub use host::{Ledger, LedgerView};
pub use info::{Coin, MessageInfo};
pub use msg::exec::ExecuteMsg;
pub use msg::init::InstantiateMsg;
pub use msg::query::QueryMsg;
pub use response::{Attribute, Response};
