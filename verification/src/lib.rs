//! A registry of decentralized identifiers.
//!
//! Each identifier names one record: its owner, a primary content pointer,
//! supplemental pointers, a reputation score and verification flags. The
//! registry lives in three partitions of a host's key-value storage and is
//! changed only through the handlers of [`contract`], whose contracts are
//! stated over the mathematical model of [`model`]. What follows from them
//! for every registry is proved in [`laws`]. The calls into the host's
//! crates, whose statements are taken on trust, stand in [`storage`],
//! [`response`] and [`chain`].

pub mod address;
pub mod chain;
pub mod contract;
pub mod error;
pub mod laws;
pub mod model;
pub mod msg;
pub mod response;
pub mod storage;

pub use address::Address;
pub use chain::{check_chain_id, get_chain_id, resolve_chain_id, string_to_bytes32};
pub use contract::{execute, instantiate, query};
pub use error::{ContractError, ErrorKind};
pub use msg::{ExecuteMsg, HealthDID, InstantiateMsg, QueryMsg};
pub use storage::Store;
