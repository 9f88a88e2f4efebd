//! Bootstrap of a decentralized-exchange market: the ordered account
//! provisioning, the vault-signer nonce search and the activation call,
//! as a verified sequence of decisions that a host program carries out.

pub mod address;
pub mod error;
pub mod event;
pub mod signer;
pub mod instruction;
pub mod accounts;
pub mod flow;

pub use crate::accounts::{Initialize, Operation};
pub use crate::address::Address;
pub use crate::error::ErrorCode;
pub use crate::event::InitializedEvent;
pub use crate::flow::{initialize, Action, Deployment, Outcome, Stage};
pub use crate::instruction::{AccountMeta, InitializeMarketAccounts, Instruction};
