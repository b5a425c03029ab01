//! A shared registry of submitted links with per-item vote tallies.
//!
//! The registry is one document of fixed reserved size. Four instructions
//! act on it: `initialize`, `add_gif`, `up_vote` and `down_vote`. Each takes
//! the accounts of one invocation and either commits one change or leaves the
//! document as it was.

pub mod account;
pub mod instructions;
pub mod laws;
pub mod layout;

pub use crate::account::{BaseAccount, ItemStruct, ItemView, RegistryView};
pub use crate::instructions::{
    add_gif, down_vote, initialize, up_vote, Initialize, RegistryError, Update,
};
