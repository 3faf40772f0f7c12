//! Provisioning of several Git identities on one machine.
//!
//! The library decides; it performs no input or output of its own. It names
//! the files and commands that make up an identity, builds the text of each
//! configuration block, keeps the registry of accounts, and drives a
//! provisioning run one step at a time: the caller carries out each requested
//! action on the machine and reports what came of it.

pub mod account;
pub mod action;
pub mod config;
pub mod error;
pub mod paths;
pub mod provision;
pub mod steps;
pub mod text;

pub use crate::account::{GitAccount, GitAccountManager};
pub use crate::action::{Action, Command, Event, FileAppend, Stage};
pub use crate::error::ProvisionError;
pub use crate::steps::DirectoryBinding;
