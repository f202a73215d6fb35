//! An addressed-messaging store: principals send text messages to one another,
//! and a recipient asks for the newest message addressed to them.
//!
//! The store is an append-only log of records. Every state change hands back
//! the notification that the host runtime is to publish.
use vstd::prelude::*;

pub mod account;
pub mod contract;
pub mod laws;
pub mod log;

pub use account::AccountId;
pub use contract::{Contract, Getcontent, TransferSingle};
pub use log::{ContentLog, MessageRecord};

verus! {

} // verus!
