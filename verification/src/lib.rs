//! A registry of non-fungible tokens: ownership, approvals and transfers.
//!
//! - [`ledger`] is the registry as a mathematical object, with the
//!   properties that every reachable state has.
//! - [`rules`] decides, on the values of single slots, what an operation may
//!   do and what it changes.
//! - [`erc721`] is the registry itself; [`receiver`] holds the handshake of
//!   its safe transfers.
//! - [`store`] and [`assoc`] hold the registry's mappings; [`address`] and
//!   [`uint`] are the values in them.

pub mod address;
pub mod assoc;
pub mod erc721;
pub mod error;
pub mod event;
pub mod ledger;
pub mod receiver;
pub mod rules;
pub mod store;
pub mod uint;

pub use crate::address::{Address, Delegation};
pub use crate::erc721::{Erc721, Erc721Params};
pub use crate::error::Erc721Error;
pub use crate::event::Event;
pub use crate::receiver::{PendingReceipt, ReceiverCall, ReceiverReply, SafeTransfer};
pub use crate::uint::U256;
