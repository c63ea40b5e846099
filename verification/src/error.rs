//! The ways an operation of the registry can fail.

use crate::address::Address;
use crate::uint::U256;
use vstd::prelude::*;

verus! {

/// A failed operation. Every failure leaves the registry as it was.
#[derive(Clone, Copy, Debug, PartialEq, Eq)]
pub enum Erc721Error {
    /// The address cannot own tokens: it is the zero address.
    InvalidOwner { owner: Address },
    /// The token has no owner.
    NonexistentToken { token_id: U256 },
    /// The token does not belong to `sender`; it belongs to `owner`.
    IncorrectOwner { sender: Address, token_id: U256, owner: Address },
    /// Tokens cannot be sent from this address.
    InvalidSender { sender: Address },
    /// Tokens cannot be sent to this address.
    InvalidReceiver { receiver: Address },
    /// `operator` is neither the owner of the token nor approved for it.
    InsufficientApproval { operator: Address, token_id: U256 },
    /// This address cannot approve.
    InvalidApprover { approver: Address },
    /// This address cannot be made an operator.
    InvalidOperator { operator: Address },
}

} // verus!
