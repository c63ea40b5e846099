//! What a successful operation reports to the ledger's log.

use crate::address::Address;
use crate::uint::U256;
use vstd::prelude::*;

verus! {

/// A change of the registry, to be appended to the ledger's log by the host.
#[allow(inconsistent_fields)]
#[derive(Clone, Copy, Debug, PartialEq, Eq)]
pub enum Event {
    /// `token_id` went from `from` to `to`. A freshly issued token comes from
    /// the zero address.
    Transfer { from: Address, to: Address, token_id: U256 },
    /// `owner`'s token `token_id` may now be moved by `approved`; the zero
    /// address withdraws the permission.
    Approval { owner: Address, approved: Address, token_id: U256 },
    /// `operator` may (or may no longer) move every token of `owner`.
    ApprovalForAll { owner: Address, operator: Address, approved: bool },
}

} // verus!
