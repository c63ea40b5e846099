//! The rules of the registry, stated on the values of the slots that an
//! operation reads.
//!
//! Nothing here holds state. [`crate::erc721::Erc721`] applies these rules
//! to its own mappings; a host that keeps the mappings elsewhere reads the
//! slots, asks here, and writes what comes back.

use crate::address::Address;
use crate::error::Erc721Error;
use crate::event::Event;
use crate::uint::{decimal, modulus, U256};
use vstd::prelude::*;

verus! {

/// Whether `caller` may choose the approved address of a token of `owner`:
/// the owner may, and so may an operator of the owner.
pub open spec fn may_approve(caller: Address, owner: Address, caller_is_operator: bool) -> bool {
    caller == owner || caller_is_operator
}

/// Whether `caller` may move a token of `owner` for which `approved` is the
/// approved address: the owner may, the approved address may unless it is the
/// zero address, which stands for none, and so may an operator of the owner.
pub open spec fn may_transfer(
    caller: Address,
    owner: Address,
    approved: Address,
    caller_is_operator: bool,
) -> bool {
    ||| caller == owner
    ||| (approved != Address::zero() && caller == approved)
    ||| caller_is_operator
}

/// Why the balance of `owner` cannot be asked for, if so.
pub open spec fn balance_query_failure(owner: Address) -> Option<Erc721Error> {
    if owner == Address::zero() {
        Some(Erc721Error::InvalidOwner { owner })
    } else {
        None
    }
}

/// Why nothing can be said of a token whose owner slot holds `owner`, if so.
pub open spec fn token_query_failure(token_id: U256, owner: Address) -> Option<Erc721Error> {
    if owner == Address::zero() {
        Some(Erc721Error::NonexistentToken { token_id })
    } else {
        None
    }
}

/// Why `caller` cannot choose the approved address of the token, if so.
pub open spec fn approve_failure(
    caller: Address,
    token_id: U256,
    owner: Address,
    caller_is_operator: bool,
) -> Option<Erc721Error> {
    if owner == Address::zero() {
        Some(Erc721Error::NonexistentToken { token_id })
    } else if !may_approve(caller, owner, caller_is_operator) {
        Some(Erc721Error::InsufficientApproval { operator: caller, token_id })
    } else {
        None
    }
}

/// Why `caller` cannot make `operator` an operator, if so.
pub open spec fn set_approval_for_all_failure(caller: Address, operator: Address) -> Option<
    Erc721Error,
> {
    if operator == caller {
        Some(Erc721Error::InvalidOperator { operator })
    } else {
        None
    }
}

/// Why `caller` cannot move the token from `from` to `to`, if so: the first
/// of the four checks that fails.
pub open spec fn transfer_failure(
    caller: Address,
    from: Address,
    to: Address,
    token_id: U256,
    owner: Address,
    approved: Address,
    caller_is_operator: bool,
) -> Option<Erc721Error> {
    if owner == Address::zero() {
        Some(Erc721Error::NonexistentToken { token_id })
    } else if owner != from {
        Some(Erc721Error::IncorrectOwner { sender: from, token_id, owner })
    } else if to == Address::zero() {
        Some(Erc721Error::InvalidReceiver { receiver: to })
    } else if !may_transfer(caller, owner, approved, caller_is_operator) {
        Some(Erc721Error::InsufficientApproval { operator: caller, token_id })
    } else {
        None
    }
}

/// Why a token whose owner slot holds `owner` cannot be issued to `to`, if
/// so.
pub open spec fn mint_failure(to: Address, token_id: U256, owner: Address) -> Option<Erc721Error> {
    if to == Address::zero() {
        Some(Erc721Error::InvalidReceiver { receiver: to })
    } else if owner != Address::zero() {
        Some(Erc721Error::InvalidSender { sender: Address::zero() })
    } else {
        None
    }
}

/// `Ok` for no failure, the failure as `Err` otherwise.
pub open spec fn outcome(failure: Option<Erc721Error>) -> Result<(), Erc721Error> {
    match failure {
        Some(e) => Err(e),
        None => Ok(()),
    }
}

/// The event to log for no failure, the failure as `Err` otherwise.
pub open spec fn decision(failure: Option<Erc721Error>, event: Event) -> Result<
    Event,
    Erc721Error,
> {
    match failure {
        Some(e) => Err(e),
        None => Ok(event),
    }
}

/// Fails with `InvalidOwner` for the zero address, and for no other.
pub fn check_balance_query(owner: Address) -> (r: Result<(), Erc721Error>)
    ensures
        r == outcome(balance_query_failure(owner)),
{
    if owner.is_zero() {
        Err(Erc721Error::InvalidOwner { owner })
    } else {
        Ok(())
    }
}

/// Fails with `NonexistentToken` if the token's owner slot holds the zero
/// address, and only then.
pub fn check_minted(token_id: U256, owner: Address) -> (r: Result<(), Erc721Error>)
    ensures
        r == outcome(token_query_failure(token_id, owner)),
{
    if owner.is_zero() {
        Err(Erc721Error::NonexistentToken { token_id })
    } else {
        Ok(())
    }
}

/// Whether `caller` may move a token of `owner` for which `approved` is the
/// approved address.
pub fn is_authorized(caller: Address, owner: Address, approved: Address, caller_is_operator: bool)
    -> (b: bool)
    ensures
        b == may_transfer(caller, owner, approved, caller_is_operator),
{
    caller.same(&owner) || (!approved.is_zero() && caller.same(&approved)) || caller_is_operator
}

/// Decides whether `caller` may make `to` the approved address of the token,
/// and says what to log if so.
///
/// `owner` is the token's owner slot and `caller_is_operator` the operator
/// slot of that owner and `caller`.
pub fn authorize_approve(
    caller: Address,
    to: Address,
    token_id: U256,
    owner: Address,
    caller_is_operator: bool,
) -> (r: Result<Event, Erc721Error>)
    ensures
        r == decision(
            approve_failure(caller, token_id, owner, caller_is_operator),
            Event::Approval { owner, approved: to, token_id },
        ),
{
    if owner.is_zero() {
        return Err(Erc721Error::NonexistentToken { token_id });
    }
    if !caller.same(&owner) && !caller_is_operator {
        return Err(Erc721Error::InsufficientApproval { operator: caller, token_id });
    }
    Ok(Event::Approval { owner, approved: to, token_id })
}

/// Decides whether `caller` may grant `operator` the right over its tokens,
/// or withdraw it, and says what to log if so.
pub fn authorize_set_approval_for_all(caller: Address, operator: Address, approved: bool) -> (r:
    Result<Event, Erc721Error>)
    ensures
        r == decision(
            set_approval_for_all_failure(caller, operator),
            Event::ApprovalForAll { owner: caller, operator, approved },
        ),
{
    if operator.same(&caller) {
        return Err(Erc721Error::InvalidOperator { operator });
    }
    Ok(Event::ApprovalForAll { owner: caller, operator, approved })
}

/// Decides whether `caller` may move the token from `from` to `to`, and says
/// what to log if so.
///
/// `owner` and `approved` are the token's owner and approval slots, and
/// `caller_is_operator` the operator slot of that owner and `caller`.
pub fn authorize_transfer(
    caller: Address,
    from: Address,
    to: Address,
    token_id: U256,
    owner: Address,
    approved: Address,
    caller_is_operator: bool,
) -> (r: Result<Event, Erc721Error>)
    ensures
        r == decision(
            transfer_failure(caller, from, to, token_id, owner, approved, caller_is_operator),
            Event::Transfer { from, to, token_id },
        ),
{
    if owner.is_zero() {
        return Err(Erc721Error::NonexistentToken { token_id });
    }
    if !owner.same(&from) {
        return Err(Erc721Error::IncorrectOwner { sender: from, token_id, owner });
    }
    if to.is_zero() {
        return Err(Erc721Error::InvalidReceiver { receiver: to });
    }
    if !is_authorized(caller, owner, approved, caller_is_operator) {
        return Err(Erc721Error::InsufficientApproval { operator: caller, token_id });
    }
    Ok(Event::Transfer { from, to, token_id })
}

/// Decides whether the token can be issued to `to`, and says what to log if
/// so. `owner` is the token's owner slot.
pub fn authorize_mint(to: Address, token_id: U256, owner: Address) -> (r: Result<
    Event,
    Erc721Error,
>)
    ensures
        r == decision(
            mint_failure(to, token_id, owner),
            Event::Transfer { from: Address::zero(), to, token_id },
        ),
{
    if to.is_zero() {
        return Err(Erc721Error::InvalidReceiver { receiver: to });
    }
    if !owner.is_zero() {
        return Err(Erc721Error::InvalidSender { sender: Address::zero_address() });
    }
    Ok(Event::Transfer { from: Address::zero_address(), to, token_id })
}

/// The two slots of a token.
#[derive(Clone, Copy, Debug, PartialEq, Eq)]
pub struct TokenSlots {
    /// The owner of the token.
    pub owner: Address,
    /// The address approved for the token; the zero address for none.
    pub approved: Address,
}

/// The slots of a token that went to `to`: `to` owns it, and nobody is
/// approved for it.
pub fn moved_token(to: Address) -> (after: TokenSlots)
    ensures
        after == (TokenSlots { owner: to, approved: Address::zero() }),
{
    TokenSlots { owner: to, approved: Address::zero_address() }
}

/// The two balances that a transfer touches.
#[derive(Clone, Copy, Debug, PartialEq, Eq)]
pub struct Balances {
    /// The balance of the address that gives the token.
    pub from: U256,
    /// The balance of the address that gets the token.
    pub to: U256,
}

/// The balances of `from` and `to` after one token went from the one to the
/// other, as numbers: one less and one more, or both as before where the
/// two are the same address.
pub open spec fn moved(from: Address, to: Address, from_balance: nat, to_balance: nat) -> (nat, nat) {
    if from == to {
        (from_balance, to_balance)
    } else {
        ((from_balance - 1) as nat, to_balance + 1)
    }
}

/// Whether the balances allow a token to go from `from` to `to`: unless the
/// two are the same address, `from` has a token to give and `to` has room
/// for one more.
pub open spec fn can_move(from: Address, to: Address, from_balance: nat, to_balance: nat) -> bool {
    from != to ==> from_balance >= 1 && to_balance + 1 < modulus()
}

/// The balances of `from` and `to` after one token went from the one to the
/// other, or `None` where the balances do not allow it.
pub fn move_balances(from: Address, to: Address, before: Balances) -> (after: Option<Balances>)
    ensures
        match after {
            Some(after) => can_move(from, to, before.from@, before.to@) && (after.from@, after.to@)
                == moved(from, to, before.from@, before.to@),
            None => !can_move(from, to, before.from@, before.to@),
        },
{
    if from.same(&to) {
        return Some(before);
    }
    match before.from.checked_sub(U256::one()) {
        None => None,
        Some(debited) => match before.to.checked_add(U256::one()) {
            None => None,
            Some(credited) => Some(Balances { from: debited, to: credited }),
        },
    }
}

/// The balance of an address after a token was issued to it, or `None` where
/// the balance is the largest number already.
pub fn credit(balance: U256) -> (after: Option<U256>)
    ensures
        match after {
            Some(after) => after@ == balance@ + 1,
            None => balance@ + 1 >= modulus(),
        },
{
    balance.checked_add(U256::one())
}

/// The URI of a token: the prefix, then the token's number in base ten.
pub fn token_uri(base_uri: &str, token_id: U256) -> (uri: String)
    ensures
        uri@ == base_uri@ + decimal(token_id@),
{
    let number = token_id.to_decimal_string();
    base_uri.to_owned().concat(number.as_str())
}

} // verus!
