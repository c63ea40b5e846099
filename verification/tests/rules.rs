//! The rules on the values of single slots.

use erc721::rules::{self, Balances, TokenSlots};
use erc721::{Address, Erc721Error, Event, U256};

fn who(n: u8) -> Address {
    Address::from_bytes([n; 20])
}

fn no_one() -> Address {
    Address::zero_address()
}

fn n(value: u64) -> U256 {
    U256::from_u64(value)
}

#[test]
fn balance_query_is_refused_for_the_zero_address_only() {
    assert_eq!(
        rules::check_balance_query(no_one()),
        Err(Erc721Error::InvalidOwner { owner: no_one() })
    );
    assert_eq!(rules::check_balance_query(who(1)), Ok(()));
}

#[test]
fn a_token_exists_when_it_has_an_owner() {
    assert_eq!(rules::check_minted(n(3), who(1)), Ok(()));
    assert_eq!(
        rules::check_minted(n(3), no_one()),
        Err(Erc721Error::NonexistentToken { token_id: n(3) })
    );
}

#[test]
fn who_may_move_a_token() {
    // the owner
    assert!(rules::is_authorized(who(1), who(1), no_one(), false));
    // the approved address
    assert!(rules::is_authorized(who(2), who(1), who(2), false));
    // an operator
    assert!(rules::is_authorized(who(3), who(1), who(2), true));
    // nobody else
    assert!(!rules::is_authorized(who(3), who(1), who(2), false));
    assert!(!rules::is_authorized(who(3), who(1), no_one(), false));
    // "no approved address" approves nobody
    assert!(!rules::is_authorized(no_one(), who(1), no_one(), false));
}

#[test]
fn approve_rule() {
    assert_eq!(
        rules::authorize_approve(who(1), who(2), n(3), who(1), false),
        Ok(Event::Approval { owner: who(1), approved: who(2), token_id: n(3) })
    );
    assert_eq!(
        rules::authorize_approve(who(4), who(2), n(3), who(1), true),
        Ok(Event::Approval { owner: who(1), approved: who(2), token_id: n(3) })
    );
    assert_eq!(
        rules::authorize_approve(who(4), who(2), n(3), who(1), false),
        Err(Erc721Error::InsufficientApproval { operator: who(4), token_id: n(3) })
    );
    assert_eq!(
        rules::authorize_approve(who(4), who(2), n(3), no_one(), true),
        Err(Erc721Error::NonexistentToken { token_id: n(3) })
    );
}

#[test]
fn operator_rule() {
    assert_eq!(
        rules::authorize_set_approval_for_all(who(1), who(2), true),
        Ok(Event::ApprovalForAll { owner: who(1), operator: who(2), approved: true })
    );
    assert_eq!(
        rules::authorize_set_approval_for_all(who(1), who(2), false),
        Ok(Event::ApprovalForAll { owner: who(1), operator: who(2), approved: false })
    );
    assert_eq!(
        rules::authorize_set_approval_for_all(who(1), who(1), true),
        Err(Erc721Error::InvalidOperator { operator: who(1) })
    );
}

#[test]
fn transfer_rule_checks_in_order() {
    let ok = Ok(Event::Transfer { from: who(1), to: who(2), token_id: n(3) });
    assert_eq!(rules::authorize_transfer(who(1), who(1), who(2), n(3), who(1), no_one(), false), ok);
    assert_eq!(rules::authorize_transfer(who(5), who(1), who(2), n(3), who(1), who(5), false), ok);
    assert_eq!(rules::authorize_transfer(who(5), who(1), who(2), n(3), who(1), no_one(), true), ok);
    assert_eq!(
        rules::authorize_transfer(who(5), who(1), no_one(), n(3), no_one(), no_one(), false),
        Err(Erc721Error::NonexistentToken { token_id: n(3) })
    );
    assert_eq!(
        rules::authorize_transfer(who(5), who(1), no_one(), n(3), who(4), no_one(), false),
        Err(Erc721Error::IncorrectOwner { sender: who(1), token_id: n(3), owner: who(4) })
    );
    assert_eq!(
        rules::authorize_transfer(who(5), who(1), no_one(), n(3), who(1), no_one(), false),
        Err(Erc721Error::InvalidReceiver { receiver: no_one() })
    );
    assert_eq!(
        rules::authorize_transfer(who(5), who(1), who(2), n(3), who(1), who(6), false),
        Err(Erc721Error::InsufficientApproval { operator: who(5), token_id: n(3) })
    );
}

#[test]
fn mint_rule() {
    assert_eq!(
        rules::authorize_mint(who(1), n(3), no_one()),
        Ok(Event::Transfer { from: no_one(), to: who(1), token_id: n(3) })
    );
    assert_eq!(
        rules::authorize_mint(no_one(), n(3), who(2)),
        Err(Erc721Error::InvalidReceiver { receiver: no_one() })
    );
    assert_eq!(
        rules::authorize_mint(who(1), n(3), who(2)),
        Err(Erc721Error::InvalidSender { sender: no_one() })
    );
}

#[test]
fn a_moved_token_has_a_new_owner_and_no_approval() {
    assert_eq!(rules::moved_token(who(2)), TokenSlots { owner: who(2), approved: no_one() });
}

#[test]
fn moving_a_token_takes_one_and_gives_one() {
    assert_eq!(
        rules::move_balances(who(1), who(2), Balances { from: n(5), to: n(0) }),
        Some(Balances { from: n(4), to: n(1) })
    );
    assert_eq!(
        rules::move_balances(who(1), who(2), Balances { from: n(1), to: n(7) }),
        Some(Balances { from: n(0), to: n(8) })
    );
}

#[test]
fn moving_a_token_to_oneself_keeps_the_balance() {
    assert_eq!(
        rules::move_balances(who(1), who(1), Balances { from: n(5), to: n(5) }),
        Some(Balances { from: n(5), to: n(5) })
    );
}

#[test]
fn balances_that_cannot_move_are_refused() {
    let max = U256::from_limbs([u64::MAX; 4]);
    assert_eq!(rules::move_balances(who(1), who(2), Balances { from: n(0), to: n(3) }), None);
    assert_eq!(rules::move_balances(who(1), who(2), Balances { from: n(3), to: max }), None);
}

#[test]
fn credit_adds_one() {
    assert_eq!(rules::credit(n(0)), Some(n(1)));
    assert_eq!(rules::credit(n(41)), Some(n(42)));
    assert_eq!(rules::credit(U256::from_limbs([u64::MAX; 4])), None);
}
