//! The life of a token: issued, approved, moved.

use erc721::{Address, Erc721, Erc721Error, Erc721Params, Event, U256};

fn account(n: u8) -> Address {
    let mut bytes = [0u8; 20];
    bytes[19] = n;
    Address::from_bytes(bytes)
}

fn id(n: u64) -> U256 {
    U256::from_u64(n)
}

fn registry_with_token_one_of_a() -> Erc721 {
    let mut registry = Erc721::new(Erc721Params::new("Sample ERC721 Tokens", "SMPL"));
    registry.mint(account(0xA), id(1)).unwrap();
    registry
}

#[test]
fn owner_approves_and_the_approval_is_recorded() {
    let (a, b) = (account(0xA), account(0xB));
    let mut registry = registry_with_token_one_of_a();
    let event = registry.approve(a, b, id(1));
    assert_eq!(event, Ok(Event::Approval { owner: a, approved: b, token_id: id(1) }));
    assert_eq!(registry.getApproved(id(1)), Ok(b));
}

#[test]
fn approved_address_transfers_the_token() {
    let (a, b, c) = (account(0xA), account(0xB), account(0xC));
    let mut registry = registry_with_token_one_of_a();
    registry.mint(c, id(7)).unwrap();
    registry.approve(a, b, id(1)).unwrap();
    let balance_a = registry.balanceOf(a).unwrap();
    let balance_c = registry.balanceOf(c).unwrap();
    assert_eq!(balance_a, id(1));
    assert_eq!(balance_c, id(1));

    let event = registry.transferFrom(b, a, c, id(1));

    assert_eq!(event, Ok(Event::Transfer { from: a, to: c, token_id: id(1) }));
    assert_eq!(registry.ownerOf(id(1)), Ok(c));
    assert_eq!(registry.getApproved(id(1)), Ok(Address::zero_address()));
    assert_eq!(registry.balanceOf(a), Ok(id(0)));
    assert_eq!(registry.balanceOf(c), Ok(id(2)));
}

#[test]
fn stranger_cannot_transfer_and_nothing_changes() {
    let (a, b, c, d) = (account(0xA), account(0xB), account(0xC), account(0xD));
    let mut registry = registry_with_token_one_of_a();
    registry.approve(a, b, id(1)).unwrap();

    let result = registry.transferFrom(d, a, c, id(1));

    assert_eq!(result, Err(Erc721Error::InsufficientApproval { operator: d, token_id: id(1) }));
    assert_eq!(registry.ownerOf(id(1)), Ok(a));
    assert_eq!(registry.getApproved(id(1)), Ok(b));
    assert_eq!(registry.balanceOf(a), Ok(id(1)));
    assert_eq!(registry.balanceOf(c), Ok(id(0)));
    assert_eq!(registry.balanceOf(d), Ok(id(0)));
}

#[test]
fn operator_transfers_a_token_without_single_approval() {
    let (a, b, c) = (account(0xA), account(0xB), account(0xC));
    let mut registry = registry_with_token_one_of_a();
    registry.mint(a, id(2)).unwrap();
    assert_eq!(
        registry.setApprovalForAll(a, b, true),
        Ok(Event::ApprovalForAll { owner: a, operator: b, approved: true })
    );
    assert_eq!(registry.getApproved(id(2)), Ok(Address::zero_address()));

    let event = registry.transferFrom(b, a, c, id(2));

    assert_eq!(event, Ok(Event::Transfer { from: a, to: c, token_id: id(2) }));
    assert_eq!(registry.ownerOf(id(2)), Ok(c));
    assert_eq!(registry.ownerOf(id(1)), Ok(a));
    assert!(registry.isApprovedForAll(a, b));
}

#[test]
fn operator_approval_survives_transfers() {
    let (a, b, c) = (account(0xA), account(0xB), account(0xC));
    let mut registry = registry_with_token_one_of_a();
    registry.setApprovalForAll(a, b, true).unwrap();
    registry.transferFrom(a, a, c, id(1)).unwrap();
    assert!(registry.isApprovedForAll(a, b));
    // b is an operator of a, not of c
    assert_eq!(
        registry.transferFrom(b, c, a, id(1)),
        Err(Erc721Error::InsufficientApproval { operator: b, token_id: id(1) })
    );
}

#[test]
fn balances_count_the_tokens_of_each_owner() {
    let (a, b, c) = (account(0xA), account(0xB), account(0xC));
    let mut registry = Erc721::new(Erc721Params::new("N", "S"));
    for n in 1..=5u64 {
        registry.mint(a, id(n)).unwrap();
    }
    registry.mint(b, id(6)).unwrap();
    registry.transferFrom(a, a, b, id(1)).unwrap();
    registry.transferFrom(a, a, c, id(2)).unwrap();
    registry.transferFrom(b, b, c, id(6)).unwrap();
    registry.transferFrom(c, c, a, id(2)).unwrap();

    for who in [a, b, c] {
        let mut owned = 0u64;
        for n in 1..=6u64 {
            if registry.ownerOf(id(n)) == Ok(who) {
                owned += 1;
            }
        }
        assert_eq!(registry.balanceOf(who), Ok(id(owned)));
    }
    assert_eq!(registry.balanceOf(a), Ok(id(4)));
    assert_eq!(registry.balanceOf(b), Ok(id(1)));
    assert_eq!(registry.balanceOf(c), Ok(id(1)));
}

#[test]
fn transfer_withdraws_the_approval() {
    let (a, b, c) = (account(0xA), account(0xB), account(0xC));
    let mut registry = registry_with_token_one_of_a();
    registry.approve(a, b, id(1)).unwrap();
    registry.transferFrom(a, a, c, id(1)).unwrap();
    assert_eq!(registry.getApproved(id(1)), Ok(Address::zero_address()));
    // the approval is gone for good: b cannot move the token back
    assert_eq!(
        registry.transferFrom(b, c, a, id(1)),
        Err(Erc721Error::InsufficientApproval { operator: b, token_id: id(1) })
    );
}

#[test]
fn granting_an_operator_twice_is_granting_it_once() {
    let (a, b) = (account(0xA), account(0xB));
    let mut registry = registry_with_token_one_of_a();
    assert!(!registry.isApprovedForAll(a, b));
    registry.setApprovalForAll(a, b, true).unwrap();
    assert!(registry.isApprovedForAll(a, b));
    assert_eq!(
        registry.setApprovalForAll(a, b, true),
        Ok(Event::ApprovalForAll { owner: a, operator: b, approved: true })
    );
    assert!(registry.isApprovedForAll(a, b));
    assert!(!registry.isApprovedForAll(b, a));
}

#[test]
fn balance_of_the_zero_address_is_refused() {
    let zero = Address::zero_address();
    let mut registry = Erc721::new(Erc721Params::new("N", "S"));
    assert_eq!(registry.balanceOf(zero), Err(Erc721Error::InvalidOwner { owner: zero }));
    registry.mint(account(0xA), id(1)).unwrap();
    assert_eq!(registry.balanceOf(zero), Err(Erc721Error::InvalidOwner { owner: zero }));
}

#[test]
fn queries_on_a_token_that_was_never_issued_fail() {
    let registry = registry_with_token_one_of_a();
    let missing = Erc721Error::NonexistentToken { token_id: id(999) };
    assert_eq!(registry.ownerOf(id(999)), Err(missing));
    assert_eq!(registry.getApproved(id(999)), Err(missing));
    assert_eq!(registry.tokenURI(id(999)), Err(missing));
    assert_eq!(registry._requireMinted(id(999)), Err(missing));
    assert_eq!(registry._requireMinted(id(1)), Ok(()));
}
