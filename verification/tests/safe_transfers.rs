//! Safe transfers and the receiver's acknowledgment.

use erc721::{
    Address, Erc721, Erc721Error, Erc721Params, Event, ReceiverReply, SafeTransfer, U256,
};

const ACKNOWLEDGMENT: [u8; 4] = [0x15, 0x0b, 0x7a, 0x02];

fn wallet(n: u8) -> Address {
    let mut bytes = [0u8; 20];
    bytes[1] = 0x5A;
    bytes[19] = n;
    Address::from_bytes(bytes)
}

fn item(n: u64) -> U256 {
    U256::from_u64(n)
}

fn setup() -> Erc721 {
    let mut registry = Erc721::new(Erc721Params::new("Safe", "SAFE"));
    registry.mint(wallet(1), item(1)).unwrap();
    registry.mint(wallet(1), item(2)).unwrap();
    registry
}

fn begin(registry: &mut Erc721, to: Address, token_id: U256) -> erc721::PendingReceipt {
    match registry.safeTransferFrom(wallet(1), wallet(1), to, token_id, true) {
        Ok(SafeTransfer::AwaitingReceiver(pending)) => pending,
        Ok(SafeTransfer::Completed(_)) => panic!("a contract has to acknowledge"),
        Err(e) => panic!("{:?}", e),
    }
}

#[test]
fn safe_transfer_to_a_non_receiving_contract_fails_and_changes_nothing() {
    let contract = wallet(0xC0);
    let mut registry = setup();
    registry.approve(wallet(1), wallet(7), item(1)).unwrap();

    let pending = begin(&mut registry, contract, item(1));
    let result = registry.finish_safe_transfer(pending, ReceiverReply::NotImplemented);

    assert_eq!(result, Err(Erc721Error::InvalidReceiver { receiver: contract }));
    assert_eq!(registry.ownerOf(item(1)), Ok(wallet(1)));
    assert_eq!(registry.balanceOf(wallet(1)), Ok(item(2)));
    assert_eq!(registry.balanceOf(contract), Ok(item(0)));
    assert_eq!(registry.getApproved(item(1)), Ok(wallet(7)));
}

#[test]
fn safe_transfer_fails_when_the_hook_reverts() {
    let contract = wallet(0xC0);
    let mut registry = setup();
    let pending = begin(&mut registry, contract, item(1));
    assert_eq!(
        registry.finish_safe_transfer(pending, ReceiverReply::Reverted),
        Err(Erc721Error::InvalidReceiver { receiver: contract })
    );
    assert_eq!(registry.ownerOf(item(1)), Ok(wallet(1)));
    assert_eq!(registry.balanceOf(wallet(1)), Ok(item(2)));
}

#[test]
fn safe_transfer_fails_on_a_wrong_return_value() {
    let contract = wallet(0xC0);
    for wrong in [[0u8; 4], [0x15, 0x0b, 0x7a, 0x03], [0x02, 0x7a, 0x0b, 0x15], [0xff; 4]] {
        let mut registry = setup();
        let pending = begin(&mut registry, contract, item(1));
        assert_eq!(
            registry.finish_safe_transfer(pending, ReceiverReply::Returned(wrong)),
            Err(Erc721Error::InvalidReceiver { receiver: contract })
        );
        assert_eq!(registry.ownerOf(item(1)), Ok(wallet(1)));
        assert_eq!(registry.balanceOf(contract), Ok(item(0)));
    }
}

#[test]
fn safe_transfer_succeeds_when_the_receiver_acknowledges() {
    let contract = wallet(0xC0);
    let mut registry = setup();
    let pending = begin(&mut registry, contract, item(1));
    // the token has moved before the receiver is asked
    assert_eq!(registry.ownerOf(item(1)), Ok(contract));
    assert_eq!(registry.balanceOf(contract), Ok(item(1)));
    assert_eq!(
        pending.transfer_event(),
        Event::Transfer { from: wallet(1), to: contract, token_id: item(1) }
    );

    let result = registry.finish_safe_transfer(pending, ReceiverReply::Returned(ACKNOWLEDGMENT));

    assert_eq!(
        result,
        Ok(Event::Transfer { from: wallet(1), to: contract, token_id: item(1) })
    );
    assert_eq!(registry.ownerOf(item(1)), Ok(contract));
    assert_eq!(registry.balanceOf(wallet(1)), Ok(item(1)));
    assert_eq!(registry.balanceOf(contract), Ok(item(1)));
}

#[test]
fn safe_transfer_to_a_plain_account_needs_no_acknowledgment() {
    let mut registry = setup();
    match registry.safeTransferFrom(wallet(1), wallet(1), wallet(2), item(1), false) {
        Ok(SafeTransfer::Completed(event)) => assert_eq!(
            event,
            Event::Transfer { from: wallet(1), to: wallet(2), token_id: item(1) }
        ),
        _ => panic!("the transfer is final at once"),
    }
    assert_eq!(registry.ownerOf(item(1)), Ok(wallet(2)));
}

#[test]
fn safe_transfer_names_the_call_to_make() {
    let contract = wallet(0xC0);
    let mut registry = setup();
    registry.setApprovalForAll(wallet(1), wallet(5), true).unwrap();
    let data = vec![1u8, 2, 3];
    let step = registry.safeTransferFromWithData(
        wallet(5),
        wallet(1),
        contract,
        item(2),
        data.clone(),
        true,
    );
    let pending = match step {
        Ok(SafeTransfer::AwaitingReceiver(pending)) => pending,
        _ => panic!("a contract has to acknowledge"),
    };
    let call = pending.receiver_call();
    assert_eq!(call.receiver, contract);
    assert_eq!(call.operator, wallet(5));
    assert_eq!(call.from, wallet(1));
    assert_eq!(call.token_id, item(2));
    assert_eq!(call.data, data);
}

#[test]
fn safe_transfer_without_data_passes_no_bytes() {
    let mut registry = setup();
    let pending = begin(&mut registry, wallet(0xC0), item(2));
    assert!(pending.receiver_call().data.is_empty());
    assert_eq!(pending.receiver_call().operator, wallet(1));
}

#[test]
fn safe_transfer_fails_as_a_transfer_fails() {
    let mut registry = setup();
    let zero = Address::zero_address();
    for to_is_contract in [false, true] {
        assert!(matches!(
            registry.safeTransferFrom(wallet(1), wallet(1), wallet(2), item(9), to_is_contract),
            Err(Erc721Error::NonexistentToken { token_id }) if token_id == item(9)
        ));
        assert!(matches!(
            registry.safeTransferFrom(wallet(1), wallet(2), wallet(3), item(1), to_is_contract),
            Err(Erc721Error::IncorrectOwner { sender, token_id, owner })
                if sender == wallet(2) && token_id == item(1) && owner == wallet(1)
        ));
        assert!(matches!(
            registry.safeTransferFrom(wallet(1), wallet(1), zero, item(1), to_is_contract),
            Err(Erc721Error::InvalidReceiver { receiver }) if receiver == zero
        ));
        assert!(matches!(
            registry.safeTransferFromWithData(
                wallet(4),
                wallet(1),
                wallet(2),
                item(1),
                vec![9],
                to_is_contract
            ),
            Err(Erc721Error::InsufficientApproval { operator, token_id })
                if operator == wallet(4) && token_id == item(1)
        ));
    }
    assert_eq!(registry.ownerOf(item(1)), Ok(wallet(1)));
    assert_eq!(registry.balanceOf(wallet(1)), Ok(item(2)));
}

#[test]
fn what_the_receiver_did_stays_when_it_acknowledges() {
    let contract = wallet(0xC0);
    let mut registry = setup();
    let pending = begin(&mut registry, contract, item(1));
    // during its hook the receiver passes the token on
    registry.transferFrom(contract, contract, wallet(3), item(1)).unwrap();

    let result = registry.finish_safe_transfer(pending, ReceiverReply::Returned(ACKNOWLEDGMENT));

    assert!(result.is_ok());
    assert_eq!(registry.ownerOf(item(1)), Ok(wallet(3)));
    assert_eq!(registry.balanceOf(contract), Ok(item(0)));
    assert_eq!(registry.balanceOf(wallet(3)), Ok(item(1)));
    assert_eq!(registry.balanceOf(wallet(1)), Ok(item(1)));
}

#[test]
fn what_the_receiver_did_is_undone_when_it_refuses() {
    let contract = wallet(0xC0);
    let mut registry = setup();
    let pending = begin(&mut registry, contract, item(1));
    // during its hook the receiver passes the token on and names an operator
    registry.transferFrom(contract, contract, wallet(3), item(1)).unwrap();
    registry.setApprovalForAll(contract, wallet(4), true).unwrap();

    let result = registry.finish_safe_transfer(pending, ReceiverReply::Reverted);

    assert_eq!(result, Err(Erc721Error::InvalidReceiver { receiver: contract }));
    assert_eq!(registry.ownerOf(item(1)), Ok(wallet(1)));
    assert_eq!(registry.balanceOf(wallet(1)), Ok(item(2)));
    assert_eq!(registry.balanceOf(wallet(3)), Ok(item(0)));
    assert_eq!(registry.balanceOf(contract), Ok(item(0)));
    assert!(!registry.isApprovedForAll(contract, wallet(4)));
}

#[test]
fn only_the_acknowledgment_value_is_accepted() {
    assert!(ReceiverReply::Returned(ACKNOWLEDGMENT).is_accepted());
    assert!(!ReceiverReply::Returned([0x15, 0x0b, 0x7a, 0x00]).is_accepted());
    assert!(!ReceiverReply::Returned([0x00, 0x0b, 0x7a, 0x02]).is_accepted());
    assert!(!ReceiverReply::Returned([0x15, 0x00, 0x7a, 0x02]).is_accepted());
    assert!(!ReceiverReply::Returned([0x15, 0x0b, 0x00, 0x02]).is_accepted());
    assert!(!ReceiverReply::Reverted.is_accepted());
    assert!(!ReceiverReply::NotImplemented.is_accepted());
}
