use escrow::addresses::{derive_offer_address, derive_vault_address};
use escrow::engine::{Escrow, MakeOffer, RefundOffer, TakeOffer};
use escrow::errors::EscrowError;

const ALICE: u64 = 1;
const BOB: u64 = 2;
const MINT_A: u64 = 101;
const MINT_B: u64 = 102;

fn test_authority() -> Vec<u8> {
    vec![8u8; 32]
}

fn new_engine() -> Escrow {
    Escrow::new(test_authority())
}

fn offer_and_vault(id: u64, asset_a: u64) -> (Vec<u8>, Vec<u8>) {
    let authority = test_authority();
    let offer_address = derive_offer_address(&authority, id).unwrap();
    let vault_address = derive_vault_address(&authority, &offer_address, asset_a).unwrap();
    (offer_address, vault_address)
}

fn make_request(id: u64, maker: u64, offered: u64, wanted: u64) -> MakeOffer {
    MakeOffer {
        id,
        maker,
        asset_a: MINT_A,
        asset_b: MINT_B,
        amount_a_offered: offered,
        amount_b_wanted: wanted,
    }
}

#[test]
fn valid_make_debits_exactly_the_offered_amount() {
    let mut engine = new_engine();
    let mut alice_a: u64 = 10;
    let request = make_request(1, ALICE, 3, 2);
    assert_eq!(engine.make_offer(&request, &mut alice_a), Ok(()));
    assert_eq!(alice_a, 7);
    assert_eq!(engine.open_offer_count(), 1);
    let (offer_address, _) = offer_and_vault(1, MINT_A);
    let record = engine.offer_record(&offer_address).unwrap();
    assert_eq!(record.id, 1);
    assert_eq!(record.maker, ALICE);
    assert_eq!(record.asset_a, MINT_A);
    assert_eq!(record.asset_b, MINT_B);
    assert_eq!(record.amount_a_offered, 3);
    assert_eq!(record.amount_b_wanted, 2);
}

#[test]
fn same_mint_is_rejected_with_invalid_same_mint() {
    let mut engine = new_engine();
    let mut alice_a: u64 = 10;
    let request = MakeOffer {
        id: 1,
        maker: ALICE,
        asset_a: MINT_A,
        asset_b: MINT_A,
        amount_a_offered: 3,
        amount_b_wanted: 2,
    };
    assert_eq!(
        engine.make_offer(&request, &mut alice_a),
        Err(EscrowError::InvalidSameMint)
    );
    assert_eq!(alice_a, 10);
    assert_eq!(engine.open_offer_count(), 0);
}

#[test]
fn zero_offered_amount_is_rejected_with_invalid_offered_amount() {
    let mut engine = new_engine();
    let mut alice_a: u64 = 10;
    let request = make_request(1, ALICE, 0, 2);
    assert_eq!(
        engine.make_offer(&request, &mut alice_a),
        Err(EscrowError::InvalidOfferedAmount)
    );
    assert_eq!(alice_a, 10);
}

#[test]
fn zero_wanted_amount_is_rejected_with_invalid_wanted_amount() {
    let mut engine = new_engine();
    let mut alice_a: u64 = 10;
    let request = make_request(1, ALICE, 3, 0);
    assert_eq!(
        engine.make_offer(&request, &mut alice_a),
        Err(EscrowError::InvalidWantedAmount)
    );
    assert_eq!(alice_a, 10);
}

#[test]
fn duplicate_id_is_rejected_and_first_offer_is_unchanged() {
    let mut engine = new_engine();
    let mut alice_a: u64 = 10;
    let first = make_request(1, ALICE, 3, 2);
    assert_eq!(engine.make_offer(&first, &mut alice_a), Ok(()));

    let mut bob_a: u64 = 100;
    let second = make_request(1, BOB, 4, 5);
    assert_eq!(
        engine.make_offer(&second, &mut bob_a),
        Err(EscrowError::DuplicateOfferId)
    );
    assert_eq!(bob_a, 100);
    assert_eq!(engine.open_offer_count(), 1);

    // The first call's record is untouched by the failed second call.
    let (offer_address, _) = offer_and_vault(1, MINT_A);
    let record = engine.offer_record(&offer_address).unwrap();
    assert_eq!(record.maker, ALICE);
    assert_eq!(record.amount_a_offered, 3);
    assert_eq!(record.amount_b_wanted, 2);
}

#[test]
fn underfunded_make_is_rejected_with_insufficient_funds() {
    let mut engine = new_engine();
    let mut alice_a: u64 = 2;
    let request = make_request(1, ALICE, 3, 2);
    assert_eq!(
        engine.make_offer(&request, &mut alice_a),
        Err(EscrowError::InsufficientFunds)
    );
    // Never partially debited.
    assert_eq!(alice_a, 2);
    assert_eq!(engine.open_offer_count(), 0);
}

#[test]
fn take_applies_all_four_effects_together() {
    let mut engine = new_engine();
    let mut alice_a: u64 = 10;
    let mut alice_b: u64 = 0;
    let mut bob_a: u64 = 0;
    let mut bob_b: u64 = 5;
    let request = make_request(1, ALICE, 3, 2);
    assert_eq!(engine.make_offer(&request, &mut alice_a), Ok(()));

    let (offer_address, vault_address) = offer_and_vault(1, MINT_A);
    let take = TakeOffer {
        taker: BOB,
        offer_address: offer_address.clone(),
        vault_address,
    };
    assert_eq!(
        engine.take_offer(&take, &mut bob_a, &mut bob_b, &mut alice_b),
        Ok(())
    );
    assert_eq!(bob_a, 3);
    assert_eq!(bob_b, 3);
    assert_eq!(alice_b, 2);
    assert_eq!(alice_a, 7);
    assert!(!engine.is_open(&offer_address));
    assert_eq!(engine.open_offer_count(), 0);
}

#[test]
fn underfunded_take_is_rejected_and_nothing_moves() {
    let mut engine = new_engine();
    let mut alice_a: u64 = 10;
    let mut alice_b: u64 = 0;
    let mut bob_a: u64 = 0;
    let mut bob_b: u64 = 1;
    let request = make_request(1, ALICE, 3, 2);
    assert_eq!(engine.make_offer(&request, &mut alice_a), Ok(()));

    let (offer_address, vault_address) = offer_and_vault(1, MINT_A);
    let take = TakeOffer {
        taker: BOB,
        offer_address: offer_address.clone(),
        vault_address,
    };
    assert_eq!(
        engine.take_offer(&take, &mut bob_a, &mut bob_b, &mut alice_b),
        Err(EscrowError::InsufficientFunds)
    );
    // The offer remains open and all four balances are unchanged.
    assert!(engine.is_open(&offer_address));
    assert_eq!(alice_a, 7);
    assert_eq!(alice_b, 0);
    assert_eq!(bob_a, 0);
    assert_eq!(bob_b, 1);
}

#[test]
fn non_maker_refund_is_rejected_with_unauthorized() {
    let mut engine = new_engine();
    let mut alice_a: u64 = 10;
    let request = make_request(1, ALICE, 3, 2);
    assert_eq!(engine.make_offer(&request, &mut alice_a), Ok(()));

    let (offer_address, vault_address) = offer_and_vault(1, MINT_A);
    let refund = RefundOffer {
        caller: BOB,
        offer_address: offer_address.clone(),
        vault_address,
    };
    assert_eq!(
        engine.refund_offer(&refund, &mut alice_a),
        Err(EscrowError::Unauthorized)
    );
    assert_eq!(alice_a, 7);
    assert!(engine.is_open(&offer_address));
}

#[test]
fn take_with_wrong_vault_address_is_rejected_with_address_mismatch() {
    let mut engine = new_engine();
    let mut alice_a: u64 = 10;
    let mut alice_b: u64 = 0;
    let mut bob_a: u64 = 0;
    let mut bob_b: u64 = 5;
    let request = make_request(1, ALICE, 3, 2);
    assert_eq!(engine.make_offer(&request, &mut alice_a), Ok(()));

    // Substitute the vault of a different asset for the canonical one.
    let (offer_address, _) = offer_and_vault(1, MINT_A);
    let (_, wrong_vault) = offer_and_vault(1, MINT_B);
    let take = TakeOffer {
        taker: BOB,
        offer_address: offer_address.clone(),
        vault_address: wrong_vault,
    };
    assert_eq!(
        engine.take_offer(&take, &mut bob_a, &mut bob_b, &mut alice_b),
        Err(EscrowError::AddressMismatch)
    );
    assert!(engine.is_open(&offer_address));
    assert_eq!((alice_a, alice_b, bob_a, bob_b), (7, 0, 0, 5));
}

#[test]
fn refund_with_wrong_vault_address_is_rejected_with_address_mismatch() {
    let mut engine = new_engine();
    let mut alice_a: u64 = 10;
    let request = make_request(1, ALICE, 3, 2);
    assert_eq!(engine.make_offer(&request, &mut alice_a), Ok(()));

    let (offer_address, _) = offer_and_vault(1, MINT_A);
    let (_, wrong_vault) = offer_and_vault(1, MINT_B);
    let refund = RefundOffer {
        caller: ALICE,
        offer_address: offer_address.clone(),
        vault_address: wrong_vault,
    };
    assert_eq!(
        engine.refund_offer(&refund, &mut alice_a),
        Err(EscrowError::AddressMismatch)
    );
    assert_eq!(alice_a, 7);
    assert!(engine.is_open(&offer_address));
}

#[test]
fn closed_offer_rejects_take_refund_and_frees_the_address() {
    let mut engine = new_engine();
    let mut alice_a: u64 = 10;
    let mut alice_b: u64 = 0;
    let mut bob_a: u64 = 0;
    let mut bob_b: u64 = 5;
    let request = make_request(1, ALICE, 3, 2);
    assert_eq!(engine.make_offer(&request, &mut alice_a), Ok(()));

    let (offer_address, vault_address) = offer_and_vault(1, MINT_A);
    let refund = RefundOffer {
        caller: ALICE,
        offer_address: offer_address.clone(),
        vault_address: vault_address.clone(),
    };
    assert_eq!(engine.refund_offer(&refund, &mut alice_a), Ok(()));
    assert_eq!(alice_a, 10);
    assert!(!engine.is_open(&offer_address));

    // Closed is terminal: the same id can no longer be taken or refunded.
    let take = TakeOffer {
        taker: BOB,
        offer_address: offer_address.clone(),
        vault_address: vault_address.clone(),
    };
    assert_eq!(
        engine.take_offer(&take, &mut bob_a, &mut bob_b, &mut alice_b),
        Err(EscrowError::AddressMismatch)
    );
    let refund_again = RefundOffer {
        caller: ALICE,
        offer_address: offer_address.clone(),
        vault_address,
    };
    assert_eq!(
        engine.refund_offer(&refund_again, &mut alice_a),
        Err(EscrowError::AddressMismatch)
    );

    // Once closed, the derived address is free for a fresh Make.
    assert_eq!(engine.make_offer(&request, &mut alice_a), Ok(()));
    assert!(engine.is_open(&offer_address));
}

#[test]
fn make_and_refund_work_at_the_largest_amounts() {
    let mut engine = new_engine();
    let mut alice_a: u64 = u64::MAX;
    let request = make_request(1, ALICE, u64::MAX, u64::MAX);
    assert_eq!(engine.make_offer(&request, &mut alice_a), Ok(()));
    assert_eq!(alice_a, 0);

    let (offer_address, vault_address) = offer_and_vault(1, MINT_A);
    let refund = RefundOffer {
        caller: ALICE,
        offer_address,
        vault_address,
    };
    assert_eq!(engine.refund_offer(&refund, &mut alice_a), Ok(()));
    assert_eq!(alice_a, u64::MAX);
}
