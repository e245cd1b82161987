use substrate_kitties::origin::Origin;
use substrate_kitties::poe::{PoeError, PoeEvent, PoeModule};

/// The block the test runtime stands at.
const BLOCK: u64 = 0;

fn new_module() -> PoeModule {
    PoeModule::new(10)
}

#[test]
fn creat_claim_works() {
    let mut poe = new_module();
    let claim = vec![0, 1];
    assert!(poe.create_claim(Origin::signed(1), claim.clone(), BLOCK).is_ok());
    assert_eq!(poe.get_proof(&claim), (1, BLOCK));
}

#[test]
fn creat_claim_exist() {
    let mut poe = new_module();
    let claim = vec![0, 1];
    let _ = poe.create_claim(Origin::signed(1), claim.clone(), BLOCK);
    let before = poe.get_proof(&claim);
    assert_eq!(
        poe.create_claim(Origin::signed(1), claim.clone(), BLOCK),
        Err(PoeError::ClaimAlreadyClaimed)
    );
    assert_eq!(poe.get_proof(&claim), before);
}

#[test]
fn revoke_claim_works() {
    let mut poe = new_module();
    let claim = vec![0, 1];
    let _ = poe.create_claim(Origin::signed(1), claim.clone(), BLOCK);
    assert!(poe.revoke_claim(Origin::signed(1), claim.clone()).is_ok());
}

#[test]
fn create_claim_event_and_errors() {
    let mut poe = new_module();
    assert_eq!(
        poe.create_claim(Origin::signed(4), vec![7, 7, 7], 3),
        Ok(PoeEvent::ClaimCreated(4, vec![7, 7, 7]))
    );
    assert_eq!(poe.create_claim(Origin::Root, vec![1], 3), Err(PoeError::BadOrigin));
    assert_eq!(
        poe.create_claim(Origin::signed(4), vec![0; 11], 3),
        Err(PoeError::TooLongClaim)
    );
    assert!(poe.create_claim(Origin::signed(4), vec![0; 10], 3).is_ok());
    assert!(!poe.contains_claim(&[0; 11]));
    assert!(poe.contains_claim(&[0; 10]));
    assert_eq!(
        poe.create_claim(Origin::signed(5), vec![7, 7, 7], 9),
        Err(PoeError::ClaimAlreadyClaimed)
    );
    assert_eq!(poe.get_proof(&[7, 7, 7]), (4, 3));
}

#[test]
fn revoke_claim_errors_and_undo() {
    let mut poe = new_module();
    assert_eq!(poe.revoke_claim(Origin::signed(1), vec![1, 2]), Err(PoeError::NoSuchClaim));
    let _ = poe.create_claim(Origin::signed(1), vec![1, 2], 5);
    let _ = poe.create_claim(Origin::signed(2), vec![3], 5);
    assert_eq!(poe.revoke_claim(Origin::signed(2), vec![1, 2]), Err(PoeError::NotClaimOwner));
    assert_eq!(poe.revoke_claim(Origin::Unsigned, vec![1, 2]), Err(PoeError::BadOrigin));
    assert_eq!(
        poe.revoke_claim(Origin::signed(1), vec![1, 2]),
        Ok(PoeEvent::ClaimRevoked(1, vec![1, 2]))
    );
    assert!(!poe.contains_claim(&[1, 2]));
    assert_eq!(poe.get_proof(&[1, 2]), (0, 0));
    assert_eq!(poe.get_proof(&[3]), (2, 5));
    // the claim can be made again once revoked
    assert!(poe.create_claim(Origin::signed(2), vec![1, 2], 6).is_ok());
    assert_eq!(poe.get_proof(&[1, 2]), (2, 6));
}

#[test]
fn transfer_claim_moves_ownership() {
    let mut poe = new_module();
    assert_eq!(poe.transfer_claim(Origin::signed(1), vec![4], 2, 1), Err(PoeError::ClaimAlreadyClaimed));
    let _ = poe.create_claim(Origin::signed(1), vec![4], 1);
    assert_eq!(poe.transfer_claim(Origin::signed(2), vec![4], 2, 2), Err(PoeError::NotClaimOwner));
    assert_eq!(poe.transfer_claim(Origin::signed(1), vec![4], 2, 3), Ok(()));
    assert_eq!(poe.get_proof(&[4]), (2, 3));
    assert_eq!(poe.revoke_claim(Origin::signed(1), vec![4]), Err(PoeError::NotClaimOwner));
    assert_eq!(poe.transfer_claim(Origin::signed(2), vec![4], 1, 4), Ok(()));
    assert_eq!(poe.get_proof(&[4]), (1, 4));
}

#[test]
fn transfer_claim_works() {
    let mut poe = new_module();
    let claim = vec![0, 1];
    let _ = poe.create_claim(Origin::signed(1), claim.clone(), BLOCK);
    assert!(poe.transfer_claim(Origin::signed(1), claim.clone(), 2, BLOCK).is_ok());
    // the record holds the new owner and the block of the transfer
    assert_eq!(poe.get_proof(&claim), (2, BLOCK));
}

#[test]
fn transfer_claim_failed_when_claim_is_not_exist() {
    let mut poe = new_module();
    let claim = vec![0, 1];
    assert_eq!(
        poe.transfer_claim(Origin::signed(1), claim.clone(), 2, BLOCK),
        Err(PoeError::ClaimAlreadyClaimed)
    );
    assert!(!poe.contains_claim(&claim));
}

#[test]
fn transfer_claim_failed_with_wrong_owner() {
    let mut poe = new_module();
    let claim = vec![0, 1];
    let _ = poe.create_claim(Origin::signed(1), claim.clone(), BLOCK);
    // only the owner may transfer; account 2 does not own the claim
    assert_eq!(
        poe.transfer_claim(Origin::signed(2), claim.clone(), 3, BLOCK),
        Err(PoeError::NotClaimOwner)
    );
    assert_eq!(poe.get_proof(&claim), (1, BLOCK));
}
