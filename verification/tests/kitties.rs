use std::collections::HashMap;

use substrate_kitties::hashing::{encode_payload, random_value};
use substrate_kitties::kitties::{
    combine_dna, CurrencyError, Kitty, KittiesModule, KittyError, KittyEvent, STAKING_MONEY,
};
use substrate_kitties::mock::{run_to_block, Test};
use substrate_kitties::origin::Origin;

/// The balances of the test runtime: free and reserved funds per account.
struct TestBalances {
    free: HashMap<u64, u64>,
    reserved: HashMap<u64, u64>,
}

impl TestBalances {
    fn genesis() -> Self {
        let mut free = HashMap::new();
        for (who, amount) in Test::genesis_balances() {
            free.insert(who, amount);
        }
        TestBalances { free, reserved: HashMap::new() }
    }

    fn free(&self, who: u64) -> u64 {
        *self.free.get(&who).unwrap_or(&0)
    }

    fn reserved(&self, who: u64) -> u64 {
        *self.reserved.get(&who).unwrap_or(&0)
    }
}

impl TestBalances {
    fn reserve(&mut self, who: u64, value: u64) -> Result<(), CurrencyError> {
        let free = self.free(who);
        if free < value {
            return Err(CurrencyError::InsufficientBalance);
        }
        let reserved = self.reserved(who).checked_add(value).ok_or(CurrencyError::Overflow)?;
        self.free.insert(who, free - value);
        self.reserved.insert(who, reserved);
        Ok(())
    }
}

/// Creates a kitty as the runtime does: the checks, then the deposit, then the storage.
fn create_kitty(
    kitties: &mut KittiesModule,
    balances: &mut TestBalances,
    origin: Origin,
    seed: &[u8; 32],
    extrinsic_index: Option<u32>,
) -> Result<KittyEvent, KittyError> {
    let deposit = match kitties.create_check(origin) {
        Ok((sender, _, _)) => balances.reserve(sender, STAKING_MONEY),
        Err(_) => Ok(()),
    };
    kitties.create(origin, seed, extrinsic_index, deposit)
}

/// The random seed of the test runtime, where no block hashes have been collected.
const SEED: [u8; 32] = [0u8; 32];

/// The storage of the test runtime at block 1, moved on to block 10.
fn new_test_ext() -> (KittiesModule, TestBalances) {
    let hooks = run_to_block(1, 10);
    assert_eq!(hooks.len(), 45);
    (KittiesModule::new(), TestBalances::genesis())
}

#[test]
fn owned_kitties_can_append_values() {
    let (mut kitties, mut balances) = new_test_ext();
    assert_eq!(
        create_kitty(&mut kitties, &mut balances, Origin::signed(1), &SEED, None).map(|_| ()),
        Ok(())
    );
}

#[test]
fn is_create_works() {
    let (mut kitties, mut balances) = new_test_ext();
    let r = create_kitty(&mut kitties, &mut balances, Origin::signed(1), &SEED, None);
    assert!(r.is_ok());
    assert_eq!(r, Ok(KittyEvent::Created(1, 0)));
}

#[test]
fn is_transfer_works() {
    let (mut kitties, mut balances) = new_test_ext();
    let _ = create_kitty(&mut kitties, &mut balances, Origin::signed(1), &SEED, None);
    assert!(kitties.transfer(Origin::signed(1), 3, 0).is_ok());
}

#[test]
fn is_breed_works() {
    let (mut kitties, mut balances) = new_test_ext();
    let _ = create_kitty(&mut kitties, &mut balances, Origin::signed(1), &SEED, None);
    let _ = create_kitty(&mut kitties, &mut balances, Origin::signed(1), &SEED, None);
    assert_eq!(kitties.breed(Origin::signed(1), 0, 1, &SEED, None), Ok(()));
}

#[test]
fn create_stores_kitty_and_reserves_deposit() {
    let (mut kitties, mut balances) = new_test_ext();
    let free_before = balances.free(1);
    assert_eq!(
        create_kitty(&mut kitties, &mut balances, Origin::signed(1), &SEED, Some(2)),
        Ok(KittyEvent::Created(1, 0))
    );
    assert_eq!(kitties.kitties_count(), 1);
    assert_eq!(kitties.kitty_owner(0), Some(1));
    assert_eq!(kitties.owned_kitty_count(1), 1);
    assert_eq!(kitties.kitties(0), Some(Kitty(random_value(&SEED, 1, Some(2)))));
    assert_eq!(balances.free(1), free_before - STAKING_MONEY);
    assert_eq!(balances.reserved(1), STAKING_MONEY);
    assert_eq!(
        create_kitty(&mut kitties, &mut balances, Origin::signed(2), &SEED, None),
        Ok(KittyEvent::Created(2, 1))
    );
    assert_eq!(kitties.kitties_count(), 2);
    assert_eq!(kitties.owned_kitty_count(2), 1);
}

#[test]
fn create_needs_signed_origin() {
    let (mut kitties, mut balances) = new_test_ext();
    assert_eq!(create_kitty(&mut kitties, &mut balances, Origin::Root, &SEED, None), Err(KittyError::BadOrigin));
    assert_eq!(create_kitty(&mut kitties, &mut balances, Origin::Unsigned, &SEED, None), Err(KittyError::BadOrigin));
    assert_eq!(kitties.kitties_count(), 0);
}

#[test]
fn create_fails_without_funds_and_stores_nothing() {
    let (mut kitties, mut balances) = new_test_ext();
    assert_eq!(
        create_kitty(&mut kitties, &mut balances, Origin::signed(9), &SEED, None),
        Err(KittyError::Currency(CurrencyError::InsufficientBalance))
    );
    assert_eq!(kitties.kitties_count(), 0);
    assert_eq!(kitties.kitties(0), None);
    assert_eq!(kitties.owned_kitty_count(9), 0);
}

#[test]
fn create_passes_the_currency_refusal_on() {
    let mut kitties = KittiesModule::new();
    assert_eq!(kitties.create_check(Origin::signed(1)), Ok((1, 0, 1)));
    assert_eq!(
        kitties.create(Origin::signed(1), &SEED, None, Err(CurrencyError::LiquidityRestrictions)),
        Err(KittyError::Currency(CurrencyError::LiquidityRestrictions))
    );
    assert_eq!(kitties.kitties_count(), 0);
    assert_eq!(
        kitties.create(Origin::Root, &SEED, None, Ok(())),
        Err(KittyError::BadOrigin)
    );
    assert_eq!(kitties.create(Origin::signed(1), &SEED, None, Ok(())), Ok(KittyEvent::Created(1, 0)));
    assert_eq!(kitties.create_check(Origin::signed(1)), Ok((1, 1, 2)));
}

#[test]
fn transfer_errors() {
    let (mut kitties, mut balances) = new_test_ext();
    assert_eq!(kitties.transfer(Origin::signed(1), 2, 0), Err(KittyError::InvalidKittyId));
    let _ = create_kitty(&mut kitties, &mut balances, Origin::signed(1), &SEED, None);
    assert_eq!(kitties.transfer(Origin::signed(2), 3, 0), Err(KittyError::NotKittyOwner));
    assert_eq!(kitties.transfer(Origin::Root, 3, 0), Err(KittyError::BadOrigin));
    assert_eq!(kitties.kitty_owner(0), Some(1));
}

#[test]
fn transfer_and_back() {
    let (mut kitties, mut balances) = new_test_ext();
    let _ = create_kitty(&mut kitties, &mut balances, Origin::signed(1), &SEED, None);
    assert_eq!(kitties.transfer(Origin::signed(1), 3, 0), Ok(KittyEvent::Transferred(1, 3, 0)));
    assert_eq!(kitties.kitty_owner(0), Some(3));
    assert_eq!(kitties.transfer(Origin::signed(1), 2, 0), Err(KittyError::NotKittyOwner));
    assert_eq!(kitties.transfer(Origin::signed(3), 1, 0), Ok(KittyEvent::Transferred(3, 1, 0)));
    assert_eq!(kitties.kitty_owner(0), Some(1));
    assert_eq!(kitties.kitties_count(), 1);
}

#[test]
fn breed_errors() {
    let (mut kitties, mut balances) = new_test_ext();
    let _ = create_kitty(&mut kitties, &mut balances, Origin::signed(1), &SEED, None);
    assert_eq!(kitties.breed(Origin::signed(1), 0, 5, &SEED, None), Err(KittyError::InvalidKittyId));
    assert_eq!(kitties.breed(Origin::signed(1), 5, 0, &SEED, None), Err(KittyError::InvalidKittyId));
    assert_eq!(kitties.breed(Origin::signed(1), 0, 0, &SEED, None), Err(KittyError::RequireDifferentParent));
    assert_eq!(kitties.breed(Origin::Unsigned, 0, 1, &SEED, None), Err(KittyError::BadOrigin));
    assert_eq!(kitties.kitties_count(), 1);
}

#[test]
fn breed_mixes_parent_dna() {
    let (mut kitties, mut balances) = new_test_ext();
    let _ = create_kitty(&mut kitties, &mut balances, Origin::signed(1), &SEED, Some(0));
    let _ = create_kitty(&mut kitties, &mut balances, Origin::signed(1), &SEED, Some(1));
    let dna1 = kitties.kitties(0).unwrap().0;
    let dna2 = kitties.kitties(1).unwrap().0;
    assert_eq!(kitties.do_breed(2, 0, 1, &SEED, Some(3)), Ok(2));
    let selector = random_value(&SEED, 2, Some(3));
    let child = kitties.kitties(2).unwrap().0;
    for i in 0..16 {
        assert_eq!(child[i], (selector[i] & dna1[i]) | (!selector[i] & dna2[i]));
    }
    assert_eq!(kitties.kitty_owner(2), Some(2));
    assert_eq!(kitties.kitties_count(), 3);
    // breeding stores no deposit and leaves the creation counts alone
    assert_eq!(kitties.owned_kitty_count(2), 0);
}

#[test]
fn insert_kitty_sets_count_and_owner() {
    let mut kitties = KittiesModule::new();
    kitties.insert_kitty(7, 4, Kitty([9u8; 16]));
    assert_eq!(kitties.kitties_count(), 5);
    assert_eq!(kitties.kitty_owner(4), Some(7));
    assert_eq!(kitties.kitties(4), Some(Kitty([9u8; 16])));
    assert_eq!(kitties.next_kitty_id(), Ok(5));
    kitties.insert_kitty(7, u32::MAX - 1, Kitty([0u8; 16]));
    assert_eq!(kitties.next_kitty_id(), Err(KittyError::KittiesCountOverFlow));
}

#[test]
fn combine_dna_values() {
    assert_eq!(combine_dna(0b1010_1010, 0b0101_0101, 0b1111_0000), 0b1010_0101);
    assert_eq!(combine_dna(0x12, 0x34, 0xff), 0x12);
    assert_eq!(combine_dna(0x12, 0x34, 0x00), 0x34);
    assert_eq!(combine_dna(0x5a, 0x5a, 0x3c), 0x5a);
}

#[test]
fn random_value_hashes_scale_payload() {
    let mut seed = [0u8; 32];
    seed[0] = 0xaa;
    seed[31] = 0x01;
    let mut payload = seed.to_vec();
    payload.extend_from_slice(&[0x02, 0x01, 0, 0, 0, 0, 0, 0]);
    payload.extend_from_slice(&[1, 0x05, 0, 0, 0]);
    assert_eq!(random_value(&seed, 0x0102, Some(5)), sp_io::hashing::blake2_128(&payload));
    let mut payload_none = seed.to_vec();
    payload_none.extend_from_slice(&[0x02, 0x01, 0, 0, 0, 0, 0, 0]);
    payload_none.push(0);
    assert_eq!(random_value(&seed, 0x0102, None), sp_io::hashing::blake2_128(&payload_none));
    assert_ne!(random_value(&seed, 0x0102, None), random_value(&seed, 0x0103, None));
}

#[test]
fn blake2_128_known_digest() {
    // BLAKE2b with a 16-byte digest of the empty input
    assert_eq!(
        sp_io::hashing::blake2_128(&[]),
        [0xca, 0xe6, 0x69, 0x41, 0xd9, 0xef, 0xbd, 0x40, 0x4e, 0x4d, 0x88, 0x75, 0x8e, 0xa6, 0x76, 0x70]
    );
}

#[test]
fn payload_encoding_matches_scale() {
    let mut seed = [0u8; 32];
    seed[3] = 7;
    for (who, index) in [(0u64, None), (1u64, Some(0u32)), (u64::MAX, Some(u32::MAX)), (0x0102_0304_0506_0708, Some(0x0a0b_0c0d))] {
        let expected = parity_scale_codec::Encode::encode(&(sp_core::H256::from(seed), &who, index));
        assert_eq!(encode_payload(&seed, who, index), expected);
    }
}
