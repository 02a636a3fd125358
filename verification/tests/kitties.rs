use kitties::dna::mix_dna;
use kitties::genesis::GenesisConfig;
use kitties::pallet::{kitty_id, Pallet};
use kitties::types::{
    ensure_signed, DispatchError, Entropy, Error, Event, Gender, Kitty, Origin, Payment,
};

const ALICE: u64 = 1;
const BOB: u64 = 2;
const CAROL: u64 = 3;
const MAX_OWNED: u32 = 512;

fn entropy(n: u8) -> Entropy {
    Entropy { dna_random: [n; 32], gender_random: [n; 32], block_number: n as u32 }
}

fn entropy_wide(n: u32) -> Entropy {
    let bytes = n.to_le_bytes();
    let mut dna = [0u8; 32];
    dna[..4].copy_from_slice(&bytes);
    Entropy { dna_random: dna, gender_random: dna, block_number: n }
}

fn created_id(r: Result<Event, DispatchError>) -> [u8; 32] {
    match r {
        Ok(Event::Created(_, id)) => id,
        other => panic!("unexpected outcome {:?}", other),
    }
}

#[test]
fn gender_default_is_male() {
    assert_eq!(Gender::default(), Gender::Male);
}

#[test]
fn kitty_new_is_not_for_sale() {
    let k = Kitty::new([5; 32], ALICE);
    assert_eq!(k, Kitty { dna: [5; 32], price: None, gender: Gender::Male, owner: ALICE });
}

#[test]
fn gender_follows_first_byte_parity() {
    let mut dna = [0u8; 32];
    dna[0] = 4;
    assert_eq!(Pallet::gender(dna), Gender::Male);
    dna[0] = 7;
    assert_eq!(Pallet::gender(dna), Gender::Female);
    assert_eq!(Pallet::gen_gender(&dna), Gender::Female);
}

#[test]
fn ensure_signed_accepts_only_signed() {
    assert_eq!(ensure_signed(Origin::Signed(ALICE)), Ok(ALICE));
    assert_eq!(ensure_signed(Origin::Root), Err(DispatchError::BadOrigin));
    assert_eq!(ensure_signed(Origin::Unsigned), Err(DispatchError::BadOrigin));
}

#[test]
fn kitty_id_is_blake2_of_scale_encoding() {
    let expected: [u8; 32] = [
        136, 3, 86, 80, 39, 125, 132, 53, 206, 129, 160, 178, 72, 19, 68, 56, 66, 51, 221, 248, 239,
        176, 142, 248, 77, 161, 23, 38, 223, 52, 217, 198,
    ];
    assert_eq!(kitty_id(&Kitty::new([7; 32], ALICE)), expected);
    let expected2: [u8; 32] = [
        19, 153, 38, 197, 31, 5, 255, 181, 64, 65, 26, 89, 214, 148, 204, 38, 81, 45, 76, 34, 13,
        28, 30, 180, 158, 198, 248, 92, 124, 206, 139, 190,
    ];
    let k = Kitty { dna: [7; 32], price: Some(250), gender: Gender::Female, owner: 42 };
    assert_eq!(kitty_id(&k), expected2);
}

#[test]
fn gen_dna_hashes_random_block_and_nonce() {
    let expected: [u8; 32] = [
        232, 223, 161, 183, 208, 226, 21, 180, 45, 82, 114, 210, 101, 128, 78, 70, 120, 150, 136,
        203, 218, 205, 51, 62, 34, 182, 91, 188, 42, 125, 219, 52,
    ];
    assert_eq!(Pallet::gen_dna(&[1; 32], 5, 7), expected);
    assert_ne!(Pallet::gen_dna(&[1; 32], 5, 8), expected);
}

#[test]
fn gen_dna_by_account_id_hashes_seed_account_nonce() {
    let expected: [u8; 32] = [
        180, 212, 155, 216, 110, 116, 85, 227, 27, 227, 63, 184, 92, 109, 39, 42, 84, 3, 234, 219,
        188, 162, 136, 178, 22, 138, 230, 227, 70, 133, 2, 18,
    ];
    assert_eq!(Pallet::gen_dna_by_account_id(77, &[9; 32], 3, 4), expected);
}

#[test]
fn mix_dna_takes_bits_by_selector() {
    let c = mix_dna(&[0xF0; 32], &[0xAA; 32], &[0x55; 32]);
    assert_eq!(c, [0xA5; 32]);
    let same = mix_dna(&[0x3C; 32], &[0x81; 32], &[0x81; 32]);
    assert_eq!(same, [0x81; 32]);
}

#[test]
fn create_kitty_success() {
    let mut p = Pallet::new(MAX_OWNED);
    let e = entropy(1);
    let r = p.create_kitty(Origin::Signed(ALICE), &e);
    let dna = Pallet::gen_dna(&e.dna_random, e.block_number, 0);
    let k = Kitty { dna, price: None, gender: Pallet::gen_gender(&e.gender_random), owner: ALICE };
    let id = kitty_id(&k);
    assert_eq!(r, Ok(Event::Created(ALICE, id)));
    assert_eq!(p.all_kitties_count(), 1);
    assert_eq!(p.kitties(&id), Some(k));
    assert_eq!(p.kitties_owned(ALICE), vec![id]);
    assert_eq!(p.is_kitty_owner(&id, ALICE), Ok(true));
    assert_eq!(p.is_kitty_owner(&id, BOB), Ok(false));
}

#[test]
fn create_kitty_bad_origin() {
    let mut p = Pallet::new(MAX_OWNED);
    assert_eq!(p.create_kitty(Origin::Root, &entropy(1)), Err(DispatchError::BadOrigin));
    assert_eq!(p.all_kitties_count(), 0);
}

#[test]
fn create_kitty_twice_in_one_block() {
    let mut p = Pallet::new(MAX_OWNED);
    let id0 = created_id(p.create_kitty(Origin::Signed(ALICE), &entropy(1)));
    let id1 = created_id(p.create_kitty(Origin::Signed(ALICE), &entropy(1)));
    assert_ne!(id0, id1);
    assert_eq!(p.all_kitties_count(), 2);
    assert_eq!(p.kitties_owned(ALICE), vec![id0, id1]);
}

#[test]
fn mint_refused_at_configured_bound_changes_nothing() {
    let mut p = Pallet::new(1);
    assert_eq!(p.max_kitty_owned(), 1);
    let k0 = p.mint(ALICE, Some([1; 32]), Some(Gender::Male), &entropy(0)).unwrap();
    assert_eq!(p.mint(ALICE, Some([2; 32]), Some(Gender::Female), &entropy(0)), Err(Error::ExceedMaxKittyOwned));
    assert_eq!(p.all_kitties_count(), 1);
    assert_eq!(p.kitties_owned(ALICE), vec![k0]);
    assert_eq!(p.transfer(Origin::Signed(ALICE), BOB, k0), Ok(Event::Transferred(ALICE, BOB, k0)));
    assert!(p.mint(ALICE, Some([2; 32]), Some(Gender::Female), &entropy(0)).is_ok());
}

#[test]
fn create_kitty_fails_when_owner_is_full() {
    let mut p = Pallet::new(MAX_OWNED);
    for i in 0..512u32 {
        assert!(p.create_kitty(Origin::Signed(ALICE), &entropy_wide(i)).is_ok());
    }
    assert_eq!(p.kitties_owned(ALICE).len(), 512);
    let r = p.create_kitty(Origin::Signed(ALICE), &entropy_wide(1000));
    assert_eq!(r, Err(DispatchError::Module(Error::ExceedMaxKittyOwned)));
    assert_eq!(p.all_kitties_count(), 512);
    assert_eq!(p.kitties_owned(ALICE).len(), 512);
}

#[test]
fn mint_with_given_dna_and_gender() {
    let mut p = Pallet::new(MAX_OWNED);
    let r = p.mint(BOB, Some([7; 32]), Some(Gender::Female), &entropy(3));
    let k = Kitty { dna: [7; 32], price: None, gender: Gender::Female, owner: BOB };
    assert_eq!(r, Ok(kitty_id(&k)));
    assert_eq!(p.kitties(&kitty_id(&k)), Some(k));
}

#[test]
fn mint_with_id_refuses_taken_id() {
    let mut p = Pallet::new(MAX_OWNED);
    let k = Kitty::new([1; 32], ALICE);
    assert_eq!(p.mint_with_id(k, [9; 32]), Ok([9; 32]));
    let k2 = Kitty::new([2; 32], BOB);
    assert_eq!(p.mint_with_id(k2, [9; 32]), Err(Error::KittyIdExists));
    assert_eq!(p.kitties(&[9; 32]), Some(k));
    assert_eq!(p.kitties_owned(BOB), Vec::<[u8; 32]>::new());
    assert_eq!(p.kitties_owned(ALICE), vec![[9; 32]]);
    assert_eq!(p.all_kitties_count(), 1);
}

#[test]
fn set_price_by_owner() {
    let mut p = Pallet::new(MAX_OWNED);
    let id = created_id(p.create_kitty(Origin::Signed(ALICE), &entropy(1)));
    assert_eq!(p.set_price(Origin::Signed(ALICE), id, Some(100)), Ok(Event::PriceSet(ALICE, id, Some(100))));
    assert_eq!(p.kitties(&id).unwrap().price, Some(100));
    assert_eq!(p.set_price(Origin::Signed(ALICE), id, None), Ok(Event::PriceSet(ALICE, id, None)));
    assert_eq!(p.kitties(&id).unwrap().price, None);
}

#[test]
fn set_price_refused() {
    let mut p = Pallet::new(MAX_OWNED);
    let id = created_id(p.create_kitty(Origin::Signed(ALICE), &entropy(1)));
    assert_eq!(p.set_price(Origin::Signed(BOB), id, Some(5)), Err(DispatchError::Module(Error::NoKittyOwner)));
    assert_eq!(p.set_price(Origin::Signed(ALICE), [0; 32], Some(5)), Err(DispatchError::Module(Error::KittyNotExist)));
    assert_eq!(p.set_price(Origin::Unsigned, id, Some(5)), Err(DispatchError::BadOrigin));
    assert_eq!(p.kitties(&id).unwrap().price, None);
}

#[test]
fn transfer_success() {
    let mut p = Pallet::new(MAX_OWNED);
    let id = created_id(p.create_kitty(Origin::Signed(ALICE), &entropy(1)));
    let id2 = created_id(p.create_kitty(Origin::Signed(ALICE), &entropy(2)));
    p.set_price(Origin::Signed(ALICE), id, Some(10)).unwrap();
    assert_eq!(p.transfer(Origin::Signed(ALICE), BOB, id), Ok(Event::Transferred(ALICE, BOB, id)));
    let k = p.kitties(&id).unwrap();
    assert_eq!(k.owner, BOB);
    assert_eq!(k.price, None);
    assert_eq!(p.kitties_owned(ALICE), vec![id2]);
    assert_eq!(p.kitties_owned(BOB), vec![id]);
    assert_eq!(p.all_kitties_count(), 2);
}

#[test]
fn transfer_refused() {
    let mut p = Pallet::new(MAX_OWNED);
    let id = created_id(p.create_kitty(Origin::Signed(ALICE), &entropy(1)));
    assert_eq!(p.transfer(Origin::Signed(BOB), CAROL, id), Err(DispatchError::Module(Error::NoKittyOwner)));
    assert_eq!(p.transfer(Origin::Signed(ALICE), ALICE, id), Err(DispatchError::Module(Error::TransferToSelf)));
    assert_eq!(p.transfer(Origin::Signed(ALICE), BOB, [3; 32]), Err(DispatchError::Module(Error::KittyNotExist)));
    assert_eq!(p.transfer(Origin::Root, BOB, id), Err(DispatchError::BadOrigin));
    assert_eq!(p.kitties(&id).unwrap().owner, ALICE);
    assert_eq!(p.kitties_owned(ALICE), vec![id]);
}

#[test]
fn transfer_to_full_account_refused() {
    let mut p = Pallet::new(MAX_OWNED);
    for i in 0..512u32 {
        assert!(p.create_kitty(Origin::Signed(BOB), &entropy_wide(i)).is_ok());
    }
    let id = created_id(p.create_kitty(Origin::Signed(ALICE), &entropy_wide(5000)));
    assert_eq!(p.transfer(Origin::Signed(ALICE), BOB, id), Err(DispatchError::Module(Error::ExceedMaxKittyOwned)));
    assert_eq!(p.kitties(&id).unwrap().owner, ALICE);
    assert_eq!(p.kitties_owned(ALICE), vec![id]);
}

#[test]
fn transfer_kitty_to_full_account_changes_nothing() {
    let mut p = Pallet::new(MAX_OWNED);
    for i in 0..512u32 {
        assert!(p.create_kitty(Origin::Signed(BOB), &entropy_wide(i)).is_ok());
    }
    let id = created_id(p.create_kitty(Origin::Signed(ALICE), &entropy_wide(5000)));
    p.set_price(Origin::Signed(ALICE), id, Some(3)).unwrap();
    assert_eq!(p.transfer_kitty_to(&id, BOB), Err(Error::ExceedMaxKittyOwned));
    assert_eq!(p.kitties(&id).unwrap().owner, ALICE);
    assert_eq!(p.kitties(&id).unwrap().price, Some(3));
    assert_eq!(p.kitties_owned(ALICE), vec![id]);
    assert_eq!(p.kitties_owned(BOB).len(), 512);
    assert_eq!(p.transfer_kitty_to(&[1; 32], BOB), Err(Error::KittyNotExist));
}

#[test]
fn transfer_kitty_to_swap_removes() {
    let mut p = Pallet::new(MAX_OWNED);
    let a = created_id(p.create_kitty(Origin::Signed(ALICE), &entropy(1)));
    let b = created_id(p.create_kitty(Origin::Signed(ALICE), &entropy(2)));
    let c = created_id(p.create_kitty(Origin::Signed(ALICE), &entropy(3)));
    assert_eq!(p.transfer_kitty_to(&a, CAROL), Ok(()));
    assert_eq!(p.kitties_owned(ALICE), vec![c, b]);
    assert_eq!(p.kitties_owned(CAROL), vec![a]);
}

#[test]
fn buy_kitty_success() {
    let mut p = Pallet::new(MAX_OWNED);
    let id = created_id(p.create_kitty(Origin::Signed(ALICE), &entropy(1)));
    p.set_price(Origin::Signed(ALICE), id, Some(100)).unwrap();
    let pay = p.buy_kitty(Origin::Signed(BOB), id, 120, 1000).unwrap();
    assert_eq!(pay, Payment { buyer: BOB, seller: ALICE, kitty_id: id, amount: 120 });
    assert_eq!(p.complete_purchase(&pay, Ok(())), Ok(Event::Bought(BOB, ALICE, id, 120)));
    let k = p.kitties(&id).unwrap();
    assert_eq!(k.owner, BOB);
    assert_eq!(k.price, None);
    assert_eq!(p.kitties_owned(BOB), vec![id]);
    assert_eq!(p.kitties_owned(ALICE), Vec::<[u8; 32]>::new());
}

#[test]
fn buy_kitty_refused() {
    let mut p = Pallet::new(MAX_OWNED);
    let id = created_id(p.create_kitty(Origin::Signed(ALICE), &entropy(1)));
    assert_eq!(p.buy_kitty(Origin::Signed(BOB), id, 10, 100), Err(DispatchError::Module(Error::KittyNotForSale)));
    p.set_price(Origin::Signed(ALICE), id, Some(50)).unwrap();
    assert_eq!(p.buy_kitty(Origin::Signed(BOB), [2; 32], 60, 100), Err(DispatchError::Module(Error::KittyNotExist)));
    assert_eq!(p.buy_kitty(Origin::Signed(ALICE), id, 60, 100), Err(DispatchError::Module(Error::BuyerIsKittyOwner)));
    assert_eq!(p.buy_kitty(Origin::Signed(BOB), id, 49, 100), Err(DispatchError::Module(Error::KittyBidPriceToLow)));
    assert_eq!(p.buy_kitty(Origin::Signed(BOB), id, 60, 59), Err(DispatchError::Module(Error::NotEnoughBalance)));
    assert_eq!(p.buy_kitty(Origin::Root, id, 60, 100), Err(DispatchError::BadOrigin));
    assert!(p.buy_kitty(Origin::Signed(BOB), id, 50, 50).is_ok());
}

#[test]
fn buy_kitty_buyer_full() {
    let mut p = Pallet::new(MAX_OWNED);
    for i in 0..512u32 {
        assert!(p.create_kitty(Origin::Signed(BOB), &entropy_wide(i)).is_ok());
    }
    let id = created_id(p.create_kitty(Origin::Signed(ALICE), &entropy_wide(5000)));
    p.set_price(Origin::Signed(ALICE), id, Some(1)).unwrap();
    assert_eq!(p.buy_kitty(Origin::Signed(BOB), id, 1, 1), Err(DispatchError::Module(Error::ExceedMaxKittyOwned)));
}

#[test]
fn complete_purchase_refused_payment_changes_nothing() {
    let mut p = Pallet::new(MAX_OWNED);
    let id = created_id(p.create_kitty(Origin::Signed(ALICE), &entropy(1)));
    p.set_price(Origin::Signed(ALICE), id, Some(100)).unwrap();
    let pay = p.buy_kitty(Origin::Signed(BOB), id, 100, 100).unwrap();
    assert_eq!(p.complete_purchase(&pay, Err(DispatchError::Currency)), Err(DispatchError::Currency));
    assert_eq!(p.kitties(&id).unwrap().owner, ALICE);
    assert_eq!(p.kitties(&id).unwrap().price, Some(100));
    let gone = Payment { buyer: BOB, seller: ALICE, kitty_id: [8; 32], amount: 1 };
    assert_eq!(p.complete_purchase(&gone, Ok(())), Err(DispatchError::Module(Error::KittyNotExist)));
    assert_eq!(p.kitties_owned(ALICE), vec![id]);
}

#[test]
fn breed_kitty_success() {
    let mut p = Pallet::new(MAX_OWNED);
    let a = created_id(p.create_kitty(Origin::Signed(ALICE), &entropy(1)));
    let b = created_id(p.create_kitty(Origin::Signed(ALICE), &entropy(2)));
    let e = entropy(3);
    let child_dna = p.breed_dna(&a, &b, &e).unwrap();
    let base = Pallet::gen_dna(&e.dna_random, e.block_number, 2);
    let expected = mix_dna(&base, &p.kitties(&a).unwrap().dna, &p.kitties(&b).unwrap().dna);
    assert_eq!(child_dna, expected);
    let r = p.breed_kitty(Origin::Signed(ALICE), a, b, &e);
    let k = Kitty { dna: child_dna, price: None, gender: Pallet::gen_gender(&e.gender_random), owner: ALICE };
    assert_eq!(r, Ok(Event::Breeded(ALICE, kitty_id(&k))));
    assert_eq!(p.kitties_owned(ALICE).len(), 3);
    assert_eq!(p.all_kitties_count(), 3);
}

#[test]
fn breed_dna_with_itself_keeps_dna() {
    let mut p = Pallet::new(MAX_OWNED);
    let a = created_id(p.create_kitty(Origin::Signed(ALICE), &entropy(1)));
    let dna = p.kitties(&a).unwrap().dna;
    assert_eq!(p.breed_dna(&a, &a, &entropy(9)), Ok(dna));
}

#[test]
fn breed_kitty_with_itself_refused() {
    let mut p = Pallet::new(MAX_OWNED);
    let a = created_id(p.create_kitty(Origin::Signed(ALICE), &entropy(1)));
    let _b = created_id(p.create_kitty(Origin::Signed(ALICE), &entropy(2)));
    assert_eq!(p.breed_kitty(Origin::Signed(ALICE), a, a, &entropy(3)), Err(DispatchError::Module(Error::SameKittyId)));
    assert_eq!(p.all_kitties_count(), 2);
    assert_eq!(p.kitties_owned(ALICE).len(), 2);
}

#[test]
fn breed_kitty_refused() {
    let mut p = Pallet::new(MAX_OWNED);
    let a = created_id(p.create_kitty(Origin::Signed(ALICE), &entropy(1)));
    let b = created_id(p.create_kitty(Origin::Signed(BOB), &entropy(2)));
    assert_eq!(p.breed_kitty(Origin::Signed(ALICE), a, [0; 32], &entropy(3)), Err(DispatchError::Module(Error::KittyNotExist)));
    assert_eq!(p.breed_kitty(Origin::Signed(ALICE), a, b, &entropy(3)), Err(DispatchError::Module(Error::NoKittyOwner)));
    assert_eq!(p.breed_kitty(Origin::Signed(BOB), a, b, &entropy(3)), Err(DispatchError::Module(Error::NoKittyOwner)));
    assert_eq!(p.breed_dna(&a, &[0; 32], &entropy(3)), Err(Error::KittyNotExist));
    assert_eq!(p.all_kitties_count(), 2);
}

#[test]
fn genesis_build_mints_each_entry() {
    let mut p = Pallet::new(MAX_OWNED);
    let config = GenesisConfig { kitties: vec![(ALICE, [1; 32], Gender::Male), (BOB, [2; 32], Gender::Female)] };
    config.build(&mut p, &entropy(0));
    let ka = Kitty { dna: [1; 32], price: None, gender: Gender::Male, owner: ALICE };
    let kb = Kitty { dna: [2; 32], price: None, gender: Gender::Female, owner: BOB };
    assert_eq!(p.kitties(&kitty_id(&ka)), Some(ka));
    assert_eq!(p.kitties(&kitty_id(&kb)), Some(kb));
    assert_eq!(p.all_kitties_count(), 2);
}

#[test]
fn genesis_duplicate_entry_minted_once() {
    let mut p = Pallet::new(MAX_OWNED);
    let config = GenesisConfig { kitties: vec![(ALICE, [1; 32], Gender::Male), (ALICE, [1; 32], Gender::Male)] };
    config.build(&mut p, &entropy(0));
    let k = Kitty { dna: [1; 32], price: None, gender: Gender::Male, owner: ALICE };
    assert_eq!(p.all_kitties_count(), 1);
    assert_eq!(p.kitties_owned(ALICE), vec![kitty_id(&k)]);
}

#[test]
fn breed_kitty_refused_at_bound_changes_nothing() {
    let mut p = Pallet::new(MAX_OWNED);
    for i in 0..512u32 {
        assert!(p.create_kitty(Origin::Signed(ALICE), &entropy_wide(i)).is_ok());
    }
    let owned = p.kitties_owned(ALICE);
    let r = p.breed_kitty(Origin::Signed(ALICE), owned[510], owned[511], &entropy_wide(9999));
    assert_eq!(r, Err(DispatchError::Module(Error::ExceedMaxKittyOwned)));
    assert_eq!(p.all_kitties_count(), 512);
    assert_eq!(p.kitties_owned(ALICE), owned);
}

#[test]
fn transfer_there_and_back() {
    let mut p = Pallet::new(MAX_OWNED);
    let a = created_id(p.create_kitty(Origin::Signed(ALICE), &entropy(1)));
    let b = created_id(p.create_kitty(Origin::Signed(ALICE), &entropy(2)));
    let c = created_id(p.create_kitty(Origin::Signed(BOB), &entropy(3)));
    p.set_price(Origin::Signed(ALICE), a, Some(9)).unwrap();
    p.transfer(Origin::Signed(ALICE), BOB, a).unwrap();
    assert_eq!(p.transfer(Origin::Signed(BOB), ALICE, a), Ok(Event::Transferred(BOB, ALICE, a)));
    assert_eq!(p.kitties_owned(BOB), vec![c]);
    assert_eq!(p.kitties_owned(ALICE), vec![b, a]);
    assert_eq!(p.kitties(&a).unwrap().owner, ALICE);
    assert_eq!(p.kitties(&a).unwrap().price, None);
}

#[test]
fn genesis_default_is_empty() {
    let mut p = Pallet::new(MAX_OWNED);
    let config = GenesisConfig::default();
    assert!(config.kitties.is_empty());
    config.build(&mut p, &entropy(0));
    assert_eq!(p.all_kitties_count(), 0);
}
