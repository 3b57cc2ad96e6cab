//! The asset registry and marketplace exercised end to end: minting,
//! breeding, transfer, listing, and purchase, with the currency ledger and a
//! fixed randomness seed.

use kitties::registry::{Config, Error, Event, Pallet};
use kitties::{Balances, Synthesizer};

const ACCOUNT_BALANCE: u128 = 100000;
const KITTY_PRICE: u128 = 10;
const SEED: [u8; 16] = [7; 16];
const NAME: [u8; 8] = *b"kitty001";

fn test_config() -> Config {
    Config { pallet_id: *b"py/kitty", kitty_price: KITTY_PRICE }
}

fn get_account_id() -> u64 {
    Pallet::get_account_id(&test_config())
}

/// Expected balances after `n` mint/breed payments out of `who`'s account.
fn debited(n: u128) -> u128 {
    ACCOUNT_BALANCE - n * KITTY_PRICE
}

#[test]
fn create_kitty() {
    let config = test_config();
    let mut pallet = Pallet::new();
    let mut balances = Balances::new();
    let mut rng = Synthesizer::new(SEED);
    let kitty_id = 0;
    let account_id = 1;
    balances.set_balance(account_id, ACCOUNT_BALANCE);

    assert_eq!(pallet.next_kitty_id(), kitty_id);
    let event = pallet
        .create_kitty(&config, &mut balances, &mut rng, account_id, NAME)
        .expect("create must succeed");
    let kitty = pallet.kitties(kitty_id).expect("Kitty Created");
    assert_eq!(event, Event::KittyCreated { who: account_id, kitty_id, kitty });
    assert_eq!(balances.free_balance(account_id), ACCOUNT_BALANCE - KITTY_PRICE);
    assert_eq!(balances.free_balance(get_account_id()), KITTY_PRICE);

    assert_eq!(pallet.next_kitty_id(), kitty_id + 1);
    assert_eq!(pallet.kitties(kitty_id).is_some(), true);
    assert_eq!(pallet.kitty_owner(kitty_id), Some(account_id));
    assert_eq!(pallet.kitty_parents(kitty_id), None);

    pallet.next_kitty_id = u32::MAX;
    assert_eq!(
        pallet.create_kitty(&config, &mut balances, &mut rng, account_id, NAME),
        Err(Error::IdSpaceExhausted)
    );
    assert_eq!(pallet.next_kitty_id(), u32::MAX);
    assert_eq!(balances.free_balance(account_id), ACCOUNT_BALANCE - KITTY_PRICE);
}

#[test]
fn breed_kitty() {
    let config = test_config();
    let mut pallet = Pallet::new();
    let mut balances = Balances::new();
    let mut rng = Synthesizer::new(SEED);
    let kitty_id = 0;
    let account_id = 1;
    balances.set_balance(account_id, ACCOUNT_BALANCE);

    assert_eq!(
        pallet.breed(&config, &mut balances, &mut rng, account_id, kitty_id, kitty_id, NAME),
        Err(Error::SameParent)
    );
    assert_eq!(balances.free_balance(account_id), ACCOUNT_BALANCE);

    assert_eq!(
        pallet.breed(&config, &mut balances, &mut rng, account_id, kitty_id, kitty_id + 1, NAME),
        Err(Error::UnknownAsset)
    );
    assert_eq!(balances.free_balance(account_id), ACCOUNT_BALANCE);

    pallet
        .create_kitty(&config, &mut balances, &mut rng, account_id, NAME)
        .expect("create must succeed");
    pallet
        .create_kitty(&config, &mut balances, &mut rng, account_id, NAME)
        .expect("create must succeed");
    assert_eq!(balances.free_balance(account_id), debited(2));
    assert_eq!(balances.free_balance(get_account_id()), 2 * KITTY_PRICE);

    assert_eq!(pallet.next_kitty_id(), kitty_id + 2);
    let event = pallet
        .breed(&config, &mut balances, &mut rng, account_id, kitty_id, kitty_id + 1, NAME)
        .expect("breed must succeed");
    assert_eq!(balances.free_balance(account_id), debited(3));
    assert_eq!(balances.free_balance(get_account_id()), 3 * KITTY_PRICE);

    let breed_kitty_id = 2;
    let breed_kitty = pallet.kitties(breed_kitty_id).expect("Breed Kitty Created");
    assert_eq!(
        event,
        Event::KittyBred { who: account_id, kitty_id: breed_kitty_id, kitty: breed_kitty }
    );

    assert_eq!(pallet.next_kitty_id(), breed_kitty_id + 1);
    assert_eq!(pallet.kitties(breed_kitty_id).is_some(), true);
    assert_eq!(pallet.kitty_owner(breed_kitty_id), Some(account_id));
    assert_eq!(pallet.kitty_parents(breed_kitty_id), Some((kitty_id, kitty_id + 1)));
}

#[test]
fn transfer_kitty() {
    let config = test_config();
    let mut pallet = Pallet::new();
    let mut balances = Balances::new();
    let mut rng = Synthesizer::new(SEED);
    let kitty_id = 0;
    let account_id = 1;
    let recipient = 2;
    balances.set_balance(account_id, ACCOUNT_BALANCE);
    balances.set_balance(recipient, ACCOUNT_BALANCE);

    pallet
        .create_kitty(&config, &mut balances, &mut rng, account_id, NAME)
        .expect("create must succeed");
    assert_eq!(pallet.kitty_owner(kitty_id), Some(account_id));

    assert_eq!(pallet.transfer(recipient, recipient, kitty_id), Err(Error::NotOwner));
    assert_eq!(pallet.transfer(account_id, account_id, kitty_id), Err(Error::SelfTransfer));

    let event = pallet.transfer(account_id, recipient, kitty_id).expect("transfer must succeed");
    assert_eq!(event, Event::KittyTransferred { who: account_id, recipient, kitty_id });

    assert_eq!(pallet.kitty_owner(kitty_id), Some(recipient));
    let event = pallet.transfer(recipient, account_id, kitty_id).expect("transfer must succeed");
    assert_eq!(pallet.kitty_owner(kitty_id), Some(account_id));
    assert_eq!(
        event,
        Event::KittyTransferred { who: recipient, recipient: account_id, kitty_id }
    );
}

#[test]
fn sale_kitty() {
    let config = test_config();
    let mut pallet = Pallet::new();
    let mut balances = Balances::new();
    let mut rng = Synthesizer::new(SEED);
    let kitty_id = 0;
    let account_id = 1;
    balances.set_balance(account_id, ACCOUNT_BALANCE);

    assert_eq!(pallet.sale(account_id, kitty_id), Err(Error::UnknownAsset));

    pallet
        .create_kitty(&config, &mut balances, &mut rng, account_id, NAME)
        .expect("create must succeed");
    assert_eq!(balances.free_balance(account_id), ACCOUNT_BALANCE - KITTY_PRICE);
    assert_eq!(balances.free_balance(get_account_id()), KITTY_PRICE);

    assert_eq!(pallet.sale(account_id + 1, kitty_id), Err(Error::NotOwner));

    let event = pallet.sale(account_id, kitty_id).expect("sale must succeed");
    assert!(pallet.kitty_on_sale(kitty_id));
    assert_eq!(event, Event::KittyOnSale { who: account_id, kitty_id });

    assert_eq!(pallet.sale(account_id, kitty_id), Err(Error::AlreadyListed));
}

#[test]
fn buy_kitty() {
    let config = test_config();
    let mut pallet = Pallet::new();
    let mut balances = Balances::new();
    let mut rng = Synthesizer::new(SEED);
    let kitty_id = 0;
    let account_id = 1;
    let account_id_2 = 2;
    balances.set_balance(account_id, ACCOUNT_BALANCE);
    balances.set_balance(account_id_2, ACCOUNT_BALANCE);

    assert_eq!(
        pallet.buy(&config, &mut balances, account_id, kitty_id),
        Err(Error::UnknownAsset)
    );

    pallet
        .create_kitty(&config, &mut balances, &mut rng, account_id, NAME)
        .expect("create must succeed");
    assert_eq!(balances.free_balance(account_id), ACCOUNT_BALANCE - KITTY_PRICE);
    assert_eq!(balances.free_balance(get_account_id()), KITTY_PRICE);

    assert_eq!(
        pallet.buy(&config, &mut balances, account_id, kitty_id),
        Err(Error::AlreadyOwned)
    );
    assert_eq!(
        pallet.buy(&config, &mut balances, account_id_2, kitty_id),
        Err(Error::NotListed)
    );

    let event = pallet.sale(account_id, kitty_id).expect("sale must succeed");
    assert!(pallet.kitty_on_sale(kitty_id));
    assert_eq!(event, Event::KittyOnSale { who: account_id, kitty_id });

    let event = pallet.buy(&config, &mut balances, account_id_2, kitty_id).expect(
        "buy must succeed",
    );
    assert!(!pallet.kitty_on_sale(kitty_id));
    assert_eq!(pallet.kitty_owner(kitty_id), Some(account_id_2));
    assert_eq!(balances.free_balance(account_id), ACCOUNT_BALANCE);
    assert_eq!(balances.free_balance(account_id_2), ACCOUNT_BALANCE - KITTY_PRICE);
    assert_eq!(event, Event::KittyBought { who: account_id_2, kitty_id });
}

#[test]
fn mint_without_funds_rejected() {
    let config = test_config();
    let mut pallet = Pallet::new();
    let mut balances = Balances::new();
    let mut rng = Synthesizer::new(SEED);
    balances.set_balance(1, KITTY_PRICE - 1);

    assert_eq!(
        pallet.create_kitty(&config, &mut balances, &mut rng, 1, NAME),
        Err(Error::InsufficientFunds)
    );
    assert_eq!(pallet.next_kitty_id(), 0);
    assert_eq!(pallet.kitties(0), None);
    assert_eq!(balances.free_balance(1), KITTY_PRICE - 1);
    assert_eq!(balances.free_balance(get_account_id()), 0);
}

#[test]
fn buy_without_funds_rejected() {
    let config = test_config();
    let mut pallet = Pallet::new();
    let mut balances = Balances::new();
    let mut rng = Synthesizer::new(SEED);
    balances.set_balance(1, ACCOUNT_BALANCE);
    balances.set_balance(2, KITTY_PRICE - 1);

    pallet.create_kitty(&config, &mut balances, &mut rng, 1, NAME).expect("create must succeed");
    pallet.sale(1, 0).expect("sale must succeed");
    assert_eq!(pallet.buy(&config, &mut balances, 2, 0), Err(Error::InsufficientFunds));
    assert_eq!(pallet.kitty_owner(0), Some(1));
    assert!(pallet.kitty_on_sale(0));
    assert_eq!(balances.free_balance(2), KITTY_PRICE - 1);
    assert_eq!(balances.free_balance(1), ACCOUNT_BALANCE - KITTY_PRICE);
}

#[test]
fn minted_ids_are_dense() {
    let config = test_config();
    let mut pallet = Pallet::new();
    let mut balances = Balances::new();
    let mut rng = Synthesizer::new(SEED);
    balances.set_balance(1, ACCOUNT_BALANCE);

    for expected_id in 0..3u32 {
        assert_eq!(pallet.next_kitty_id(), expected_id);
        let event = pallet
            .create_kitty(&config, &mut balances, &mut rng, 1, NAME)
            .expect("create must succeed");
        assert_eq!(event, Event::KittyCreated {
            who: 1,
            kitty_id: expected_id,
            kitty: pallet.kitties(expected_id).expect("stored"),
        });
    }
    assert_eq!(pallet.next_kitty_id(), 3);
}

#[test]
fn end_to_end_mint_list_buy() {
    let config = test_config();
    let mut pallet = Pallet::new();
    let mut balances = Balances::new();
    let mut rng = Synthesizer::new(SEED);
    let minter = 1;
    let buyer = 2;
    balances.set_balance(minter, ACCOUNT_BALANCE);
    balances.set_balance(buyer, ACCOUNT_BALANCE);

    pallet.create_kitty(&config, &mut balances, &mut rng, minter, NAME).expect("mint");
    assert_eq!(balances.free_balance(minter), ACCOUNT_BALANCE - KITTY_PRICE);
    assert_eq!(balances.free_balance(get_account_id()), KITTY_PRICE);
    assert_eq!(pallet.kitty_owner(0), Some(minter));
    assert_eq!(pallet.next_kitty_id(), 1);

    pallet.sale(minter, 0).expect("list");
    assert!(pallet.kitty_on_sale(0));

    pallet.buy(&config, &mut balances, buyer, 0).expect("buy");
    assert_eq!(balances.free_balance(buyer), ACCOUNT_BALANCE - KITTY_PRICE);
    assert_eq!(balances.free_balance(minter), ACCOUNT_BALANCE);
    assert_eq!(pallet.kitty_owner(0), Some(buyer));
    assert!(!pallet.kitty_on_sale(0));
}

#[test]
fn protocol_account_derivation() {
    let account = Pallet::get_account_id(&test_config());
    let mut bytes = [0u8; 8];
    bytes[0..4].copy_from_slice(b"modl");
    bytes[4..8].copy_from_slice(&b"py/kitty"[0..4]);
    assert_eq!(account, u64::from_le_bytes(bytes));
}
