//! The entropy synthesizer against the real digest: the stored dna must be
//! the Blake2-128 hash of the documented payload, and the breeding selector
//! must drive the child's bytes exactly as specified.

use kitties::registry::{Config, Pallet};
use kitties::{Balances, Synthesizer};

const ACCOUNT_BALANCE: u128 = 100000;
const SEED: [u8; 16] = [7; 16];
const NAME: [u8; 8] = *b"kitty001";

fn test_config() -> Config {
    Config { pallet_id: *b"py/kitty", kitty_price: 10 }
}

/// The fixed payload the synthesizer hashes: seed, caller, call counter.
fn payload(seed: [u8; 16], who: u64, counter: u64) -> Vec<u8> {
    let mut bytes = seed.to_vec();
    bytes.extend_from_slice(&who.to_le_bytes());
    bytes.extend_from_slice(&counter.to_le_bytes());
    bytes
}

#[test]
fn synthesize_is_blake2_of_payload() {
    let mut rng = Synthesizer::new(SEED);
    let first = rng.synthesize(1);
    let second = rng.synthesize(1);
    assert_eq!(first, sp_crypto_hashing::blake2_128(&payload(SEED, 1, 0)));
    assert_eq!(second, sp_crypto_hashing::blake2_128(&payload(SEED, 1, 1)));
    assert_ne!(first, second);

    let mut replay = Synthesizer::new(SEED);
    assert_eq!(replay.synthesize(1), first);
}

#[test]
fn mint_dna_is_blake2_of_payload() {
    let config = test_config();
    let mut pallet = Pallet::new();
    let mut balances = Balances::new();
    let mut rng = Synthesizer::new(SEED);
    balances.set_balance(1, ACCOUNT_BALANCE);

    pallet.create_kitty(&config, &mut balances, &mut rng, 1, NAME).expect("mint");
    let kitty = pallet.kitties(0).expect("stored");
    assert_eq!(kitty.dna, sp_crypto_hashing::blake2_128(&payload(SEED, 1, 0)));
    assert_eq!(kitty.name, NAME);
}

#[test]
fn breed_child_dna_follows_selector() {
    let config = test_config();
    let mut pallet = Pallet::new();
    let mut balances = Balances::new();
    let mut rng = Synthesizer::new(SEED);
    balances.set_balance(1, ACCOUNT_BALANCE);

    pallet.create_kitty(&config, &mut balances, &mut rng, 1, NAME).expect("mint");
    pallet.create_kitty(&config, &mut balances, &mut rng, 1, NAME).expect("mint");
    pallet.breed(&config, &mut balances, &mut rng, 1, 0, 1, NAME).expect("breed");

    let parent_a = pallet.kitties(0).expect("stored");
    let parent_b = pallet.kitties(1).expect("stored");
    let child = pallet.kitties(2).expect("stored");
    let selector = sp_crypto_hashing::blake2_128(&payload(SEED, 1, 2));
    for i in 0..16 {
        assert_eq!(
            child.dna[i],
            (parent_a.dna[i] & selector[i]) | (parent_b.dna[i] & !selector[i])
        );
    }
}
