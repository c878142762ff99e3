use newomega::{AccountId, NewOmegaUniverse};

fn account(tag: u8) -> AccountId {
    AccountId { bytes: [tag; 32] }
}

fn hash_of(seed: u64) -> [u8; 32] {
    let mut hash = [0u8; 32];
    hash[..8].copy_from_slice(&seed.to_le_bytes());
    // bytes after the eighth carry no seed
    hash[8] = 0xff;
    hash[31] = 0x7f;
    hash
}

fn universe() -> NewOmegaUniverse {
    NewOmegaUniverse::new(vec![account(1), account(2), account(3)])
}

#[test]
fn random_seed_reads_the_first_eight_bytes_little_endian() {
    let u = universe();
    let mut hash = [0u8; 32];
    hash[0] = 0x39;
    hash[1] = 0x05;
    assert_eq!(u.generate_random_seed(&hash), 1337);
    let mut high = [0u8; 32];
    high[7] = 1;
    assert_eq!(u.generate_random_seed(&high), 1u64 << 56);
    assert_eq!(u.generate_random_seed(&[0xff; 32]), u64::MAX);
    assert_eq!(u.generate_random_seed(&hash_of(987654321)), 987654321);
}

#[test]
fn planet_and_mineral_generation() {
    let u = universe();
    let hash = hash_of(1337);
    assert_eq!(u.generate_planet_type(&hash), 17);
    assert_eq!(u.generate_mineral_type(&hash), 1);
    assert_eq!(u.generate_mineral_proof(&hash), 37);
    let max = [0xff; 32];
    assert_eq!(u.generate_planet_type(&max), (u64::MAX % 20) as u8);
    assert_eq!(u.generate_mineral_type(&max), 3);
    assert_eq!(u.generate_mineral_proof(&max), 15);
}

#[test]
fn registration_lookup() {
    let u = universe();
    assert!(u.is_registered(account(2)));
    assert!(!u.is_registered(account(9)));
    let mut almost = account(2);
    almost.bytes[31] = 0;
    assert!(!u.is_registered(almost));
    assert!(!NewOmegaUniverse::new(vec![]).is_registered(account(1)));
}

#[test]
fn gateway_target_skips_the_caller() {
    let u = universe();
    // 4 % 3 = 1
    assert_eq!(u.get_random_gateway_target(account(1), &hash_of(4)), Some(account(2)));
    assert_eq!(u.get_random_gateway_target(account(2), &hash_of(4)), Some(account(3)));
    // 5 % 3 = 2, the last player: one down instead
    assert_eq!(u.get_random_gateway_target(account(3), &hash_of(5)), Some(account(2)));
    assert_eq!(u.get_random_gateway_target(account(1), &hash_of(5)), Some(account(3)));
}

#[test]
fn gateway_target_needs_two_players() {
    let single = NewOmegaUniverse::new(vec![account(1)]);
    assert_eq!(single.get_random_gateway_target(account(1), &hash_of(4)), None);
    let empty = NewOmegaUniverse::new(vec![]);
    assert_eq!(empty.get_random_gateway_target(account(1), &hash_of(4)), None);
}

#[test]
fn min_of_two() {
    assert_eq!(NewOmegaUniverse::min(3, 5), 3);
    assert_eq!(NewOmegaUniverse::min(7, 2), 2);
    assert_eq!(NewOmegaUniverse::min(4, 4), 4);
}
