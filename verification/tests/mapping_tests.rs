use swoosh_contracts::address::Address;
use swoosh_contracts::mapping::Mapping;
use swoosh_contracts::word::U256;

#[test]
fn unwritten_keys_read_as_unset() {
    let flags: Mapping<U256, bool> = Mapping::new();
    let words: Mapping<U256, U256> = Mapping::new();
    let tokens: Mapping<Address, bool> = Mapping::new();
    assert!(!flags.get(&U256::zero()));
    assert!(!flags.get(&U256::max_value()));
    assert_eq!(words.get(&U256::from_u64(5)), U256::zero());
    assert!(!tokens.get(&Address::zero()));
    assert!(!tokens.get(&Address::from_bytes([1u8; 20])));
}

#[test]
fn written_keys_read_as_written() {
    let mut words: Mapping<U256, U256> = Mapping::new();
    let first = U256 { high: 0, low: 7 };
    let second = U256 { high: 7, low: 0 };
    words.insert(first, U256::from_u64(100));
    words.insert(second, U256::from_u64(200));

    assert_eq!(words.get(&first), U256::from_u64(100));
    assert_eq!(words.get(&second), U256::from_u64(200));
    assert_eq!(words.get(&U256 { high: 7, low: 7 }), U256::zero());
}

#[test]
fn the_last_write_wins() {
    let mut words: Mapping<U256, U256> = Mapping::new();
    let key = U256::from_u64(1);
    let other = U256::from_u64(2);
    words.insert(key, U256::from_u64(100));
    words.insert(other, U256::from_u64(200));
    words.insert(key, U256::from_u64(300));

    assert_eq!(words.get(&key), U256::from_u64(300));
    assert_eq!(words.get(&other), U256::from_u64(200));

    // Writing the unset value reads like never having written.
    words.insert(key, U256::zero());
    assert_eq!(words.get(&key), U256::zero());
    assert_eq!(words.get(&other), U256::from_u64(200));
}

#[test]
fn principals_are_keys_too() {
    let mut tokens: Mapping<Address, bool> = Mapping::new();
    let a = Address::from_bytes([1u8; 20]);
    let mut nearly = [1u8; 20];
    nearly[19] = 2;
    let b = Address::from_bytes(nearly);
    tokens.insert(a, true);

    assert!(tokens.get(&a));
    assert!(!tokens.get(&b));
    tokens.insert(b, true);
    tokens.insert(a, false);
    assert!(!tokens.get(&a));
    assert!(tokens.get(&b));
}
