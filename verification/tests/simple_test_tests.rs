use swoosh_contracts::address::Address;
use swoosh_contracts::simple_test::SimpleTest;
use swoosh_contracts::word::U256;

#[test]
fn counter_starts_at_zero() {
    let owner = Address::from_bytes([4u8; 20]);
    let mut contract = SimpleTest::new();
    assert_eq!(contract.get_owner(), Address::zero());
    assert_eq!(contract.get_counter(), U256::zero());

    contract.init(owner);
    assert_eq!(contract.get_owner(), owner);
    assert_eq!(contract.get_counter(), U256::zero());
}

#[test]
fn increment_adds_one() {
    let owner = Address::from_bytes([4u8; 20]);
    let mut contract = SimpleTest::new();
    contract.init(owner);
    contract.increment();
    assert_eq!(contract.get_counter(), U256::from_u64(1));
    contract.increment();
    contract.increment();
    assert_eq!(contract.get_counter(), U256::from_u64(3));
    assert_eq!(contract.get_owner(), owner);

    // Setting up again starts the count over.
    contract.init(owner);
    assert_eq!(contract.get_counter(), U256::zero());
}

#[test]
fn increment_wraps_at_the_largest_word() {
    let mut contract = SimpleTest::new();
    contract.counter = U256 { high: 0, low: u128::MAX };
    contract.increment();
    assert_eq!(contract.get_counter(), U256 { high: 1, low: 0 });

    contract.counter = U256::max_value();
    contract.increment();
    assert_eq!(contract.get_counter(), U256::zero());
}
