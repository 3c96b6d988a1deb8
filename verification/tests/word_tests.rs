use swoosh_contracts::word::U256;

type Wide = alloy_primitives::U256;

// The same number in the 256-bit integer that the contracts are deployed with.
fn wide(word: U256) -> Wide {
    Wide::from_limbs([
        word.low as u64,
        (word.low >> 64) as u64,
        word.high as u64,
        (word.high >> 64) as u64,
    ])
}

// Words around every boundary of the representation.
fn samples() -> Vec<U256> {
    let edges: [u128; 7] = [0, 1, 2, u64::MAX as u128, 1 << 64, u128::MAX - 1, u128::MAX];
    let mut words = Vec::new();
    for high in edges {
        for low in edges {
            words.push(U256 { high, low });
        }
    }
    words
}

#[test]
fn small_words() {
    assert_eq!(U256::zero(), U256 { high: 0, low: 0 });
    assert_eq!(U256::one(), U256 { high: 0, low: 1 });
    assert_eq!(U256::from_u64(42161), U256 { high: 0, low: 42161 });
    assert_eq!(U256::from_u64(u64::MAX), U256 { high: 0, low: 18446744073709551615 });
    assert_eq!(U256::from_u128(u128::MAX), U256 { high: 0, low: u128::MAX });
    assert_eq!(U256::max_value(), U256 { high: u128::MAX, low: u128::MAX });
    assert!(U256::zero().is_zero());
    assert!(!U256::one().is_zero());
    assert!(!U256 { high: 1, low: 0 }.is_zero());
    assert_eq!(wide(U256::zero()), Wide::ZERO);
    assert_eq!(wide(U256::max_value()), Wide::MAX);
    assert_eq!(wide(U256::from_u64(1800)), Wide::from(1800u64));
}

#[test]
fn addition_carries_into_the_high_half() {
    let below = U256 { high: 0, low: u128::MAX };
    assert_eq!(below.wrapping_add(U256::one()), U256 { high: 1, low: 0 });
    assert_eq!(below.overflowing_add(U256::one()), (U256 { high: 1, low: 0 }, false));
    assert_eq!(below.checked_add(U256::one()), Some(U256 { high: 1, low: 0 }));
    assert_eq!(below.wrapping_add(below), U256 { high: 1, low: u128::MAX - 1 });
    assert_eq!(
        U256::from_u64(1000).wrapping_add(U256::from_u64(1800)),
        U256::from_u64(2800)
    );
}

#[test]
fn addition_wraps_at_the_largest_word() {
    let max = U256::max_value();
    assert_eq!(max.wrapping_add(U256::one()), U256::zero());
    assert_eq!(max.overflowing_add(U256::one()), (U256::zero(), true));
    assert_eq!(max.checked_add(U256::one()), None);
    assert_eq!(max.wrapping_add(max), U256 { high: u128::MAX, low: u128::MAX - 1 });
    assert_eq!(max.checked_add(U256::zero()), Some(max));
    // The carry out of the low half is what overflows the high half.
    let brim = U256 { high: u128::MAX, low: 1 };
    assert_eq!(brim.overflowing_add(U256 { high: 0, low: u128::MAX }), (U256::zero(), true));
    let half = U256 { high: 1 << 127, low: 0 };
    assert_eq!(half.overflowing_add(half), (U256::zero(), true));
}

#[test]
fn order_is_that_of_the_numbers() {
    let small = U256 { high: 0, low: u128::MAX };
    let large = U256 { high: 1, low: 0 };
    assert!(small.lt(&large));
    assert!(large.gt(&small));
    assert!(!large.lt(&small));
    assert!(!small.gt(&large));
    assert!(!small.lt(&small));
    assert!(!small.gt(&small));
    assert!(U256::from_u64(995).lt(&U256::from_u64(1000)));
    assert!(U256::max_value().gt(&U256::from_u64(1000)));
}

#[test]
fn arithmetic_agrees_with_the_deployed_integer() {
    for a in samples() {
        for b in samples() {
            assert_eq!(wide(a.wrapping_add(b)), wide(a).wrapping_add(wide(b)));
            assert_eq!(wide(a.wrapping_add(b)), wide(a) + wide(b));
            let (sum, overflow) = a.overflowing_add(b);
            assert_eq!((wide(sum), overflow), wide(a).overflowing_add(wide(b)));
            assert_eq!(a.checked_add(b).map(wide), wide(a).checked_add(wide(b)));
            assert_eq!(a.lt(&b), wide(a) < wide(b));
            assert_eq!(a.gt(&b), wide(a) > wide(b));
            assert_eq!(a == b, wide(a) == wide(b));
        }
        assert_eq!(a.is_zero(), wide(a) == Wide::ZERO);
    }
}
