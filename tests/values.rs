use crowdfunding::address::Address;
use crowdfunding::uint::U256;

#[test]
fn add_carries_into_high_half() {
    let a = U256::from_u128(u128::MAX);
    let r = a.checked_add(&U256::from_u64(1)).unwrap();
    assert_eq!(r, U256::from_halves(1, 0));
}

#[test]
fn add_of_small_values() {
    let r = U256::from_u64(40).checked_add(&U256::from_u64(2)).unwrap();
    assert_eq!(r, U256::from_u64(42));
}

#[test]
fn add_past_the_top_is_none() {
    let max = U256::from_halves(u128::MAX, u128::MAX);
    assert!(max.checked_add(&U256::from_u64(1)).is_none());
    assert!(max.checked_add(&U256::zero()).is_some());
    let half = U256::from_halves(1u128 << 127, 0);
    assert!(half.checked_add(&half).is_none());
}

#[test]
fn ordering_looks_at_high_half_first() {
    let small = U256::from_halves(0, u128::MAX);
    let big = U256::from_halves(1, 0);
    assert!(small.le(&big));
    assert!(small.lt(&big));
    assert!(!big.le(&small));
    assert!(big.le(&big));
    assert!(!big.lt(&big));
    assert!(big.same_as(&U256::from_halves(1, 0)));
    assert!(!big.same_as(&small));
}

#[test]
fn zero_tests() {
    assert!(U256::zero().is_zero());
    assert!(!U256::from_halves(1, 0).is_zero());
    assert!(!U256::from_u64(1).is_zero());
}

#[test]
fn zero_address_is_recognised() {
    assert!(Address::new([0; 20]).is_zero());
    let mut b = [0u8; 20];
    b[19] = 1;
    assert!(!Address::new(b).is_zero());
    assert!(!Address::new([0xAA; 20]).is_zero());
}
