use pump::allocation::allocate;

#[test]
fn allocate_is_exact_floor_division() {
    // 10 of 20 raised, 1000 tokens: exactly half the supply.
    assert_eq!(allocate(10, 1000, 20), 500);
    // 30 / 7 rounds down.
    assert_eq!(allocate(3, 10, 7), 4);
    // Contribution equal to the target takes the whole supply.
    assert_eq!(allocate(20, 1000, 20), 1000);
}

#[test]
fn allocate_zero_contribution_is_zero() {
    assert_eq!(allocate(0, 1000, 20), 0);
    assert_eq!(allocate(0, u64::MAX, 1), 0);
}

#[test]
fn allocate_uses_wide_intermediate() {
    // contribution * supply far exceeds 64 bits; the result still fits.
    let supply = u64::MAX;
    let target = u64::MAX;
    assert_eq!(allocate(target, supply, target), supply);
    assert_eq!(allocate(1 << 40, 1 << 40, 1 << 41), 1 << 39);
}

#[test]
fn allocate_is_monotonic_in_contribution() {
    let mut prev = 0;
    for c in 0..=50 {
        let tokens = allocate(c, 997, 50);
        assert!(tokens >= prev);
        prev = tokens;
    }
}

#[test]
fn allocations_never_exceed_supply() {
    // Amounts summing to the target: individual allocations sum to at most
    // the supply.
    let supply = 1003;
    let target = 30;
    let amounts = [7, 9, 3, 11];
    assert_eq!(amounts.iter().sum::<u64>(), target);
    let total: u64 = amounts.iter().map(|&a| allocate(a, supply, target)).sum();
    assert!(total <= supply);
}
