//! Overflow-safe integer math and the proportional-allocation formula.

use vstd::prelude::*;
use vstd::arithmetic::div_mod::{
    lemma_div_is_ordered, lemma_div_multiples_vanish, lemma_div_of0,
    lemma_div_pos_is_pos, lemma_fundamental_div_mod,
    lemma_mod_division_less_than_divisor,
};
use vstd::arithmetic::mul::{
    lemma_mul_inequality, lemma_mul_is_distributive_add, lemma_mul_nonnegative,
};

verus! {

/// Token amount reserved for a contribution of `contribution` resource
/// units, given `supply` token units backing a funding target of `target`
/// resource units: the exact integer `floor(contribution * supply / target)`.
pub open spec fn allocated(contribution: int, supply: int, target: int) -> int {
    contribution * supply / target
}

/// Sum of a sequence of resource amounts.
pub open spec fn sum_amounts(amounts: Seq<u64>) -> int
    decreases amounts.len(),
{
    if amounts.len() == 0 {
        0
    } else {
        sum_amounts(amounts.drop_last()) + amounts.last()
    }
}

/// Sum of the token allocations of a sequence of resource amounts.
pub open spec fn sum_allocated(amounts: Seq<u64>, supply: int, target: int) -> int
    decreases amounts.len(),
{
    if amounts.len() == 0 {
        0
    } else {
        sum_allocated(amounts.drop_last(), supply, target)
            + allocated(amounts.last() as int, supply, target)
    }
}

/// Proportional allocation, computed with a 128-bit intermediate so the
/// product cannot overflow; deterministic integer floor division.
pub fn allocate(contribution: u64, total_supply: u64, target: u64) -> (tokens: u64)
    requires
        target > 0,
        contribution <= target,
    ensures
        tokens == allocated(contribution as int, total_supply as int, target as int),
        tokens <= total_supply,
{
    proof {
        lemma_allocated_bounds(contribution as int, total_supply as int, target as int);
        lemma_mul_nonnegative(contribution as int, total_supply as int);
        assert((contribution as int) * (total_supply as int)
            <= (u64::MAX as int) * (u64::MAX as int)) by (nonlinear_arith)
            requires
                0 <= contribution as int <= u64::MAX as int,
                0 <= total_supply as int <= u64::MAX as int,
        ;
    }
    let wide: u128 = (contribution as u128) * (total_supply as u128) / (target as u128);
    wide as u64
}

/// The allocation of a whole contribution never exceeds the supply, and is
/// never negative.
pub proof fn lemma_allocated_bounds(contribution: int, supply: int, target: int)
    requires
        0 <= contribution <= target,
        0 < target,
        0 <= supply,
    ensures
        0 <= allocated(contribution, supply, target) <= supply,
{
    lemma_mul_nonnegative(contribution, supply);
    lemma_div_pos_is_pos(contribution * supply, target);
    lemma_mul_inequality(contribution, target, supply);
    lemma_div_is_ordered(contribution * supply, target * supply, target);
    lemma_div_multiples_vanish(supply, target);
}

/// A zero contribution is allocated zero tokens.
pub proof fn lemma_allocated_zero(supply: int, target: int)
    requires
        0 < target,
    ensures
        allocated(0, supply, target) == 0,
{
    lemma_div_of0(target);
}

/// Allocation is monotonic in the contribution.
pub proof fn lemma_allocated_monotonic(c1: int, c2: int, supply: int, target: int)
    requires
        0 <= c1 <= c2,
        0 <= supply,
        0 < target,
    ensures
        allocated(c1, supply, target) <= allocated(c2, supply, target),
{
    lemma_mul_inequality(c1, c2, supply);
    lemma_div_is_ordered(c1 * supply, c2 * supply, target);
}

/// Floor division is superadditive: rounding two addends down separately
/// loses at least as much as rounding their sum down once.
pub proof fn lemma_div_sum_le(a: int, b: int, d: int)
    requires
        0 <= a,
        0 <= b,
        0 < d,
    ensures
        a / d + b / d <= (a + b) / d,
{
    lemma_fundamental_div_mod(a, d);
    lemma_fundamental_div_mod(b, d);
    lemma_mod_division_less_than_divisor(a, d);
    lemma_mod_division_less_than_divisor(b, d);
    let q = a / d + b / d;
    lemma_mul_is_distributive_add(d, a / d, b / d);
    assert(d * q <= a + b);
    lemma_div_multiples_vanish(q, d);
    lemma_div_is_ordered(d * q, a + b, d);
}

/// Sums of resource amounts are never negative.
pub proof fn lemma_sum_amounts_nonneg(amounts: Seq<u64>)
    ensures
        0 <= sum_amounts(amounts),
    decreases amounts.len(),
{
    if amounts.len() > 0 {
        lemma_sum_amounts_nonneg(amounts.drop_last());
    }
}

/// Each single amount is bounded by the sum of its sequence.
pub proof fn lemma_element_le_sum(amounts: Seq<u64>, i: int)
    requires
        0 <= i < amounts.len(),
    ensures
        amounts[i] <= sum_amounts(amounts),
    decreases amounts.len(),
{
    lemma_sum_amounts_nonneg(amounts.drop_last());
    if i < amounts.len() - 1 {
        lemma_element_le_sum(amounts.drop_last(), i);
    }
}

/// Summing the individual allocations loses no more than allocating the
/// whole sum at once: the rounding dust is never negative.
pub proof fn lemma_sum_allocated_le(amounts: Seq<u64>, supply: int, target: int)
    requires
        0 <= supply,
        0 < target,
    ensures
        0 <= sum_allocated(amounts, supply, target),
        sum_allocated(amounts, supply, target)
            <= allocated(sum_amounts(amounts), supply, target),
    decreases amounts.len(),
{
    if amounts.len() == 0 {
        lemma_allocated_zero(supply, target);
    } else {
        let rest = amounts.drop_last();
        let x = amounts.last() as int;
        lemma_sum_allocated_le(rest, supply, target);
        lemma_sum_amounts_nonneg(rest);
        lemma_mul_nonnegative(x, supply);
        lemma_div_pos_is_pos(x * supply, target);
        lemma_div_sum_le(sum_amounts(rest) * supply, x * supply, target);
        vstd::arithmetic::mul::lemma_mul_is_distributive_add_other_way(
            supply,
            sum_amounts(rest),
            x,
        );
    }
}

/// Pro-rata allocations never over-distribute: as long as the amounts sum to
/// at most the target, the individual allocations sum to at most the supply.
pub proof fn lemma_allocation_sum_bounded(amounts: Seq<u64>, supply: u64, target: u64)
    requires
        target > 0,
        sum_amounts(amounts) <= target,
    ensures
        0 <= sum_allocated(amounts, supply as int, target as int) <= supply,
{
    lemma_sum_allocated_le(amounts, supply as int, target as int);
    lemma_sum_amounts_nonneg(amounts);
    lemma_allocated_bounds(sum_amounts(amounts), supply as int, target as int);
}

/// An allocation of nonnegative inputs is never negative.
pub proof fn lemma_allocated_nonneg(contribution: int, supply: int, target: int)
    requires
        0 <= contribution,
        0 <= supply,
        0 < target,
    ensures
        0 <= allocated(contribution, supply, target),
{
    lemma_mul_nonnegative(contribution, supply);
    lemma_div_pos_is_pos(contribution * supply, target);
}

/// Each single allocation is bounded by the sum of its sequence's
/// allocations.
pub proof fn lemma_allocated_element_le_sum(amounts: Seq<u64>, i: int, supply: int, target: int)
    requires
        0 <= i < amounts.len(),
        0 <= supply,
        0 < target,
    ensures
        allocated(amounts[i] as int, supply, target) <= sum_allocated(amounts, supply, target),
    decreases amounts.len(),
{
    lemma_sum_allocated_le(amounts.drop_last(), supply, target);
    if i < amounts.len() - 1 {
        lemma_allocated_element_le_sum(amounts.drop_last(), i, supply, target);
        lemma_allocated_nonneg(amounts.last() as int, supply, target);
    }
}

/// A prefix of a sequence of amounts never sums to more than the whole.
pub proof fn lemma_sum_amounts_prefix_le(amounts: Seq<u64>, j: int)
    requires
        0 <= j <= amounts.len(),
    ensures
        sum_amounts(amounts.subrange(0, j)) <= sum_amounts(amounts),
    decreases amounts.len(),
{
    if j == amounts.len() {
        assert(amounts.subrange(0, j) =~= amounts);
    } else {
        assert(amounts.subrange(0, j) =~= amounts.drop_last().subrange(0, j));
        lemma_sum_amounts_prefix_le(amounts.drop_last(), j);
    }
}

/// Appending one allocation adds exactly that allocation to the sum.
pub proof fn lemma_sum_allocated_push(amounts: Seq<u64>, v: u64, supply: int, target: int)
    ensures
        sum_allocated(amounts.push(v), supply, target)
            == sum_allocated(amounts, supply, target) + allocated(v as int, supply, target),
{
    assert(amounts.push(v).drop_last() =~= amounts);
}

/// Appending one amount adds exactly that amount to the sum.
pub proof fn lemma_sum_amounts_push(amounts: Seq<u64>, v: u64)
    ensures
        sum_amounts(amounts.push(v)) == sum_amounts(amounts) + v,
{
    assert(amounts.push(v).drop_last() =~= amounts);
}

/// Replacing one amount shifts the sum by exactly the difference.
pub proof fn lemma_sum_amounts_update(amounts: Seq<u64>, i: int, v: u64)
    requires
        0 <= i < amounts.len(),
    ensures
        sum_amounts(amounts.update(i, v)) == sum_amounts(amounts) - amounts[i] + v,
    decreases amounts.len(),
{
    let updated = amounts.update(i, v);
    if i == amounts.len() - 1 {
        assert(updated.drop_last() =~= amounts.drop_last());
    } else {
        assert(updated.drop_last() =~= amounts.drop_last().update(i, v));
        lemma_sum_amounts_update(amounts.drop_last(), i, v);
    }
}

} // verus!
