//! Summation of `i32` slices, with the running total kept in an `i32`.

use vstd::prelude::*;

verus! {

/// The mathematical sum of the first `n` entries of `s`; zero when `n` is not positive.
pub open spec fn prefix_sum(s: Seq<i32>, n: int) -> int
    recommends
        n <= s.len(),
    decreases n,
{
    if n <= 0 {
        0
    } else {
        prefix_sum(s, n - 1) + s[n - 1]
    }
}

/// The mathematical sum of all entries of `s`.
pub open spec fn sum_of(s: Seq<i32>) -> int {
    prefix_sum(s, s.len() as int)
}

/// Every running total of `s`, accumulated from the left, is representable as an `i32`.
pub open spec fn running_totals_fit(s: Seq<i32>) -> bool {
    forall|n: int| 0 <= n <= s.len() ==> i32::MIN <= #[trigger] prefix_sum(s, n) <= i32::MAX
}

/// Adds up `numbers` from left to right and returns the total; zero for an empty slice.
///
/// The running total is an `i32`, so the caller has to rule out overflow at
/// every step, not only for the final result.
pub fn calculate_sum(numbers: &[i32]) -> (sum: i32)
    requires
        running_totals_fit(numbers@),
    ensures
        sum == sum_of(numbers@),
{
    let mut sum: i32 = 0;
    for num in it: numbers.iter()
        invariant
            running_totals_fit(numbers@),
            sum == prefix_sum(numbers@, it.index()),
    {
        // Names the next running total, which the precondition bounds.
        assert(prefix_sum(numbers@, it.index() + 1) == sum + *num);
        sum += *num;
    }
    sum
}

} // verus!
