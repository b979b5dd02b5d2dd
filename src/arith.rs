use vstd::prelude::*;

verus! {

/// Returns `a + b`.
///
/// The sum must fit in an `i32`.
pub fn add(a: i32, b: i32) -> (r: i32)
    requires
        i32::MIN <= a + b <= i32::MAX,
    ensures
        r == a + b,
{
    a + b
}

/// A broken adder: it subtracts its second argument instead of adding it.
///
/// The difference must fit in an `i32`.
pub fn bad_add(a: i32, b: i32) -> (r: i32)
    requires
        i32::MIN <= a - b <= i32::MAX,
    ensures
        r == a - b,
{
    a - b
}

/// Divides `a` by `b`, for a divisor that is not zero and not larger than
/// the dividend, so that the quotient (rounded down) is at least one.
pub fn divide_non_zero_result(a: u32, b: u32) -> (r: u32)
    requires
        b != 0,
        a >= b,
    ensures
        r == a / b,
        r >= 1,
{
    let q = a / b;
    proof {
        vstd::arithmetic::div_mod::lemma_div_is_ordered(b as int, a as int, b as int);
        vstd::arithmetic::div_mod::lemma_div_by_self(b as int);
    }
    q
}

} // verus!
