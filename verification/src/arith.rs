//! Overflow checks on `u32` sums and products, and the parity of a digit sum.

use vstd::prelude::*;

verus! {

/// The text of the error that the `Result` checks return on overflow.
pub open spec fn too_large_message() -> Seq<char> {
    "The result is greater than the size of u32"@
}

/// Checks that `x + y` fits in a `u32`. A sum that does not fit is a
/// caller's error, which this check answers with a panic; `requires` rules
/// it out, so the check returns `true`.
pub fn check_size_add(x: u32, y: u32) -> (r: bool)
    requires
        x + y <= u32::MAX,
    ensures
        r,
{
    let max32: u32 = u32::MAX;
    let sum: u32 = x + y;
    sum <= max32
}

/// `Ok(x + y)` when the sum fits in a `u32`, otherwise the error
/// "The result is greater than the size of u32".
pub fn check_size_add_result(x: u32, y: u32) -> (r: Result<u32, &'static str>)
    ensures
        match r {
            Ok(v) => x + y <= u32::MAX && v == x + y,
            Err(e) => x + y > u32::MAX && e@ == too_large_message(),
        },
{
    match x.checked_add(y) {
        Some(v) => Ok(v),
        None => Err("The result is greater than the size of u32"),
    }
}

/// Checks that `x * y` fits in a `u32`. A product that does not fit is a
/// caller's error, which this check answers with a panic; `requires` rules
/// it out, so the check returns `true`.
pub fn check_size_mult(x: u32, y: u32) -> (r: bool)
    requires
        x * y <= u32::MAX,
    ensures
        r,
{
    let max32: u32 = u32::MAX;
    let product: u32 = x * y;
    product <= max32
}

/// `Ok(x * y)` when the product fits in a `u32`, otherwise the error
/// "The result is greater than the size of u32".
pub fn check_size_mult_result(x: u32, y: u32) -> (r: Result<u32, &'static str>)
    ensures
        match r {
            Ok(v) => x * y <= u32::MAX && v == x * y,
            Err(e) => x * y > u32::MAX && e@ == too_large_message(),
        },
{
    match x.checked_mul(y) {
        Some(v) => Ok(v),
        None => Err("The result is greater than the size of u32"),
    }
}

/// The sum of the decimal digits of `n`.
pub open spec fn digit_sum(n: nat) -> nat
    decreases n,
{
    if n == 0 {
        0
    } else {
        n % 10 + digit_sum(n / 10)
    }
}

/// A digit sum never exceeds the number itself.
proof fn lemma_digit_sum_le(n: nat)
    ensures
        digit_sum(n) <= n,
    decreases n,
{
    if n > 0 {
        lemma_digit_sum_le(n / 10);
    }
}

/// The sum of the decimal digits of `n` when that sum is even, else `None`.
pub fn my_function(n: u32) -> (r: Option<u32>)
    ensures
        r == (if digit_sum(n as nat) % 2 == 0 {
            Some(digit_sum(n as nat) as u32)
        } else {
            None::<u32>
        }),
{
    let mut m: u32 = n;
    let mut sum_cif: u32 = 0;
    proof {
        lemma_digit_sum_le(n as nat);
    }
    while m != 0
        invariant
            sum_cif + digit_sum(m as nat) == digit_sum(n as nat),
            digit_sum(n as nat) <= n,
        decreases m,
    {
        sum_cif = sum_cif + m % 10;
        m = m / 10;
    }
    if sum_cif % 2 == 0 {
        return Some(sum_cif);
    }
    None
}

} // verus!
