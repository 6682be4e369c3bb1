//! Trial-division primality over `u16` and the search for the next number
//! that passes it.

use vstd::prelude::*;
use vstd::arithmetic::div_mod::*;

verus! {

/// The largest candidate the search examines is one below this bound.
pub open spec fn search_bound() -> int {
    65535
}

/// What `isprime` accepts: `x` is at least 2 and no `i` with
/// `2 <= i < x / 2` divides it. Every prime passes; of the numbers that are
/// not prime, only 4 passes too, since its one proper divisor 2 equals `4 / 2`.
pub open spec fn passes_trial_division(x: int) -> bool {
    &&& x >= 2
    &&& forall|i: int| 2 <= i < x / 2 ==> #[trigger] (x % i) != 0
}

/// A prime: at least 2, and no divisor between 2 and itself.
pub open spec fn is_prime(x: int) -> bool {
    &&& x >= 2
    &&& forall|d: int| 2 <= d < x ==> #[trigger] (x % d) != 0
}

/// Trial division of `x` by every `i` with `2 <= i < x / 2`.
pub fn isprime(x: u16) -> (r: bool)
    ensures
        r == passes_trial_division(x as int),
{
    if x < 2 {
        return false;
    }
    let mut i: u16 = 2;
    while i < x / 2
        invariant
            x >= 2,
            2 <= i,
            forall|j: int| 2 <= j < i ==> #[trigger] (x as int % j) != 0,
        decreases x - i,
    {
        if x % i == 0 {
            return false;
        }
        i = i + 1;
    }
    true
}

/// `c` is the least number above `x` and below the search bound that
/// passes trial division.
pub open spec fn is_next_candidate(x: int, c: int) -> bool {
    &&& x < c < search_bound()
    &&& passes_trial_division(c)
    &&& forall|k: int| x < k < c ==> !#[trigger] passes_trial_division(k)
}

/// No number above `x` and below the search bound passes trial division.
pub open spec fn none_after(x: int) -> bool {
    forall|k: int| x < k < search_bound() ==> !#[trigger] passes_trial_division(k)
}

/// The least number above `x` and below 65535 that `isprime` accepts, or
/// `None` when there is none. `x` must be below 65535, since `x + 1` must
/// fit in a `u16`.
pub fn next_prime(x: u16) -> (r: Option<u16>)
    requires
        x < 65535,
    ensures
        match r {
            Some(c) => is_next_candidate(x as int, c as int),
            None => none_after(x as int),
        },
{
    let mut cx: u16 = x + 1;
    let mut ok: u8 = 0;
    while ok == 0
        invariant
            x < cx,
            ok <= 1,
            ok == 1 ==> cx < 65535 && passes_trial_division(cx as int),
            forall|k: int| x < k < cx ==> !#[trigger] passes_trial_division(k),
        decreases 2 * (65535 - cx) + 1 - ok,
    {
        if cx >= 65535 {
            return None;
        }
        if isprime(cx) {
            ok = 1;
        } else {
            cx = cx + 1;
        }
    }
    Some(cx)
}

/// Every number above `x` and below 65535 that `isprime` accepts, in
/// increasing order: the values that repeated calls of `next_prime`, each
/// from the value before, produce until it returns `None`.
pub fn primes_after(x: u16) -> (r: Vec<u16>)
    ensures
        forall|i: int| 0 <= i < r.len() ==> x < #[trigger] r@[i] < search_bound()
            && passes_trial_division(r@[i] as int),
        forall|i: int, j: int| 0 <= i < j < r.len() ==> r@[i] < r@[j],
        forall|c: int|
            x < c < search_bound() && #[trigger] passes_trial_division(c) ==> r@.contains(
                c as u16,
            ),
{
    let mut out: Vec<u16> = Vec::new();
    if x >= 65535 {
        return out;
    }
    let mut cur: u16 = x;
    let mut next = next_prime(cur);
    while next.is_some()
        invariant
            x <= cur < 65535,
            forall|i: int| 0 <= i < out.len() ==> x < #[trigger] out@[i] <= cur
                && passes_trial_division(out@[i] as int),
            forall|i: int, j: int| 0 <= i < j < out.len() ==> out@[i] < out@[j],
            forall|c: int|
                x < c <= cur && #[trigger] passes_trial_division(c) ==> out@.contains(c as u16),
            match next {
                Some(c) => is_next_candidate(cur as int, c as int),
                None => none_after(cur as int),
            },
        decreases 65535 - cur,
    {
        let v = next.unwrap();
        let ghost before = out@;
        out.push(v);
        proof {
            assert(out@[out.len() - 1] == v);
            assert forall|c: int|
                x < c <= v && #[trigger] passes_trial_division(c) implies out@.contains(
                c as u16,
            ) by {
                if c <= cur {
                    let k = choose|k: int| 0 <= k < before.len() && before[k] == c as u16;
                    assert(out@[k] == c as u16);
                } else {
                    assert(c == v);
                }
            }
        }
        cur = v;
        next = next_prime(cur);
    }
    out
}


/// A divisor `d` of `x` with `2 <= d < x` gives a divisor `m <= x / m` with
/// `2 <= m`, and its cofactor `x / m` is at least `m`.
proof fn lemma_small_divisor(x: int, d: int) -> (m: int)
    requires
        2 <= d < x,
        x % d == 0,
    ensures
        2 <= m,
        x % m == 0,
        m * (x / m) == x,
        x / m >= m,
{
    lemma_fundamental_div_mod(x, d);
    let e = x / d;
    assert(x == d * e);
    assert(e >= 2) by (nonlinear_arith)
        requires
            x == d * e,
            2 <= d < x,
    ;
    if d <= e {
        d
    } else {
        assert(x == e * d) by (nonlinear_arith)
            requires
                x == d * e,
        ;
        lemma_mod_multiples_basic(d, e);
        lemma_div_multiples_vanish(d, e);
        assert(x / e == d);
        e
    }
}

/// Trial division as `isprime` performs it decides primality for every
/// number except 4, which it accepts though 4 is not prime.
pub proof fn lemma_trial_division_is_primality(x: int)
    requires
        x != 4,
    ensures
        passes_trial_division(x) <==> is_prime(x),
{
    if is_prime(x) {
        assert forall|i: int| 2 <= i < x / 2 implies #[trigger] (x % i) != 0 by {
            assert(x % i != 0);
        }
    }
    if passes_trial_division(x) && !is_prime(x) {
        let d = choose|d: int| 2 <= d < x && #[trigger] (x % d) == 0;
        let m = lemma_small_divisor(x, d);
        let k = x / m;
        if k == 2 {
            assert(m == 2);
            assert(x == 4);
        } else {
            assert(m < x / 2) by (nonlinear_arith)
                requires
                    m * k == x,
                    k >= 3,
                    m >= 2,
            ;
            assert(x % m != 0);
        }
    }
}

} // verus!
