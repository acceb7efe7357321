//! Facts about division with remainder that the resampling proofs use.

use vstd::prelude::*;
use vstd::arithmetic::div_mod::lemma_fundamental_div_mod;
use vstd::arithmetic::div_mod::lemma_fundamental_div_mod_converse;
use vstd::arithmetic::div_mod::lemma_mod_bound;
use vstd::arithmetic::div_mod::lemma_div_pos_is_pos;

verus! {

/// Dividing a sum: the quotient of `x + y` is the quotient of `x` plus the
/// quotient of what is left of `x` together with `y`, and the remainders
/// agree.
pub proof fn lemma_div_mod_split(x: int, y: int, d: int)
    requires
        0 <= x,
        0 <= y,
        0 < d,
    ensures
        (x + y) / d == x / d + (x % d + y) / d,
        (x + y) % d == (x % d + y) % d,
{
    let q1 = x / d;
    let r1 = x % d;
    let q2 = (r1 + y) / d;
    let r2 = (r1 + y) % d;
    lemma_fundamental_div_mod(x, d);
    lemma_fundamental_div_mod(r1 + y, d);
    lemma_mod_bound(r1 + y, d);
    assert(x + y == (q1 + q2) * d + r2) by (nonlinear_arith)
        requires
            x == d * q1 + r1,
            r1 + y == d * q2 + r2,
    ;
    lemma_fundamental_div_mod_converse(x + y, d, q1 + q2, r2);
}

/// A quotient does not shrink when the dividend grows.
pub proof fn lemma_div_monotone(x: int, y: int, d: int)
    requires
        0 <= x <= y,
        0 < d,
    ensures
        x / d <= y / d,
{
    lemma_div_mod_split(x, y - x, d);
    lemma_mod_bound(x, d);
    lemma_div_pos_is_pos(x % d + (y - x), d);
}

} // verus!
