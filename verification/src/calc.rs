//! An unrelated arithmetic helper kept alongside the account service:
//! checked integer division.

use vstd::prelude::*;

verus! {

/// Division truncating toward zero, as Rust's `/` computes it on signed
/// integers. Verus's own `/` on `int` is Euclidean division, which rounds
/// away from zero when exactly one operand is negative, so the negative
/// cases are spelled out here.
pub open spec fn div_trunc(x: int, d: int) -> int
    recommends
        d != 0,
{
    if x == 0 {
        0
    } else if x > 0 && d > 0 {
        x / d
    } else if x < 0 && d < 0 {
        (x * -1) / (d * -1)
    } else if x < 0 {
        ((x * -1) / d) * -1
    } else {
        (x / (d * -1)) * -1
    }
}

/// Divides `a` by `b`, truncating toward zero; division by zero is reported
/// as an error rather than a panic. The one quotient that does not fit in
/// `i32`, `i32::MIN / -1`, is excluded up front.
pub fn divide(a: i32, b: i32) -> (r: Result<i32, &'static str>)
    requires
        !(a == i32::MIN && b == -1),
    ensures
        b != 0 ==> (r matches Ok(q) && q == div_trunc(a as int, b as int)),
        b == 0 ==> (r matches Err(m) && m@ == "Cannot divide by zero"@),
{
    if b == 0 {
        return Err("Cannot divide by zero");
    }

    proof {
        lemma_div_trunc_fits_i32(a as int, b as int);
    }
    match a.checked_div(b) {
        Some(q) => Ok(q),
        None => vstd::pervasive::unreached(),
    }
}

/// For `i32` operands other than `i32::MIN / -1`, the truncated quotient
/// fits back into `i32`.
proof fn lemma_div_trunc_fits_i32(x: int, d: int)
    requires
        i32::MIN <= x <= i32::MAX,
        i32::MIN <= d <= i32::MAX,
        d != 0,
        !(x == i32::MIN && d == -1),
    ensures
        i32::MIN <= div_trunc(x, d) <= i32::MAX,
{
    if x != 0 {
        if x > 0 && d > 0 {
            vstd::arithmetic::div_mod::lemma_div_nonincreasing(x, d);
            vstd::arithmetic::div_mod::lemma_div_pos_is_pos(x, d);
        } else if x < 0 && d < 0 {
            vstd::arithmetic::div_mod::lemma_div_nonincreasing(x * -1, d * -1);
            vstd::arithmetic::div_mod::lemma_div_pos_is_pos(x * -1, d * -1);
            if d * -1 >= 2 {
                vstd::arithmetic::div_mod::lemma_div_decreases(x * -1, d * -1);
            }
        } else if x < 0 {
            vstd::arithmetic::div_mod::lemma_div_nonincreasing(x * -1, d);
            vstd::arithmetic::div_mod::lemma_div_pos_is_pos(x * -1, d);
        } else {
            vstd::arithmetic::div_mod::lemma_div_nonincreasing(x, d * -1);
            vstd::arithmetic::div_mod::lemma_div_pos_is_pos(x, d * -1);
        }
    }
}

} // verus!
