use vstd::prelude::*;

verus! {

/// The first whole number that a single-precision float cannot tell from
/// its neighbours: 2^24.
pub const SINGLE_LIMIT: u64 = 0x100_0000;

/// The first whole number that a double-precision float cannot tell from
/// its neighbours: 2^53.
pub const DOUBLE_LIMIT: u64 = 0x20_0000_0000_0000;

/// The distance between neighbouring floats around `x`, in a format that
/// holds every whole number below `limit`: 1 below `limit`, and twice as
/// much with each doubling of `x` from there.
pub open spec fn float_step(x: nat, limit: nat) -> nat
    decreases x,
{
    if x < limit || x < 2 {
        1
    } else {
        2 * float_step(x / 2, limit)
    }
}

/// `x` rounded to a multiple of `step`: to the nearest one, and to the even
/// multiple where two are equally near.
pub open spec fn rounded_to(x: nat, step: nat) -> nat {
    let below = (x / step) * step;
    let rest = x - below;
    if 2 * rest > step || (2 * rest == step && (x / step) % 2 == 1) {
        (below + step) as nat
    } else {
        below
    }
}

/// The single-precision float nearest to `x`.
pub open spec fn as_single(x: nat) -> nat {
    rounded_to(x, float_step(x, SINGLE_LIMIT as nat))
}

/// The double-precision float nearest to `x`.
pub open spec fn as_double(x: nat) -> nat {
    rounded_to(x, float_step(x, DOUBLE_LIMIT as nat))
}

/// The distance between neighbouring single-precision floats around `x`.
pub fn single_step(x: u64) -> (step: u64)
    ensures
        step == float_step(x as nat, SINGLE_LIMIT as nat),
        step >= 1,
        step == 1 || step * 0x80_0000 <= x,
        x < SINGLE_LIMIT ==> step == 1,
    decreases x,
{
    if x < SINGLE_LIMIT {
        1
    } else {
        2 * single_step(x / 2)
    }
}

/// The distance between neighbouring double-precision floats around `x`.
pub fn double_step(x: u64) -> (step: u64)
    ensures
        step == float_step(x as nat, DOUBLE_LIMIT as nat),
        step >= 1,
        step == 1 || step * 0x10_0000_0000_0000 <= x,
        x < DOUBLE_LIMIT ==> step == 1,
    decreases x,
{
    if x < DOUBLE_LIMIT {
        1
    } else {
        2 * double_step(x / 2)
    }
}

/// `x` rounded to a multiple of `step`.
pub fn round_to(x: u64, step: u64) -> (r: u128)
    requires
        step >= 1,
    ensures
        r == rounded_to(x as nat, step as nat),
        r <= x + step,
        x <= r + step,
        step == 1 ==> r == x,
{
    let count: u64 = x / step;
    assert(count * step <= x && x - count * step < step) by (nonlinear_arith)
        requires
            count == x / step,
            step >= 1,
    ;
    let below: u64 = count * step;
    let rest: u64 = x - below;
    if rest > step - rest || (rest == step - rest && count % 2 == 1) {
        below as u128 + step as u128
    } else {
        below as u128
    }
}

/// The single-precision float nearest to `x`.
pub fn nearest_single(x: u64) -> (r: u128)
    ensures
        r == as_single(x as nat),
        x < SINGLE_LIMIT ==> r == x,
        r <= x + x / 0x80_0000,
{
    let step = single_step(x);
    round_to(x, step)
}

/// The double-precision float nearest to `x`.
pub fn nearest_double(x: u64) -> (r: u128)
    ensures
        r == as_double(x as nat),
        x < DOUBLE_LIMIT ==> r == x,
        r <= 0x1_0000_0000_0000_1000,
{
    let step = double_step(x);
    round_to(x, step)
}

} // verus!
