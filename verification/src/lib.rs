use vstd::prelude::*;

pub mod aggregate;
pub mod config;
pub mod games;
pub mod history;
pub mod jsonout;
pub mod migrate;
pub mod normalize;
pub mod records;
pub mod session;

verus! {

/// Truncating integer division: the quotient of `p` by `d` rounded toward
/// zero, as machine division on signed integers computes it.
pub open spec fn div_trunc(p: int, d: int) -> int
    recommends
        d > 0,
{
    if p >= 0 {
        p / d
    } else {
        -((-p) / d)
    }
}

/// Truncating division of a signed value by a small positive divisor.
pub fn div_trunc_i128(p: i128, d: i128) -> (r: i128)
    requires
        2 <= d <= 0x10000,
        i128::MIN < p,
    ensures
        r as int == div_trunc(p as int, d as int),
{
    let neg: bool = p < 0;
    let mag: u128 = if p >= 0 {
        p as u128
    } else {
        (-p) as u128
    };
    let q: u128 = mag / (d as u128);
    proof {
        vstd::arithmetic::div_mod::lemma_div_nonincreasing(mag as int, d as int);
        vstd::arithmetic::div_mod::lemma_div_pos_is_pos(mag as int, d as int);
    }
    if neg {
        -(q as i128)
    } else {
        q as i128
    }
}

} // verus!
