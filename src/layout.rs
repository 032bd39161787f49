use vstd::prelude::*;
use vstd::arithmetic::div_mod::{lemma_div_is_ordered, lemma_div_multiples_vanish};
use vstd::arithmetic::mul::lemma_mul_inequality;

verus! {

/// Columns that the standard style keeps for its label and borders.
pub const STANDARD_RESERVE: usize = 30;

/// Width of the standard bar on a terminal `w` columns wide: `w - 30`, and
/// zero on a narrower terminal.
pub open spec fn standard_width_spec(w: nat) -> nat {
    if w >= STANDARD_RESERVE {
        (w - STANDARD_RESERVE) as nat
    } else {
        0
    }
}

/// Width of the wave bar on a terminal `w` columns wide, beside a label of
/// `label_len` characters and two borders; zero when they do not fit.
pub open spec fn wave_width_spec(w: nat, label_len: nat) -> nat {
    if w >= label_len + 2 {
        (w - label_len - 2) as nat
    } else {
        0
    }
}

/// Filled columns of a bar `usable` columns wide at `step` of `total`:
/// `floor(usable * step / total)`, never more than the bar itself.
pub open spec fn filled_width_spec(usable: nat, step: nat, total: nat) -> nat {
    let f = usable * step / total;
    if f <= usable {
        f
    } else {
        usable
    }
}

/// Width of the standard bar on a terminal `w` columns wide.
pub fn standard_width(w: usize) -> (r: usize)
    ensures
        r == standard_width_spec(w as nat),
{
    if w >= STANDARD_RESERVE {
        w - STANDARD_RESERVE
    } else {
        0
    }
}

/// Width of the wave bar on a terminal `w` columns wide beside a label of
/// `label_len` characters.
pub fn wave_width(w: usize, label_len: usize) -> (r: usize)
    ensures
        r == wave_width_spec(w as nat, label_len as nat),
{
    if label_len < w && w - label_len >= 2 {
        w - label_len - 2
    } else {
        0
    }
}

/// Filled columns of a bar `usable` columns wide at `step` of `total`.
pub fn filled_width(usable: usize, step: usize, total: usize) -> (r: usize)
    requires
        total >= 1,
    ensures
        r == filled_width_spec(usable as nat, step as nat, total as nat),
        r <= usable,
{
    let u = usable as u128;
    let s = step as u128;
    assert(u * s <= u64::MAX as int * u64::MAX as int) by (nonlinear_arith)
        requires
            u <= u64::MAX,
            s <= u64::MAX,
    ;
    let f = u * s / (total as u128);
    if f <= u {
        f as usize
    } else {
        usable
    }
}

/// The filled part of a bar never shrinks as steps are taken, and never
/// outgrows the bar.
pub proof fn lemma_filled_width_monotone(usable: nat, total: nat, s1: nat, s2: nat)
    requires
        total >= 1,
        s1 <= s2 <= total,
    ensures
        filled_width_spec(usable, s1, total) <= filled_width_spec(usable, s2, total),
        filled_width_spec(usable, s2, total) <= usable,
{
    lemma_mul_inequality(s1 as int, s2 as int, usable as int);
    assert(usable * s1 == s1 * usable) by (nonlinear_arith);
    assert(usable * s2 == s2 * usable) by (nonlinear_arith);
    lemma_div_is_ordered((usable * s1) as int, (usable * s2) as int, total as int);
}

/// A bar is empty before the first step and full at the last one.
pub proof fn lemma_filled_width_ends(usable: nat, total: nat)
    requires
        total >= 1,
    ensures
        filled_width_spec(usable, 0, total) == 0,
        filled_width_spec(usable, total, total) == usable,
{
    assert(usable * 0 == 0) by (nonlinear_arith);
    assert(usable * total == total * usable) by (nonlinear_arith);
    lemma_div_multiples_vanish(usable as int, total as int);
}

} // verus!
