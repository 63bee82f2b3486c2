//! Arithmetic on tic values: a 32-bit counter that wraps to zero, where
//! "has the target been reached" is decided on the circle of 2^32 tics.
use vstd::prelude::*;
use vstd::arithmetic::div_mod::lemma_fundamental_div_mod_converse;

verus! {

/// Number of distinct tic values.
pub const TIC_RANGE: u64 = 0x1_0000_0000;

/// Half of the tic range: an alarm may be set at most this far into the future.
pub const HALF_RANGE: u32 = 0x8000_0000;

/// `x` taken modulo the tic range, as a tic value.
pub open spec fn wrap(x: int) -> u32 {
    (x % (TIC_RANGE as int)) as u32
}

/// How many tics lie between `from` and `to`, going forward on the circle.
pub open spec fn distance(from: u32, to: u32) -> u32 {
    wrap(to - from)
}

/// `target` counts as reached at `now` when `now` lies less than half the
/// range past it.
pub open spec fn due(now: u32, target: u32) -> bool {
    distance(target, now) < HALF_RANGE
}

/// The tic value `delta` tics after `base`, wrapping past the maximum.
pub fn tics_after(base: u32, delta: u32) -> (r: u32)
    ensures
        r == wrap(base + delta),
{
    base.wrapping_add(delta)
}

/// Tics from `from` forward to `to`, modulo the tic range.
pub fn tics_between(from: u32, to: u32) -> (r: u32)
    ensures
        r == distance(from, to),
{
    to.wrapping_sub(from)
}

/// Whether an alarm with target `target` is due at `now`.
pub fn is_due(now: u32, target: u32) -> (r: bool)
    ensures
        r == due(now, target),
{
    tics_between(target, now) < HALF_RANGE
}

/// `wrap` on values within one range of the tic range: at most one
/// multiple of the range is added or taken away.
pub proof fn lemma_wrap_near(x: int)
    requires
        -(TIC_RANGE as int) <= x < 2 * TIC_RANGE,
    ensures
        wrap(x) == (if x < 0 {
            x + TIC_RANGE
        } else if x < TIC_RANGE {
            x
        } else {
            x - TIC_RANGE
        }),
{
    let m = TIC_RANGE as int;
    if x < 0 {
        lemma_fundamental_div_mod_converse(x, m, -1, x + m);
    } else if x < m {
        lemma_fundamental_div_mod_converse(x, m, 0, x);
    } else {
        lemma_fundamental_div_mod_converse(x, m, 1, x - m);
    }
}

/// Counting forward from a counter value at which `target` is not yet due:
/// the target is at most half the range ahead, it is not due at any value
/// short of it, and it is due on reaching it.
pub proof fn lemma_approach(now: u32, target: u32, k: int)
    requires
        !due(now, target),
        0 <= k <= distance(now, target),
    ensures
        1 <= distance(now, target) <= HALF_RANGE,
        k < distance(now, target) ==> !due(wrap(now + k), target),
        k == distance(now, target) ==> wrap(now + k) == target,
        due(target, target),
{
    lemma_wrap_near(now - target);
    lemma_wrap_near(target - now);
    lemma_wrap_near(now + k);
    lemma_wrap_near(wrap(now + k) - target);
    lemma_wrap_near(0);
}

} // verus!
