//! The daily update rule engine: clamp utilities bounding quality moves to
//! `[QUALITY_MIN, QUALITY_MAX]`, and the per-category transition that takes an
//! item's `(sell_in, quality)` to the next day's pair.

use vstd::prelude::*;

use crate::classify::Kind;

verus! {

pub const QUALITY_MIN: i32 = 0;

pub const QUALITY_MAX: i32 = 50;

/// `i32` addition saturating at the representable bounds, over mathematical integers.
pub open spec fn spec_saturating_add(a: int, b: int) -> int {
    if a + b > i32::MAX {
        i32::MAX as int
    } else if a + b < i32::MIN {
        i32::MIN as int
    } else {
        a + b
    }
}

/// `i32` subtraction saturating at the representable bounds, over mathematical integers.
pub open spec fn spec_saturating_sub(a: int, b: int) -> int {
    if a - b < i32::MIN {
        i32::MIN as int
    } else if a - b > i32::MAX {
        i32::MAX as int
    } else {
        a - b
    }
}

/// An increase of `n`, capped at `QUALITY_MAX`. A value already at or past the
/// cap is returned unchanged: out-of-range inputs are never healed.
pub open spec fn spec_inc_to_cap(q: int, n: int) -> int {
    if q >= QUALITY_MAX {
        q
    } else if spec_saturating_add(q, n) < QUALITY_MAX {
        spec_saturating_add(q, n)
    } else {
        QUALITY_MAX as int
    }
}

/// A decrease of `n`, floored at `QUALITY_MIN`. A value already at or past the
/// floor is returned unchanged: out-of-range inputs are never healed.
pub open spec fn spec_dec_to_floor(q: int, n: int) -> int {
    if q <= QUALITY_MIN {
        q
    } else if spec_saturating_sub(q, n) > QUALITY_MIN {
        spec_saturating_sub(q, n)
    } else {
        QUALITY_MIN as int
    }
}

pub fn inc_to_cap(q: i32, n: i32) -> (r: i32)
    ensures
        r as int == spec_inc_to_cap(q as int, n as int),
{
    if q >= QUALITY_MAX {
        q
    } else {
        let sum: i32 = if n >= 0 {
            if q > i32::MAX - n {
                i32::MAX
            } else {
                q + n
            }
        } else {
            if q < i32::MIN - n {
                i32::MIN
            } else {
                q + n
            }
        };
        if sum < QUALITY_MAX {
            sum
        } else {
            QUALITY_MAX
        }
    }
}

pub fn dec_to_floor(q: i32, n: i32) -> (r: i32)
    ensures
        r as int == spec_dec_to_floor(q as int, n as int),
{
    if q <= QUALITY_MIN {
        q
    } else {
        let diff: i32 = if n >= 0 {
            if q < i32::MIN + n {
                i32::MIN
            } else {
                q - n
            }
        } else {
            if q > i32::MAX + n {
                i32::MAX
            } else {
                q - n
            }
        };
        if diff > QUALITY_MIN {
            diff
        } else {
            QUALITY_MIN
        }
    }
}

/// One day's saturating advance of `sell_in`: a decrement that stops at the
/// minimum representable value instead of wrapping around.
pub open spec fn spec_next_sell_in(sell_in: int) -> int {
    if sell_in == i32::MIN {
        sell_in
    } else {
        sell_in - 1
    }
}

/// One day's transition for an item of the given category and conjured flag:
/// the next `(sell_in, quality)` pair. Legendary items are returned unchanged.
/// For the rest, the same-day quality move branches on the category and on
/// `sell_in` before its decrement, `sell_in` then advances saturating at the
/// representable minimum, and a second expiry move applies when the new
/// `sell_in` is negative. The conjured flag doubles the Normal degradation
/// step and nothing else.
pub open spec fn spec_update(kind: Kind, is_conjured: bool, sell_in: int, quality: int) -> (
    int,
    int,
) {
    if kind == Kind::Legendary {
        (sell_in, quality)
    } else {
        let delta: int = if is_conjured {
            2
        } else {
            1
        };
        let q1 = match kind {
            Kind::AgedBrie => spec_inc_to_cap(quality, 1),
            Kind::BackstagePass => if sell_in >= 11 {
                spec_inc_to_cap(quality, 1)
            } else if sell_in >= 6 {
                spec_inc_to_cap(quality, 2)
            } else if sell_in >= 1 {
                spec_inc_to_cap(quality, 3)
            } else {
                quality
            },
            Kind::Normal => spec_dec_to_floor(quality, delta),
            Kind::Legendary => quality,
        };
        let s1 = spec_next_sell_in(sell_in);
        let q2 = if s1 < 0 {
            match kind {
                Kind::AgedBrie => spec_inc_to_cap(q1, 1),
                Kind::BackstagePass => 0,
                Kind::Normal => spec_dec_to_floor(q1, delta),
                Kind::Legendary => q1,
            }
        } else {
            q1
        };
        (s1, q2)
    }
}

/// `spec_update` iterated over a run of days, the state carried forward.
pub open spec fn spec_update_days(
    kind: Kind,
    is_conjured: bool,
    sell_in: int,
    quality: int,
    days: nat,
) -> (int, int)
    decreases days,
{
    if days == 0 {
        (sell_in, quality)
    } else {
        let one = spec_update(kind, is_conjured, sell_in, quality);
        spec_update_days(kind, is_conjured, one.0, one.1, (days - 1) as nat)
    }
}

/// The diagnostic precondition on an item before an update: a legendary item
/// carries quality 80, any other category carries a quality already within
/// `[QUALITY_MIN, QUALITY_MAX]`.
pub open spec fn spec_preconditions(kind: Kind, q: int) -> bool {
    if kind == Kind::Legendary {
        q == 80
    } else {
        QUALITY_MIN <= q <= QUALITY_MAX
    }
}

/// The strict-mode entry point for the diagnostic precondition. Instead of a
/// run-time abort on a violation, a caller must show the precondition up
/// front, so the check can never fail.
pub fn assert_preconditions(kind: &Kind, q: i32)
    requires
        spec_preconditions(*kind, q as int),
{
}

} // verus!
