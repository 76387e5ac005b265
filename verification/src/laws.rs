//! Properties of the classifier and of the rule engine, stated over their
//! specifications and proved once for all inputs.

use vstd::prelude::*;

use crate::classify::{spec_classify, Kind};
use crate::engine::{spec_update, spec_update_days, QUALITY_MAX, QUALITY_MIN};

verus! {

/// Classification reads the name alone: two names with the same characters
/// classify to the same conjured flag and category, so classifying a name
/// twice yields identical results.
pub proof fn lemma_classify_pure(a: Seq<char>, b: Seq<char>)
    requires
        a == b,
    ensures
        spec_classify(a) == spec_classify(b),
{
}

/// A legendary item is invariant: whatever its conjured flag, `sell_in` and
/// `quality`, one update returns both unchanged.
pub proof fn lemma_legendary_invariant(is_conjured: bool, sell_in: int, quality: int)
    ensures
        spec_update(Kind::Legendary, is_conjured, sell_in, quality) == (sell_in, quality),
{
}

/// For a non-legendary category, a quality already within
/// `[QUALITY_MIN, QUALITY_MAX]` stays within those bounds across one update.
pub proof fn lemma_quality_bounds(kind: Kind, is_conjured: bool, sell_in: int, quality: int)
    requires
        kind != Kind::Legendary,
        QUALITY_MIN <= quality <= QUALITY_MAX,
    ensures
        QUALITY_MIN <= spec_update(kind, is_conjured, sell_in, quality).1 <= QUALITY_MAX,
{
}

/// For a non-legendary category, a quality within bounds stays within bounds
/// over any run of days: every state reachable from one in bounds is in
/// bounds.
pub proof fn lemma_quality_bounds_days(
    kind: Kind,
    is_conjured: bool,
    sell_in: int,
    quality: int,
    days: nat,
)
    requires
        kind != Kind::Legendary,
        QUALITY_MIN <= quality <= QUALITY_MAX,
    ensures
        QUALITY_MIN <= spec_update_days(kind, is_conjured, sell_in, quality, days).1 <= QUALITY_MAX,
    decreases days,
{
    if days > 0 {
        let one = spec_update(kind, is_conjured, sell_in, quality);
        lemma_quality_bounds(kind, is_conjured, sell_in, quality);
        lemma_quality_bounds_days(kind, is_conjured, one.0, one.1, (days - 1) as nat);
    }
}

/// `sell_in` never grows: one update leaves it equal or smaller, and for a
/// non-legendary category strictly smaller unless it already sits at the
/// saturation floor. A legendary item keeps its `sell_in` exactly, so the
/// strict part does not apply to it.
pub proof fn lemma_sell_in_monotonic(kind: Kind, is_conjured: bool, sell_in: int, quality: int)
    ensures
        spec_update(kind, is_conjured, sell_in, quality).0 <= sell_in,
        kind != Kind::Legendary && sell_in != i32::MIN ==> spec_update(
            kind,
            is_conjured,
            sell_in,
            quality,
        ).0 < sell_in,
{
}

/// Saturation, not wraparound: from the minimum representable `sell_in`, one
/// update leaves `sell_in` at that minimum.
pub proof fn lemma_sell_in_saturates(kind: Kind, is_conjured: bool, quality: int)
    ensures
        spec_update(kind, is_conjured, i32::MIN as int, quality).0 == i32::MIN as int,
{
}

/// Saturation over any run of days: starting from the minimum representable
/// `sell_in`, repeated updates leave `sell_in` at that minimum, never flipping
/// it to a larger value.
pub proof fn lemma_sell_in_saturates_days(kind: Kind, is_conjured: bool, quality: int, days: nat)
    ensures
        spec_update_days(kind, is_conjured, i32::MIN as int, quality, days).0 == i32::MIN as int,
    decreases days,
{
    if days > 0 {
        let one = spec_update(kind, is_conjured, i32::MIN as int, quality);
        lemma_sell_in_saturates(kind, is_conjured, quality);
        lemma_sell_in_saturates_days(kind, is_conjured, one.1, (days - 1) as nat);
    }
}

} // verus!
