//! The category classifier: a pure function from an item's name to its
//! category tag and conjured flag. The conjured prefix is stripped before the
//! base name is classified; all matching is exact and case-sensitive.

use vstd::prelude::*;
use vstd::string::StrSliceExecFns;

verus! {

#[derive(Clone, Copy, Debug, PartialEq, Eq, Structural)]
pub enum Kind {
    AgedBrie,
    BackstagePass,
    Legendary,
    Normal,
}

/// `p` is an initial segment of `s`.
pub open spec fn spec_starts_with(s: Seq<char>, p: Seq<char>) -> bool {
    s.len() >= p.len() && s.subrange(0, p.len() as int) == p
}

/// A name is conjured when it begins with the conjured prefix and keeps a
/// non-empty base name after it; the bare prefix alone is not conjured.
pub open spec fn spec_is_conjured(name: Seq<char>) -> bool {
    name.len() > "Conjured "@.len() && spec_starts_with(name, "Conjured "@)
}

/// The name that is classified: the remainder after the conjured prefix where
/// the name is conjured, the whole name otherwise.
pub open spec fn spec_base_name(name: Seq<char>) -> Seq<char> {
    if spec_is_conjured(name) {
        name.subrange("Conjured "@.len() as int, name.len() as int)
    } else {
        name
    }
}

/// The category of a base name: exact equality for Aged Brie and the legendary
/// item, prefix equality for backstage passes, and Normal for everything else.
pub open spec fn spec_kind_of(base: Seq<char>) -> Kind {
    if base == "Aged Brie"@ {
        Kind::AgedBrie
    } else if base == "Sulfuras, Hand of Ragnaros"@ {
        Kind::Legendary
    } else if spec_starts_with(base, "Backstage passes"@) {
        Kind::BackstagePass
    } else {
        Kind::Normal
    }
}

/// The full classification of a raw name: its conjured flag and the category
/// of its base name.
pub open spec fn spec_classify(name: Seq<char>) -> (bool, Kind) {
    (spec_is_conjured(name), spec_kind_of(spec_base_name(name)))
}

/// Character-by-character string equality.
fn str_eq(a: &str, b: &str) -> (r: bool)
    ensures
        r == (a@ == b@),
{
    let alen: usize = a.unicode_len();
    let blen: usize = b.unicode_len();
    if alen != blen {
        return false;
    }
    let mut i: usize = 0;
    while i < alen
        invariant
            alen == a@.len(),
            blen == b@.len(),
            alen == blen,
            i <= alen,
            forall|k: int| 0 <= k < i ==> a@[k] == b@[k],
        decreases alen - i,
    {
        if a.get_char(i) != b.get_char(i) {
            return false;
        }
        i = i + 1;
    }
    proof {
        assert(a@ =~= b@);
    }
    true
}

/// Character-by-character prefix test.
fn str_starts_with(s: &str, p: &str) -> (r: bool)
    ensures
        r == spec_starts_with(s@, p@),
{
    let slen: usize = s.unicode_len();
    let plen: usize = p.unicode_len();
    if slen < plen {
        return false;
    }
    let mut i: usize = 0;
    while i < plen
        invariant
            slen == s@.len(),
            plen == p@.len(),
            plen <= slen,
            i <= plen,
            forall|k: int| 0 <= k < i ==> s@[k] == p@[k],
        decreases plen - i,
    {
        if s.get_char(i) != p.get_char(i) {
            proof {
                assert(s@.subrange(0, p@.len() as int)[i as int] == s@[i as int]);
            }
            return false;
        }
        i = i + 1;
    }
    proof {
        assert(s@.subrange(0, p@.len() as int) =~= p@);
    }
    true
}

/// Splits the conjured prefix off a name: the conjured flag, and the base name
/// that classification applies to.
pub fn split_conjured(name: &str) -> (r: (bool, &str))
    ensures
        r.0 == spec_is_conjured(name@),
        r.1@ == spec_base_name(name@),
{
    let prefix = "Conjured ";
    let plen: usize = prefix.unicode_len();
    let nlen: usize = name.unicode_len();
    if nlen > plen && str_starts_with(name, prefix) {
        (true, name.substring_char(plen, nlen))
    } else {
        (false, name)
    }
}

/// The category of a base name, after any conjured prefix has been split off.
pub fn kind_of(base: &str) -> (k: Kind)
    ensures
        k == spec_kind_of(base@),
{
    if str_eq(base, "Aged Brie") {
        Kind::AgedBrie
    } else if str_eq(base, "Sulfuras, Hand of Ragnaros") {
        Kind::Legendary
    } else if str_starts_with(base, "Backstage passes") {
        Kind::BackstagePass
    } else {
        Kind::Normal
    }
}

/// Classifies a raw name: the conjured flag and the category of the base name.
/// The result depends on the name alone.
pub fn classify(name: &str) -> (r: (bool, Kind))
    ensures
        r == spec_classify(name@),
{
    let (is_conjured, base) = split_conjured(name);
    (is_conjured, kind_of(base))
}

} // verus!
