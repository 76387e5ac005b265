//! The inventory: items constructed with arbitrary `(name, sell_in, quality)`
//! and mutated in place once per simulated day, each independently of the
//! others, by the rule engine under the category its current name classifies
//! to.

use vstd::prelude::*;

use crate::classify::{kind_of, spec_classify, split_conjured, Kind};
use crate::engine::{dec_to_floor, inc_to_cap, spec_update};

verus! {

pub struct Item {
    pub name: String,
    pub sell_in: i32,
    pub quality: i32,
}

/// One day's transition for an item under its own name: the category and the
/// conjured flag are recomputed from the name, never stored.
pub open spec fn spec_next_pair(name: Seq<char>, sell_in: int, quality: int) -> (int, int) {
    spec_update(spec_classify(name).1, spec_classify(name).0, sell_in, quality)
}

/// `post` is `pre` one simulated day later: the name untouched, and the
/// `(sell_in, quality)` pair stepped by the rule engine under the category
/// that `pre`'s name classifies to.
pub open spec fn spec_updated(pre: Item, post: Item) -> bool {
    &&& post.name == pre.name
    &&& post.sell_in as int == spec_next_pair(pre.name@, pre.sell_in as int, pre.quality as int).0
    &&& post.quality as int == spec_next_pair(pre.name@, pre.sell_in as int, pre.quality as int).1
}

impl Item {
    /// Stores the fields verbatim; no validation happens at construction.
    pub fn new(name: &str, sell_in: i32, quality: i32) -> (it: Item)
        ensures
            it.name@ == name@,
            it.sell_in == sell_in,
            it.quality == quality,
    {
        Item { name: name.to_owned(), sell_in, quality }
    }
}

pub struct GildedRose {
    pub items: Vec<Item>,
}

impl GildedRose {
    pub fn new(items: Vec<Item>) -> (r: GildedRose)
        ensures
            r.items@ == items@,
    {
        GildedRose { items }
    }

    /// Advances one simulated day: every item is stepped in place by the rule
    /// engine, each from its own state alone.
    pub fn update_quality(&mut self)
        ensures
            final(self).items@.len() == old(self).items@.len(),
            forall|i: int|
                0 <= i < old(self).items@.len() ==> spec_updated(
                    old(self).items@[i],
                    #[trigger] final(self).items@[i],
                ),
    {
        let n: usize = self.items.len();
        let mut idx: usize = 0;
        while idx < n
            invariant
                n == self.items@.len(),
                self.items@.len() == old(self).items@.len(),
                idx <= n,
                forall|j: int|
                    0 <= j < idx ==> spec_updated(old(self).items@[j], #[trigger] self.items@[j]),
                forall|j: int| idx <= j < n ==> self.items@[j] == old(self).items@[j],
            decreases n - idx,
        {
            Self::update_one_item(&mut self.items[idx]);
            idx = idx + 1;
        }
    }

    /// One item, one day: classify the current name, apply the same-day
    /// quality move, advance `sell_in` saturating at the representable
    /// minimum, then apply the expiry move if the new `sell_in` is negative.
    fn update_one_item(it: &mut Item)
        ensures
            spec_updated(*old(it), *final(it)),
    {
        let (is_conjured, base) = split_conjured(it.name.as_str());
        let kind = kind_of(base);
        if kind == Kind::Legendary {
            return;
        }
        let dec_delta: i32 = if is_conjured {
            2
        } else {
            1
        };
        match kind {
            Kind::AgedBrie => {
                it.quality = inc_to_cap(it.quality, 1);
            },
            Kind::BackstagePass => {
                if it.sell_in >= 11 {
                    it.quality = inc_to_cap(it.quality, 1);
                } else if it.sell_in >= 6 {
                    it.quality = inc_to_cap(it.quality, 2);
                } else if it.sell_in >= 1 {
                    it.quality = inc_to_cap(it.quality, 3);
                }
            },
            Kind::Normal => {
                it.quality = dec_to_floor(it.quality, dec_delta);
            },
            Kind::Legendary => {
            },
        }
        it.sell_in = if it.sell_in == i32::MIN {
            i32::MIN
        } else {
            it.sell_in - 1
        };
        if it.sell_in < 0 {
            match kind {
                Kind::Normal => {
                    it.quality = dec_to_floor(it.quality, dec_delta);
                },
                Kind::AgedBrie => {
                    it.quality = inc_to_cap(it.quality, 1);
                },
                Kind::BackstagePass => {
                    it.quality = 0;
                },
                Kind::Legendary => {
                },
            }
        }
    }
}

} // verus!
