//! What holds of the ageing rules in general, proved from their definitions.

use vstd::prelude::*;

use crate::category::Category;
use crate::item::ItemView;
use crate::rules::{quality_change, MAX_QUALITY, MIN_QUALITY};
use crate::shop::{advance, advance_days, GildedRose};

verus! {

/// A day changes neither the name of an item nor, therefore, its category.
pub proof fn category_is_stable(item: ItemView, days: nat)
    ensures
        item.after_days(days).name == item.name,
        item.after_days(days).category() == item.category(),
    decreases days,
{
    if days > 0 {
        category_is_stable(item.tick(), (days - 1) as nat);
    }
}

/// The sell-in counter of an item that is not legendary goes down by one
/// each day, below zero and on, however many days pass.
pub proof fn sell_in_counts_down(item: ItemView, days: nat)
    requires
        item.category() != Category::Legendary,
    ensures
        item.after_days(days).sell_in == item.sell_in - days,
    decreases days,
{
    if days > 0 {
        sell_in_counts_down(item.tick(), (days - 1) as nat);
    }
}

/// On any day perishable stock loses twice what ordinary stock loses.
pub proof fn perishable_stock_loses_twice_as_much(sell_in: int, quality: int)
    ensures
        quality_change(Category::Perishable, sell_in, quality) == 2 * quality_change(
            Category::Ordinary,
            sell_in,
            quality,
        ),
{
}

/// Before its sell-by date an ordinary item that has quality left loses
/// exactly one point of it in a day, and one day of shelf life. A quality
/// more than one point above the cap is left out: the day brings it to the
/// cap.
pub proof fn ordinary_item_before_sell_by(item: ItemView)
    requires
        item.category() == Category::Ordinary,
        item.sell_in >= 1,
        0 < item.quality <= MAX_QUALITY + 1,
    ensures
        item.tick().quality == item.quality - 1,
        item.tick().sell_in == item.sell_in - 1,
{
}

/// From its sell-by date on an ordinary item loses exactly two points of
/// quality in a day, or all it has where that is less. A quality more than
/// two points above the cap is left out: the day brings it to the cap.
pub proof fn ordinary_item_past_sell_by(item: ItemView)
    requires
        item.category() == Category::Ordinary,
        item.sell_in <= 0,
        item.quality <= MAX_QUALITY + 2,
    ensures
        item.tick().quality == if item.quality >= 2 {
            item.quality - 2
        } else {
            MIN_QUALITY as int
        },
        item.tick().sell_in == item.sell_in - 1,
{
}

/// Once at least one day has passed, the quality of an item that is not
/// legendary lies within the two bounds, whatever it was at the start.
pub proof fn quality_stays_in_range(item: ItemView, days: nat)
    requires
        item.category() != Category::Legendary,
        days >= 1,
    ensures
        MIN_QUALITY <= item.after_days(days).quality <= MAX_QUALITY,
    decreases days,
{
    if days > 1 {
        quality_stays_in_range(item.tick(), (days - 1) as nat);
    } else {
        assert(item.tick().after_days(0) == item.tick());
    }
}

/// A legendary item is the same after any number of days: neither its
/// quality nor its sell-in counter moves.
pub proof fn legendary_item_never_changes(item: ItemView, days: nat)
    requires
        item.category() == Category::Legendary,
    ensures
        item.after_days(days) == item,
    decreases days,
{
    if days > 0 {
        legendary_item_never_changes(item, (days - 1) as nat);
    }
}

/// While its event is still ahead, an event pass below the cap gains
/// quality every day; the day that starts with no days left takes all of it.
pub proof fn event_pass_rises_then_falls(item: ItemView)
    requires
        item.category() == Category::EventPass,
    ensures
        item.sell_in > 0 && item.quality < MAX_QUALITY ==> item.tick().quality > item.quality,
        item.sell_in > 0 ==> item.tick().quality <= MAX_QUALITY,
        item.sell_in <= 0 ==> item.tick().quality == 0,
{
}

/// Aged stock never exceeds the cap after a day, and from a quality at or
/// below the cap it never loses any.
pub proof fn aged_stock_never_loses_quality(item: ItemView)
    requires
        item.category() == Category::AgedStock,
    ensures
        item.tick().quality <= MAX_QUALITY,
        item.quality <= MAX_QUALITY ==> item.tick().quality >= item.quality,
{
}

/// A day is never without effect on an item that is not legendary, and
/// neither is a second day after the first: ageing cannot be repeated
/// safely.
pub proof fn a_day_always_shows(item: ItemView)
    requires
        item.category() != Category::Legendary,
    ensures
        item.tick() != item,
        item.tick().tick() != item.tick(),
{
    category_is_stable(item, 1);
}

/// Ageing keeps the number of items and their order, and each item ages on
/// its own: what stands at a position after `days` days is what stood there
/// at the start, aged by `days` days.
pub proof fn items_age_independently(items: Seq<ItemView>, days: nat)
    ensures
        advance_days(items, days).len() == items.len(),
        forall|i: int|
            0 <= i < items.len() ==> #[trigger] advance_days(items, days)[i] == items[i].after_days(
                days,
            ),
    decreases days,
{
    if days > 0 {
        items_age_independently(advance(items), (days - 1) as nat);
    }
}

/// Two shops whose items have the same names, counters and qualities, in
/// the same order, are in the same state again after the same number of
/// days.
pub proof fn replay_is_deterministic(first: GildedRose, second: GildedRose, days: nat)
    requires
        first@ == second@,
    ensures
        advance_days(first@, days) == advance_days(second@, days),
{
}

} // verus!
