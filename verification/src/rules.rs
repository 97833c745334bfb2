//! The daily transition rules: how the quality and the sell-in counter of an
//! item move in one day, by category.

use vstd::prelude::*;

use crate::category::Category;

verus! {

/// Lowest quality that an item other than a legendary one has after a day.
pub const MIN_QUALITY: i32 = 0;

/// Highest quality that an item other than a legendary one has after a day.
pub const MAX_QUALITY: i32 = 50;

/// The sell-by date has been reached when fewer than this many days remain.
pub const LAST_SELLING_DAY: i32 = 1;

/// With at most this many days left, an event pass gains two points a day.
pub const PASS_NEAR_DAYS: i32 = 10;

/// With at most this many days left, an event pass gains three points a day.
pub const PASS_CLOSE_DAYS: i32 = 5;

/// `value` brought into the range from `MIN_QUALITY` to `MAX_QUALITY`.
pub open spec fn clamp_quality(value: int) -> int {
    if value < MIN_QUALITY {
        MIN_QUALITY as int
    } else if value > MAX_QUALITY {
        MAX_QUALITY as int
    } else {
        value
    }
}

/// Whether the day that starts with `sell_in` days left falls on or after
/// the sell-by date.
pub open spec fn past_sell_by(sell_in: int) -> bool {
    sell_in < LAST_SELLING_DAY
}

/// Points of quality that ordinary stock loses in a day: one before the
/// sell-by date, two from then on.
pub open spec fn daily_decay(sell_in: int) -> int {
    if past_sell_by(sell_in) {
        2
    } else {
        1
    }
}

/// Points of quality that an event pass gains in a day while the event is
/// still ahead: the nearer the event, the more.
pub open spec fn pass_gain(sell_in: int) -> int {
    if sell_in > PASS_NEAR_DAYS {
        1
    } else if sell_in > PASS_CLOSE_DAYS {
        2
    } else {
        3
    }
}

/// The change in quality that one day brings, before the result is brought
/// back into range. An event pass whose event has passed loses all it has.
pub open spec fn quality_change(category: Category, sell_in: int, quality: int) -> int {
    match category {
        Category::Ordinary => -daily_decay(sell_in),
        Category::Perishable => -2 * daily_decay(sell_in),
        Category::AgedStock => daily_decay(sell_in),
        Category::EventPass => if past_sell_by(sell_in) {
            -quality
        } else {
            pass_gain(sell_in)
        },
        Category::Legendary => 0,
    }
}

/// Quality after one day. The day's whole change is applied first and the
/// result is brought into range once; a legendary item keeps its quality,
/// whatever it is.
pub open spec fn quality_after(category: Category, sell_in: int, quality: int) -> int {
    match category {
        Category::Legendary => quality,
        Category::Ordinary | Category::AgedStock | Category::EventPass | Category::Perishable => {
            clamp_quality(quality + quality_change(category, sell_in, quality))
        },
    }
}

/// Sell-in counter after one day: one less, without a floor, except for a
/// legendary item, whose counter stands still.
pub open spec fn sell_in_after(category: Category, sell_in: int) -> int {
    match category {
        Category::Legendary => sell_in,
        Category::Ordinary | Category::AgedStock | Category::EventPass | Category::Perishable => {
            sell_in - 1
        },
    }
}

/// Whether the counter of an item of this category can be moved by a day
/// without leaving the range of `i32`.
pub open spec fn sell_in_has_room(category: Category, sell_in: i32) -> bool {
    match category {
        Category::Legendary => true,
        Category::Ordinary | Category::AgedStock | Category::EventPass | Category::Perishable => {
            sell_in > i32::MIN
        },
    }
}

/// Computes `daily_decay`.
pub fn decay_on(sell_in: i32) -> (points: i64)
    ensures
        points == daily_decay(sell_in as int),
{
    if sell_in < LAST_SELLING_DAY {
        2
    } else {
        1
    }
}

/// Computes `pass_gain`.
pub fn pass_gain_on(sell_in: i32) -> (points: i64)
    ensures
        points == pass_gain(sell_in as int),
{
    if sell_in > PASS_NEAR_DAYS {
        1
    } else if sell_in > PASS_CLOSE_DAYS {
        2
    } else {
        3
    }
}

/// Computes `quality_change`. The result is wider than a quality because
/// the loss of an event pass after its event is the negative of any `i32`.
pub fn change_in_quality(category: Category, sell_in: i32, quality: i32) -> (change: i64)
    ensures
        change == quality_change(category, sell_in as int, quality as int),
{
    match category {
        Category::Ordinary => -decay_on(sell_in),
        Category::Perishable => {
            let points: i64 = decay_on(sell_in);
            -2 * points
        },
        Category::AgedStock => decay_on(sell_in),
        Category::EventPass => {
            if sell_in < LAST_SELLING_DAY {
                -(quality as i64)
            } else {
                pass_gain_on(sell_in)
            }
        },
        Category::Legendary => 0,
    }
}

/// The quality of an item one day on, given what it is today.
pub fn next_quality(category: Category, sell_in: i32, quality: i32) -> (next: i32)
    ensures
        next == quality_after(category, sell_in as int, quality as int),
{
    match category {
        Category::Legendary => quality,
        Category::Ordinary | Category::AgedStock | Category::EventPass | Category::Perishable => {
            let raw: i64 = quality as i64 + change_in_quality(category, sell_in, quality);
            if raw < MIN_QUALITY as i64 {
                MIN_QUALITY
            } else if raw > MAX_QUALITY as i64 {
                MAX_QUALITY
            } else {
                raw as i32
            }
        },
    }
}

/// Whether `next_sell_in` can be asked for this category and counter.
pub fn has_room_for_a_day(category: Category, sell_in: i32) -> (room: bool)
    ensures
        room == sell_in_has_room(category, sell_in),
{
    match category {
        Category::Legendary => true,
        Category::Ordinary | Category::AgedStock | Category::EventPass | Category::Perishable => {
            sell_in > i32::MIN
        },
    }
}

/// The sell-in counter of an item one day on, given what it is today.
pub fn next_sell_in(category: Category, sell_in: i32) -> (next: i32)
    requires
        sell_in_has_room(category, sell_in),
    ensures
        next == sell_in_after(category, sell_in as int),
{
    match category {
        Category::Legendary => sell_in,
        Category::Ordinary | Category::AgedStock | Category::EventPass | Category::Perishable => {
            sell_in - 1
        },
    }
}

} // verus!
