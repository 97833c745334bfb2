//! A single inventory item and what one day does to it.

use vstd::prelude::*;
use vstd::string::*;

use crate::category::{category_of, classify, Category};
use crate::decimal::{decimal, push_decimal};
use crate::rules::{
    has_room_for_a_day, next_quality, next_sell_in, quality_after, sell_in_after, sell_in_has_room,
};

verus! {

/// An inventory item: a name, the days left until its sell-by date
/// (negative once the date has passed) and its quality.
pub struct Item {
    pub name: String,
    pub sell_in: i32,
    pub quality: i32,
}

/// What an item is, mathematically: the text of its name and two unbounded
/// integers.
pub struct ItemView {
    pub name: Seq<char>,
    pub sell_in: int,
    pub quality: int,
}

impl ItemView {
    /// The category that the item's name puts it in.
    pub open spec fn category(self) -> Category {
        category_of(self.name)
    }

    /// The item one day later. Both new values are computed from the values
    /// of the day before; the name stays.
    pub open spec fn tick(self) -> ItemView {
        ItemView {
            name: self.name,
            sell_in: sell_in_after(self.category(), self.sell_in),
            quality: quality_after(self.category(), self.sell_in, self.quality),
        }
    }

    /// The item `days` days later.
    pub open spec fn after_days(self, days: nat) -> ItemView
        decreases days,
    {
        if days == 0 {
            self
        } else {
            self.tick().after_days((days - 1) as nat)
        }
    }

    /// The item on one line: name, sell-in counter and quality, the two
    /// numbers in decimal, separated by a comma and a space.
    pub open spec fn line(self) -> Seq<char> {
        self.name + ", "@ + decimal(self.sell_in) + ", "@ + decimal(self.quality)
    }
}

impl View for Item {
    type V = ItemView;

    open spec fn view(&self) -> ItemView {
        ItemView { name: self.name@, sell_in: self.sell_in as int, quality: self.quality as int }
    }
}

impl Item {
    /// Makes an item from its name and its initial counter and quality.
    /// Nothing is checked: any name and any two integers are accepted.
    pub fn new(name: &str, sell_in: i32, quality: i32) -> (item: Item)
        ensures
            item@ == (ItemView { name: name@, sell_in: sell_in as int, quality: quality as int }),
    {
        Item { name: name.to_owned(), sell_in, quality }
    }

    /// Whether a day can pass for this item: its counter, unless frozen,
    /// must not already be the least `i32`.
    pub open spec fn can_age(&self) -> bool {
        sell_in_has_room(self@.category(), self.sell_in)
    }

    /// Decides `can_age`.
    pub fn is_ready_to_age(&self) -> (ready: bool)
        ensures
            ready == self.can_age(),
    {
        has_room_for_a_day(self.category(), self.sell_in)
    }

    /// The category that the item's name puts it in.
    pub fn category(&self) -> (category: Category)
        ensures
            category == self@.category(),
    {
        classify(self.name.as_str())
    }

    /// The item on one line, for display.
    pub fn render(&self) -> (line: String)
        ensures
            line@ == self@.line(),
    {
        let mut line = self.name.clone();
        line.append(", ");
        push_decimal(&mut line, self.sell_in);
        line.append(", ");
        push_decimal(&mut line, self.quality);
        line
    }

    /// Lets one day pass for this item.
    pub fn age(&mut self)
        requires
            old(self).can_age(),
        ensures
            final(self)@ == old(self)@.tick(),
    {
        let category = self.category();
        let quality: i32 = next_quality(category, self.sell_in, self.quality);
        let sell_in: i32 = next_sell_in(category, self.sell_in);
        self.quality = quality;
        self.sell_in = sell_in;
    }
}

} // verus!
