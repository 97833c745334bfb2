//! The closed set of behavioural categories, and the rule that assigns one to
//! an item from its name.

use vstd::prelude::*;

use crate::text::{appears_in, chars_of, occurs_in, same_text};

verus! {

/// How an item ages. Every item belongs to exactly one category, fixed by
/// its name.
#[derive(Clone, Copy, Debug, PartialEq, Eq, Structural)]
pub enum Category {
    /// Loses quality every day, twice as fast once the sell-by date has passed.
    Ordinary,
    /// Gains quality every day, twice as fast once the sell-by date has passed.
    AgedStock,
    /// Gains quality faster as the event approaches and is worthless afterwards.
    EventPass,
    /// Never changes.
    Legendary,
    /// Loses quality twice as fast as ordinary stock.
    Perishable,
}

/// The one name that marks aged stock; it must match in full.
pub const AGED_STOCK_NAME: &'static str = "Aged Brie";

/// A name containing this text marks an event pass.
pub const EVENT_PASS_MARKER: &'static str = "Backstage passes";

/// A name containing this text marks a legendary item.
pub const LEGENDARY_MARKER: &'static str = "Sulfuras";

/// A name containing this text marks perishable stock.
pub const PERISHABLE_MARKER: &'static str = "Conjured";

/// The category of an item called `name`. The tests are tried in a fixed
/// order and the first that succeeds decides; a name that passes none of
/// them is ordinary.
pub open spec fn category_of(name: Seq<char>) -> Category {
    if name == AGED_STOCK_NAME@ {
        Category::AgedStock
    } else if occurs_in(EVENT_PASS_MARKER@, name) {
        Category::EventPass
    } else if occurs_in(LEGENDARY_MARKER@, name) {
        Category::Legendary
    } else if occurs_in(PERISHABLE_MARKER@, name) {
        Category::Perishable
    } else {
        Category::Ordinary
    }
}

/// Determines the category of an item from its name.
pub fn classify(name: &str) -> (category: Category)
    ensures
        category == category_of(name@),
{
    let text = chars_of(name);
    if same_text(&text, &chars_of(AGED_STOCK_NAME)) {
        Category::AgedStock
    } else if appears_in(&chars_of(EVENT_PASS_MARKER), &text) {
        Category::EventPass
    } else if appears_in(&chars_of(LEGENDARY_MARKER), &text) {
        Category::Legendary
    } else if appears_in(&chars_of(PERISHABLE_MARKER), &text) {
        Category::Perishable
    } else {
        Category::Ordinary
    }
}

} // verus!
