//! The shop: an ordered collection of items that ages as a whole.

use vstd::prelude::*;

use crate::item::{Item, ItemView};

verus! {

/// A shop's inventory. The order of the items has no meaning of its own but
/// is kept from day to day; items are never added or removed by ageing.
pub struct GildedRose {
    pub items: Vec<Item>,
}

/// An inventory one day later: every item has moved by one day, each from
/// its own values of the day before, and stands where it stood.
pub open spec fn advance(items: Seq<ItemView>) -> Seq<ItemView> {
    Seq::new(items.len(), |i: int| items[i].tick())
}

/// An inventory `days` days later.
pub open spec fn advance_days(items: Seq<ItemView>, days: nat) -> Seq<ItemView>
    decreases days,
{
    if days == 0 {
        items
    } else {
        advance_days(advance(items), (days - 1) as nat)
    }
}

impl View for GildedRose {
    type V = Seq<ItemView>;

    open spec fn view(&self) -> Seq<ItemView> {
        Seq::new(self.items@.len(), |i: int| self.items@[i]@)
    }
}

impl GildedRose {
    /// A shop holding `items`, in the order given.
    pub fn new(items: Vec<Item>) -> (shop: GildedRose)
        ensures
            shop.items == items,
    {
        GildedRose { items }
    }

    /// Whether a day can pass for the whole inventory, that is, for each of
    /// its items.
    pub open spec fn can_advance(&self) -> bool {
        forall|i: int| 0 <= i < self.items@.len() ==> (#[trigger] self.items@[i]).can_age()
    }

    /// Decides `can_advance`.
    pub fn is_ready_to_advance(&self) -> (ready: bool)
        ensures
            ready == self.can_advance(),
    {
        let mut i: usize = 0;
        while i < self.items.len()
            invariant
                i <= self.items@.len(),
                forall|k: int| 0 <= k < i ==> (#[trigger] self.items@[k]).can_age(),
            decreases self.items@.len() - i,
        {
            if !self.items[i].is_ready_to_age() {
                return false;
            }
            i += 1;
        }
        true
    }

    /// Lets one day pass for the whole inventory: every item moves to the
    /// next day by the rule of its category, from its own values of the day
    /// before. Names, order and number of the items stay as they are.
    pub fn update_quality(&mut self)
        requires
            old(self).can_advance(),
        ensures
            final(self)@ == advance(old(self)@),
    {
        let count: usize = self.items.len();
        let mut i: usize = 0;
        while i < count
            invariant
                i <= count,
                count == self.items@.len(),
                count == old(self).items@.len(),
                old(self).can_advance(),
                forall|k: int| 0 <= k < i ==> (#[trigger] self.items@[k])@ == old(self).items@[k]@.tick(),
                forall|k: int| i <= k < count ==> #[trigger] self.items@[k] == old(self).items@[k],
            decreases count - i,
        {
            self.items[i].age();
            i += 1;
        }
    }
}

} // verus!
