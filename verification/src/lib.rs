//! Daily ageing of a shop inventory.
//!
//! Every item carries a name, a sell-in counter and a quality score. The
//! name puts the item into one of five categories, and once per simulated
//! day the counter and the quality of every item move by the rules of its
//! category.
//!
//! - [`category`] assigns a category to a name, using [`text`] to search it;
//! - [`rules`] holds the bounds, the thresholds and the two daily
//!   transitions;
//! - [`item`] and [`shop`] apply them to one item and to a whole inventory;
//! - [`decimal`] writes the numbers of an item out for display;
//! - [`laws`] proves what holds of the rules in general.

pub mod category;
pub mod decimal;
pub mod item;
pub mod laws;
pub mod rules;
pub mod shop;
pub mod text;

pub use category::Category;
pub use item::Item;
pub use shop::GildedRose;
