use gilded_rose::{GildedRose, Item};

#[test]
fn when_updated_then_does_not_alter_quality() {
    let item = Item::new("Sulfuras", 20, 80);
    let mut rose = GildedRose::new(vec![item]);

    rose.update_quality();

    assert_eq!(rose.items[0].quality, 80);
}

#[test]
fn when_updated_then_does_not_alter_sell_in() {
    let item = Item::new("Sulfuras", 20, 80);
    let mut rose = GildedRose::new(vec![item]);

    rose.update_quality();

    assert_eq!(rose.items[0].sell_in, 20);
}

#[test]
fn sulfuras_is_the_same_the_next_day() {
    let mut rose = GildedRose::new(vec![Item::new("Sulfuras", 20, 80)]);

    rose.update_quality();

    assert_eq!(rose.items[0].sell_in, 20);
    assert_eq!(rose.items[0].quality, 80);
}

#[test]
fn legendary_item_is_unchanged_after_many_days() {
    let mut rose = GildedRose::new(vec![Item::new("Sulfuras, Hand of Ragnaros", -1, 80)]);

    for _ in 0..100 {
        rose.update_quality();
    }

    assert_eq!(rose.items[0].name, "Sulfuras, Hand of Ragnaros");
    assert_eq!(rose.items[0].sell_in, -1);
    assert_eq!(rose.items[0].quality, 80);
}

#[test]
fn legendary_item_keeps_a_quality_outside_the_usual_range() {
    let mut rose = GildedRose::new(vec![
        Item::new("Sulfuras", 0, 7),
        Item::new("Sulfuras", i32::MIN, i32::MAX),
        Item::new("Sulfuras", i32::MAX, i32::MIN),
    ]);

    rose.update_quality();

    assert_eq!((rose.items[0].sell_in, rose.items[0].quality), (0, 7));
    assert_eq!((rose.items[1].sell_in, rose.items[1].quality), (i32::MIN, i32::MAX));
    assert_eq!((rose.items[2].sell_in, rose.items[2].quality), (i32::MAX, i32::MIN));
}
