use gilded_rose::{GildedRose, Item};

#[test]
fn aged_brie_when_updated_then_sell_in_decreases() {
    let item = Item::new("Aged Brie", 2, 10);
    let mut rose = GildedRose::new(vec![item]);

    rose.update_quality();

    assert_eq!(rose.items[0].sell_in, 1);
}

#[test]
fn when_updated_then_increases_in_quality() {
    let item = Item::new("Aged Brie", 2, 10);
    let mut rose = GildedRose::new(vec![item]);

    rose.update_quality();

    assert_eq!(rose.items[0].quality, 11);
}

#[test]
fn given_sell_in_date_when_updated_then_increases_in_quality_by_two() {
    let item = Item::new("Aged Brie", 0, 10);
    let mut rose = GildedRose::new(vec![item]);

    rose.update_quality();

    assert_eq!(rose.items[0].quality, 12);
}

#[test]
fn given_quality_of_50_when_updated_then_does_not_alter_quality() {
    let item = Item::new("Aged Brie", 20, 50);
    let mut rose = GildedRose::new(vec![item]);

    rose.update_quality();

    assert_eq!(rose.items[0].quality, 50);
}

#[test]
fn aged_brie_past_its_date_stops_at_the_cap() {
    let mut rose = GildedRose::new(vec![Item::new("Aged Brie", 0, 49)]);

    rose.update_quality();

    assert_eq!(rose.items[0].sell_in, -1);
    assert_eq!(rose.items[0].quality, 50);
}

#[test]
fn aged_brie_never_loses_quality_from_day_to_day() {
    let mut rose = GildedRose::new(vec![Item::new("Aged Brie", 3, 40)]);
    let mut before = rose.items[0].quality;

    for _ in 0..20 {
        rose.update_quality();
        assert!(rose.items[0].quality >= before);
        assert!(rose.items[0].quality <= 50);
        before = rose.items[0].quality;
    }

    assert_eq!(rose.items[0].quality, 50);
    assert_eq!(rose.items[0].sell_in, -17);
}

#[test]
fn aged_brie_with_quality_out_of_range() {
    let mut rose = GildedRose::new(vec![
        Item::new("Aged Brie", 4, -10),
        Item::new("Aged Brie", 4, 75),
        Item::new("Aged Brie", -4, i32::MAX),
    ]);

    rose.update_quality();

    assert_eq!(rose.items[0].quality, 0);
    assert_eq!(rose.items[1].quality, 50);
    assert_eq!(rose.items[2].quality, 50);
}
