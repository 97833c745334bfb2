use gilded_rose::decimal::push_decimal;
use gilded_rose::Item;

fn written(n: i32) -> String {
    let mut out = String::new();
    push_decimal(&mut out, n);
    out
}

#[test]
fn render_gives_name_counter_and_quality() {
    assert_eq!(Item::new("Aged Brie", 2, 0).render(), "Aged Brie, 2, 0");
    assert_eq!(Item::new("+5 Dexterity Vest", 10, 20).render(), "+5 Dexterity Vest, 10, 20");
    assert_eq!(Item::new("Sulfuras, Hand of Ragnaros", -1, 80).render(), "Sulfuras, Hand of Ragnaros, -1, 80");
    assert_eq!(Item::new("", 0, 0).render(), ", 0, 0");
}

#[test]
fn render_agrees_with_the_standard_formatting_of_the_fields() {
    for name in ["Item", "Épée", "a, b"] {
        for sell_in in [i32::MIN, -1000, -10, -9, -1, 0, 1, 9, 10, 99, 100, 12345, i32::MAX] {
            for quality in [i32::MIN, -7, 0, 5, 50, 80, 101, i32::MAX] {
                let item = Item::new(name, sell_in, quality);
                assert_eq!(item.render(), format!("{}, {}, {}", name, sell_in, quality));
            }
        }
    }
}

#[test]
fn render_leaves_the_item_as_it_is() {
    let item = Item::new("Item", 3, 4);

    let first = item.render();
    let second = item.render();

    assert_eq!(first, second);
    assert_eq!((item.name.as_str(), item.sell_in, item.quality), ("Item", 3, 4));
}

#[test]
fn push_decimal_writes_digits_without_leading_zeros() {
    assert_eq!(written(0), "0");
    assert_eq!(written(7), "7");
    assert_eq!(written(10), "10");
    assert_eq!(written(1234567890), "1234567890");
    assert_eq!(written(2147483647), "2147483647");
}

#[test]
fn push_decimal_puts_a_minus_sign_before_a_negative_number() {
    assert_eq!(written(-1), "-1");
    assert_eq!(written(-60), "-60");
    assert_eq!(written(-2147483648), "-2147483648");
}

#[test]
fn push_decimal_appends_to_what_is_there() {
    let mut out = String::from("n = ");

    push_decimal(&mut out, -42);
    push_decimal(&mut out, 0);

    assert_eq!(out, "n = -420");
}
