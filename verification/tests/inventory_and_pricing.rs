use tenant_ops::inventory::Inventory;
use tenant_ops::pricing::{apply_markup, deplete};
use tenant_ops::sku::generate_sku;

fn stocked(name: &str, quantity: u64, price_cents: u64) -> Inventory {
    let mut inv = Inventory::new();
    inv.deliver_line(
        &String::from(name),
        &String::from("tools"),
        quantity,
        price_cents,
        300,
        String::from("SKU-SEED"),
    );
    inv
}

#[test]
fn non_negative_stock_over_a_sale_sequence() {
    // quantity after each operation is max(0, q0 - total sold)
    let mut inv = stocked("widget", 10, 100);
    let name = String::from("widget");
    let sells = [3u64, 4, 5, 2];
    let expected = [7u64, 3, 0, 0];
    for (sold, want) in sells.iter().zip(expected.iter()) {
        let found = inv.deplete_line(&name, *sold);
        assert!(found);
        assert_eq!(inv.get_item_quantity(&name), Some(*want));
    }
}

#[test]
fn depletion_of_missing_item_changes_nothing() {
    let mut inv = stocked("widget", 10, 100);
    let found = inv.deplete_line(&String::from("gadget"), 4);
    assert!(!found);
    assert_eq!(inv.get_item_quantity(&String::from("widget")), Some(10));
    assert_eq!(inv.get_item_quantity(&String::from("gadget")), None);
}

#[test]
fn replenishment_adds_quantity_and_raises_price() {
    // markup fixed at 3%: 1000 + ceil(1000 * 300 / 10000) = 1030
    let mut inv = stocked("widget", 5, 1000);
    let name = String::from("widget");
    let was_replenished = inv.deliver_line(
        &name,
        &String::from("ignored-category"),
        10,
        777,
        300,
        String::from("ignored-sku"),
    );
    assert!(was_replenished);
    let item = inv.lookup(&name).unwrap();
    assert_eq!(item.quantity, 15);
    assert_eq!(item.price_cents, 1030);
    assert!(item.price_cents > 1000);
    // replenishment keeps the existing SKU and category
    assert_eq!(item.sku, "SKU-SEED");
    assert_eq!(item.category, "tools");
}

#[test]
fn new_item_creation_takes_line_values() {
    let mut inv = Inventory::new();
    let name = String::from("gadget");
    let was_replenished = inv.deliver_line(
        &name,
        &String::from("electronics"),
        4,
        999,
        950,
        String::from("gadget-20240101000000-ABC123"),
    );
    assert!(!was_replenished);
    let item = inv.lookup(&name).unwrap();
    assert_eq!(item.item_name, "gadget");
    assert_eq!(item.quantity, 4);
    // creation keeps the line price: no markup is applied to a new item
    assert_eq!(item.price_cents, 999);
    assert_eq!(item.category, "electronics");
    assert_eq!(item.sku, "gadget-20240101000000-ABC123");
}

#[test]
fn apply_markup_exact_values() {
    assert_eq!(apply_markup(1000, 300), 1030);
    // the raise rounds up to a whole cent: 250 * 3% = 7.5 -> 8
    assert_eq!(apply_markup(250, 300), 258);
    // the rounded raise is capped strictly under 10%: 25 would be exactly
    // 10% of 250, so the raise clips to 24
    assert_eq!(apply_markup(250, 999), 274);
    assert_eq!(apply_markup(11, 999), 12);
    // a zero price cannot be raised by a percentage markup
    assert_eq!(apply_markup(0, 999), 0);
    // saturation at the largest representable price
    assert_eq!(apply_markup(u64::MAX, 300), u64::MAX);
}

#[test]
fn apply_markup_band_for_prices_of_eleven_cents_and_up() {
    // effective markup stays in [3%, 10%) once a whole-cent raise strictly
    // inside the band exists, i.e. for every price of at least 11 cents
    for price in [11u64, 14, 15, 33, 34, 101, 250, 999, 12345] {
        for bp in [300u64, 500, 700, 999] {
            let new_price = apply_markup(price, bp);
            let raise = new_price - price;
            assert!(100 * raise >= 3 * price, "3% floor at {} bp {}", price, bp);
            assert!(10 * raise < price, "10% cap at {} bp {}", price, bp);
        }
    }
}

#[test]
fn apply_markup_forced_cent_below_eleven_cents() {
    // for 1..=10 cents the integer-cent unit forces the minimal one-cent
    // raise, which is 10% or more
    for price in 1u64..=10 {
        for bp in [300u64, 999] {
            assert_eq!(apply_markup(price, bp), price + 1);
        }
    }
}

#[test]
fn deplete_clips_at_zero() {
    assert_eq!(deplete(10, 15), 0);
    assert_eq!(deplete(10, 10), 0);
    assert_eq!(deplete(10, 3), 7);
    assert_eq!(deplete(0, 1), 0);
}

#[test]
fn generated_sku_carries_prefix() {
    let sku = generate_sku(Some("widget"));
    assert!(!sku.is_empty());
    assert!(sku.starts_with("widget-"));
    // prefix, dash, 14-digit timestamp, dash, 6 random characters
    assert!(sku.len() >= "widget".len() + 22);
}

#[test]
fn generated_sku_without_prefix() {
    let sku = generate_sku(None);
    assert!(sku.len() >= 21);
    assert!(sku.contains('-'));
}

#[test]
fn generated_sku_separator_and_random_suffix() {
    for sku in [generate_sku(Some("widget")), generate_sku(None)] {
        let chars: Vec<char> = sku.chars().collect();
        // a separator always precedes the six random alphanumeric characters
        assert_eq!(chars[chars.len() - 7], '-');
        assert!(chars[chars.len() - 6..].iter().all(|c| c.is_ascii_alphanumeric()));
    }
}

#[test]
fn generated_skus_differ_in_practice() {
    let a = generate_sku(Some("widget"));
    let b = generate_sku(Some("widget"));
    // six random alphanumeric characters make a collision vanishingly rare
    assert_ne!(a, b);
}
