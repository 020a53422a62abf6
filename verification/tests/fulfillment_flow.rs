use tenant_ops::errors::FulfillmentError;
use tenant_ops::fulfillment::{
    can_transition, change_status, deliver_order, record_sale, Ledger,
};
use tenant_ops::inventory::Inventory;
use tenant_ops::models::{OrdersRequest, SaleRequest, Status, StatusChange};
use tenant_ops::registry::PoolRegistry;
use tenant_ops::tenant::{resolve, tenant_key};

fn one_line_order(supplier: &str, product: &str, quantity: u64, price_cents: u64, category: &str) -> OrdersRequest {
    OrdersRequest {
        supplier_name: String::from(supplier),
        products: vec![(String::from(product), quantity)],
        categories: vec![String::from(category)],
        price_cents: vec![price_cents],
    }
}

#[test]
fn status_machine_table() {
    assert!(can_transition(Status::Pending, Status::Shipped));
    assert!(can_transition(Status::Pending, Status::Cancelled));
    assert!(can_transition(Status::Shipped, Status::Delivered));
    assert!(can_transition(Status::Shipped, Status::Cancelled));
    // delivered and cancelled are terminal; delivery needs shipment first
    assert!(!can_transition(Status::Pending, Status::Delivered));
    assert!(!can_transition(Status::Delivered, Status::Shipped));
    assert!(!can_transition(Status::Delivered, Status::Cancelled));
    assert!(!can_transition(Status::Cancelled, Status::Pending));
    assert!(!can_transition(Status::Shipped, Status::Pending));
}

#[test]
fn status_round_trip() {
    for s in [Status::Pending, Status::Shipped, Status::Delivered, Status::Cancelled] {
        assert_eq!(Status::parse(&String::from(s.as_str())), Some(s));
    }
    assert_eq!(Status::parse(&String::from("teleported")), None);
}

#[test]
fn delivery_of_missing_order_reports_not_found() {
    let mut ledger = Ledger::new();
    let mut inv = Inventory::new();
    assert_eq!(
        deliver_order(&mut ledger, &mut inv, 7),
        Err(FulfillmentError::NotFound)
    );
    assert_eq!(inv.items().len(), 0);
}

#[test]
fn delivery_needs_a_shipped_order() {
    let mut ledger = Ledger::new();
    let mut inv = Inventory::new();
    let id = ledger
        .place_order(&one_line_order("Globex", "widget", 10, 250, "tools"), 1)
        .unwrap();
    // pending -> delivered is not a legal transition
    assert_eq!(
        deliver_order(&mut ledger, &mut inv, id),
        Err(FulfillmentError::InvalidTransition)
    );
    assert_eq!(inv.items().len(), 0);

    ledger.set_status(id, Status::Shipped).unwrap();
    assert_eq!(deliver_order(&mut ledger, &mut inv, id), Ok(()));
    // a second delivery is refused: delivered is terminal
    assert_eq!(
        deliver_order(&mut ledger, &mut inv, id),
        Err(FulfillmentError::InvalidTransition)
    );
}

#[test]
fn change_status_rejects_unknown_status() {
    let mut ledger = Ledger::new();
    let mut inv = Inventory::new();
    let id = ledger
        .place_order(&one_line_order("Globex", "widget", 10, 250, "tools"), 1)
        .unwrap();
    let req = StatusChange { id, status: String::from("misplaced") };
    assert_eq!(
        change_status(&mut ledger, &mut inv, &req),
        Err(FulfillmentError::InvalidTransition)
    );
    assert_eq!(ledger.get_order(id).unwrap().status, Status::Pending);
}

#[test]
fn change_status_not_found() {
    let mut ledger = Ledger::new();
    let mut inv = Inventory::new();
    let req = StatusChange { id: 3, status: String::from("shipped") };
    assert_eq!(
        change_status(&mut ledger, &mut inv, &req),
        Err(FulfillmentError::NotFound)
    );
}

#[test]
fn order_zip_truncates_to_shortest_array() {
    let mut ledger = Ledger::new();
    let req = OrdersRequest {
        supplier_name: String::from("Globex"),
        products: vec![(String::from("a"), 1), (String::from("b"), 2), (String::from("c"), 3)],
        categories: vec![String::from("x"), String::from("y")],
        price_cents: vec![10, 20, 30],
    };
    let id = ledger.place_order(&req, 5).unwrap();
    let order = ledger.get_order(id).unwrap();
    assert_eq!(order.line_items.len(), 2);
    assert_eq!(order.line_items[1].product_id, "b");
    assert_eq!(order.line_items[1].category, "y");
    assert_eq!(order.line_items[1].quantity, 2);
    assert_eq!(order.line_items[1].price_cents, 20);
    assert_eq!(order.supplier_name, "Globex");
    assert_eq!(order.order_date, 5);
    assert_eq!(order.status, Status::Pending);
}

#[test]
fn total_price_integrity() {
    // the persisted total is always the sum of the per-line prices
    let mut ledger = Ledger::new();
    let mut inv = Inventory::new();
    let req = SaleRequest {
        sale_by: 9,
        products: vec![(String::from("widget"), 2), (String::from("gadget"), 1)],
        categories: vec![String::from("tools"), String::from("electronics")],
        price_cents: vec![199, 1250],
    };
    let outcome = record_sale(&mut ledger, &mut inv, &req, &String::from("acme"), 42);
    let sale_id = outcome.result.unwrap();
    let sale = &ledger.sales()[(sale_id - 1) as usize];
    assert_eq!(sale.total_price_cents, 199 + 1250);
    assert_eq!(sale.sold_by, 9);
    assert_eq!(sale.sale_date, 42);
    assert_eq!(sale.line_items.len(), 2);
    assert_eq!(outcome.events.len(), 2);
    // neither product was stocked: both lines were skipped, to be logged
    assert_eq!(outcome.stocked, vec![false, false]);
}

#[test]
fn total_price_saturates_at_representable_maximum() {
    let mut ledger = Ledger::new();
    let mut inv = Inventory::new();
    let req = SaleRequest {
        sale_by: 1,
        products: vec![(String::from("a"), 1), (String::from("b"), 1)],
        categories: vec![String::from("x"), String::from("x")],
        price_cents: vec![u64::MAX, 10],
    };
    let outcome = record_sale(&mut ledger, &mut inv, &req, &String::from("acme"), 0);
    let sale_id = outcome.result.unwrap();
    assert_eq!(ledger.sales()[(sale_id - 1) as usize].total_price_cents, u64::MAX);
}

#[test]
fn sale_against_missing_item_still_notifies() {
    let mut ledger = Ledger::new();
    let mut inv = Inventory::new();
    let req = SaleRequest {
        sale_by: 2,
        products: vec![(String::from("phantom"), 3)],
        categories: vec![String::from("tools")],
        price_cents: vec![50],
    };
    let outcome = record_sale(&mut ledger, &mut inv, &req, &String::from("acme"), 7);
    assert!(outcome.result.is_ok());
    // no item is auto-created on a sale; the skipped line is flagged so the
    // boundary can log it and continue
    assert_eq!(inv.get_item_quantity(&String::from("phantom")), None);
    assert_eq!(outcome.stocked, vec![false]);
    assert_eq!(outcome.events.len(), 1);
    assert_eq!(outcome.events[0].category, "tools");
    assert_eq!(outcome.events[0].quantity_sold, 3);
}

#[test]
fn error_labels() {
    assert_eq!(FulfillmentError::NotFound.label(), "not found");
    assert_eq!(
        FulfillmentError::InvalidTransition.label(),
        "invalid status transition"
    );
    assert_eq!(FulfillmentError::StoreWrite.label(), "storage unavailable");
}

#[test]
fn end_to_end_acme_widget() {
    // tenant "acme" resolved from its session artifact
    let artifact = String::from("{\"database_name\":\"acme\"}");
    let tenant = resolve(Some(&artifact)).unwrap();
    assert_eq!(tenant, "acme");
    let key = tenant_key(&String::from("postgres://host/"), &tenant);

    let mut registry = PoolRegistry::new();
    let (pool, constructed) = registry.get_or_create_pool(&key).unwrap();
    assert!(constructed);
    assert_eq!(registry.get_or_create_pool(&key).unwrap(), (pool, false));

    // order {supplier: "Globex", lines: [("widget", 10, 2.50, "tools")]}
    let mut ledger = Ledger::new();
    let mut inv = Inventory::new();
    let id = ledger
        .place_order(&one_line_order("Globex", "widget", 10, 250, "tools"), 100)
        .unwrap();
    ledger.set_status(id, Status::Shipped).unwrap();
    deliver_order(&mut ledger, &mut inv, id).unwrap();
    assert_eq!(ledger.get_order(id).unwrap().status, Status::Delivered);

    // delivery on an empty inventory creates the item with the line values
    let widget = String::from("widget");
    let created = inv.lookup(&widget).unwrap();
    assert_eq!(created.quantity, 10);
    assert_eq!(created.price_cents, 250);
    assert_eq!(created.category, "tools");
    assert!(created.sku.starts_with("widget-"));
    assert!(!created.sku.is_empty());

    // a sale of 15 widgets against 10 on hand clamps the stock to 0 (not
    // -5), records the requested line price sum, and emits one event for
    // widget's category
    let sale = SaleRequest {
        sale_by: 1,
        products: vec![(String::from("widget"), 15)],
        categories: vec![String::from("tools")],
        price_cents: vec![250],
    };
    let outcome = record_sale(&mut ledger, &mut inv, &sale, &tenant, 102);
    let sale_id = outcome.result.unwrap();
    assert_eq!(inv.get_item_quantity(&widget), Some(0));
    assert_eq!(ledger.sales()[(sale_id - 1) as usize].total_price_cents, 250);
    assert_eq!(outcome.stocked, vec![true]);
    assert_eq!(outcome.events.len(), 1);
    assert_eq!(outcome.events[0].category, "tools");
    assert_eq!(outcome.events[0].quantity_sold, 15);
    assert_eq!(outcome.events[0].database_name, "acme");

    // a later delivered order replenishes the stocked item: quantity grows
    // by the ordered amount and the 2.50 price moves by [3%, 10%), landing
    // between 258 (7.5 rounded up) and 274 (25 would be exactly 10%)
    let id2 = ledger
        .place_order(&one_line_order("Globex", "widget", 5, 250, "tools"), 103)
        .unwrap();
    ledger.set_status(id2, Status::Shipped).unwrap();
    deliver_order(&mut ledger, &mut inv, id2).unwrap();
    let restocked = inv.lookup(&widget).unwrap();
    assert_eq!(restocked.quantity, 5);
    assert!(restocked.price_cents >= 258);
    assert!(restocked.price_cents <= 274);
    assert_eq!(restocked.sku, created.sku);
}
