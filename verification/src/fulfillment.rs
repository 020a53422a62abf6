//! The fulfillment engine.
//!
//! A per-tenant relational ledger holds orders and sales. Orders move
//! through `pending -> shipped -> delivered`, with `pending | shipped ->
//! cancelled`; the two end states are terminal. The transition to
//! `delivered` replays the order's line items, in order of appearance, into
//! the tenant's inventory collection (replenish or create). Recording a
//! sale inserts an immutable sale row whose total price is recomputed
//! server-side, depletes inventory line by line (floored at zero), and
//! yields one best-effort notification event per sold line.
//!
//! The ledger and the inventory collection are updated independently: no
//! transaction spans the two stores, and per-line effects already applied
//! are not rolled back by a later failure.

use vstd::prelude::*;
use crate::errors::FulfillmentError;
use crate::inventory::{
    Inventory, ItemModel, lemma_deplete_line_preserves_names, spec_deliver_line, spec_deplete_line,
};
use crate::models::{
    NotificationEvent, OrdersRequest, SaleRequest, Status, StatusChange, spec_parse_status,
};
use crate::pricing::{MARKUP_BP_END, MARKUP_BP_MIN, draw_markup_bp, spec_sat_add};
use crate::sku::generate_sku;

verus! {

/// One order or sale line: a product, its category, a quantity and a
/// per-line price in cents.
pub struct LineItem {
    pub product_id: String,
    pub category: String,
    pub quantity: u64,
    pub price_cents: u64,
}

/// An order in the ledger. Created on placement, mutated only via status
/// transitions, never deleted.
pub struct Order {
    pub order_id: i32,
    pub supplier_name: String,
    pub line_items: Vec<LineItem>,
    pub order_date: i64,
    pub status: Status,
}

/// A sale row in the ledger. Created atomically with its insert and
/// immutable thereafter; `total_price_cents` is the sum of the line prices
/// at insert time.
pub struct Sale {
    pub sale_id: i32,
    pub line_items: Vec<LineItem>,
    pub total_price_cents: u64,
    pub sold_by: i32,
    pub sale_date: i64,
}

/// How many complete lines the parallel request arrays describe: index `i`
/// across products, categories and prices is one line, so the count is the
/// shortest of the three.
pub open spec fn spec_line_count(
    products: Seq<(String, u64)>,
    categories: Seq<String>,
    prices: Seq<u64>,
) -> int {
    let n = if products.len() <= categories.len() {
        products.len() as int
    } else {
        categories.len() as int
    };
    if n <= prices.len() {
        n
    } else {
        prices.len() as int
    }
}

/// The ordered line-item sequence the parallel request arrays describe.
pub open spec fn spec_request_lines(
    products: Seq<(String, u64)>,
    categories: Seq<String>,
    prices: Seq<u64>,
) -> Seq<LineItem> {
    Seq::new(
        spec_line_count(products, categories, prices) as nat,
        |i: int|
            LineItem {
                product_id: products[i].0,
                category: categories[i],
                quantity: products[i].1,
                price_cents: prices[i],
            },
    )
}

/// Zip the parallel arrays of a request into its line-item sequence.
pub fn zip_lines(
    products: &Vec<(String, u64)>,
    categories: &Vec<String>,
    prices: &Vec<u64>,
) -> (r: Vec<LineItem>)
    ensures
        r@ == spec_request_lines(products@, categories@, prices@),
{
    let mut n = products.len();
    if categories.len() < n {
        n = categories.len();
    }
    if prices.len() < n {
        n = prices.len();
    }
    let mut out: Vec<LineItem> = Vec::new();
    let mut i: usize = 0;
    while i < n
        invariant
            i <= n,
            n == spec_line_count(products@, categories@, prices@),
            out@.len() == i,
            forall|j: int|
                0 <= j < i ==> out@[j] == spec_request_lines(products@, categories@, prices@)[j],
        decreases n - i,
    {
        let pair = &products[i];
        out.push(
            LineItem {
                product_id: pair.0.clone(),
                category: categories[i].clone(),
                quantity: pair.1,
                price_cents: prices[i],
            },
        );
        i = i + 1;
    }
    proof {
        assert(out@ =~= spec_request_lines(products@, categories@, prices@));
    }
    out
}

/// The order state machine: `pending -> shipped -> delivered`, with
/// cancellation from either non-terminal state; `delivered` and
/// `cancelled` are terminal.
pub open spec fn spec_can_transition(from: Status, to: Status) -> bool {
    match (from, to) {
        (Status::Pending, Status::Shipped) => true,
        (Status::Pending, Status::Cancelled) => true,
        (Status::Shipped, Status::Delivered) => true,
        (Status::Shipped, Status::Cancelled) => true,
        _ => false,
    }
}

/// Whether the state machine allows moving an order from `from` to `to`.
pub fn can_transition(from: Status, to: Status) -> (r: bool)
    ensures
        r == spec_can_transition(from, to),
{
    match (from, to) {
        (Status::Pending, Status::Shipped) => true,
        (Status::Pending, Status::Cancelled) => true,
        (Status::Shipped, Status::Delivered) => true,
        (Status::Shipped, Status::Cancelled) => true,
        _ => false,
    }
}

/// The per-tenant relational ledger of orders and sales.
pub struct Ledger {
    orders: Vec<Order>,
    sales: Vec<Sale>,
}

impl Ledger {
    /// The orders, in placement order; the order with id `k` sits at
    /// index `k - 1`.
    pub closed spec fn orders_seq(self) -> Seq<Order> {
        self.orders@
    }

    /// The sales, in recording order; the sale with id `k` sits at
    /// index `k - 1`.
    pub closed spec fn sales_seq(self) -> Seq<Sale> {
        self.sales@
    }

    pub open spec fn wf(self) -> bool {
        &&& self.orders_seq().len() <= i32::MAX
        &&& forall|i: int|
            0 <= i < self.orders_seq().len() ==> (#[trigger] self.orders_seq()[i]).order_id == i
                + 1
        &&& self.sales_seq().len() <= i32::MAX
        &&& forall|i: int|
            0 <= i < self.sales_seq().len() ==> (#[trigger] self.sales_seq()[i]).sale_id == i + 1
    }

    /// An empty ledger.
    pub fn new() -> (r: Ledger)
        ensures
            r.wf(),
            r.orders_seq() == Seq::<Order>::empty(),
            r.sales_seq() == Seq::<Sale>::empty(),
    {
        let r = Ledger { orders: Vec::new(), sales: Vec::new() };
        proof {
            assert(r.orders_seq() =~= Seq::<Order>::empty());
            assert(r.sales_seq() =~= Seq::<Sale>::empty());
        }
        r
    }

    /// Place a new order: its lines are the request's parallel arrays
    /// zipped in order, its status starts at `pending`, and it gets the
    /// next order id. Fails only when the ledger cannot hold another row.
    pub fn place_order(&mut self, req: &OrdersRequest, order_date: i64) -> (r: Result<
        i32,
        FulfillmentError,
    >)
        requires
            old(self).wf(),
        ensures
            final(self).wf(),
            final(self).sales_seq() == old(self).sales_seq(),
            match r {
                Ok(id) => {
                    &&& old(self).orders_seq().len() < i32::MAX
                    &&& id == old(self).orders_seq().len() + 1
                    &&& final(self).orders_seq().len() == old(self).orders_seq().len() + 1
                    &&& final(self).orders_seq() == old(self).orders_seq().push(
                        final(self).orders_seq().last(),
                    )
                    &&& ({
                        let o = final(self).orders_seq().last();
                        &&& o.order_id == id
                        &&& o.supplier_name == req.supplier_name
                        &&& o.line_items@ == spec_request_lines(
                            req.products@,
                            req.categories@,
                            req.price_cents@,
                        )
                        &&& o.order_date == order_date
                        &&& o.status == Status::Pending
                    })
                },
                Err(e) => {
                    &&& e == FulfillmentError::StoreWrite
                    &&& old(self).orders_seq().len() == i32::MAX
                    &&& *final(self) == *old(self)
                },
            },
    {
        if self.orders.len() >= i32::MAX as usize {
            return Err(FulfillmentError::StoreWrite);
        }
        let id = (self.orders.len() + 1) as i32;
        let lines = zip_lines(&req.products, &req.categories, &req.price_cents);
        let order = Order {
            order_id: id,
            supplier_name: req.supplier_name.clone(),
            line_items: lines,
            order_date,
            status: Status::Pending,
        };
        self.orders.push(order);
        Ok(id)
    }

    /// The order with the given id, if it exists.
    pub fn get_order(&self, id: i32) -> (r: Option<&Order>)
        requires
            self.wf(),
        ensures
            match r {
                Some(o) => 1 <= id && id <= self.orders_seq().len() && *o == self.orders_seq()[id
                    - 1],
                None => id < 1 || id > self.orders_seq().len(),
            },
    {
        if id < 1 {
            return None;
        }
        let idx = (id - 1) as usize;
        if idx < self.orders.len() {
            Some(&self.orders[idx])
        } else {
            None
        }
    }

    /// All orders, for read-out at the boundary.
    pub fn orders(&self) -> (r: &Vec<Order>)
        ensures
            r@ == self.orders_seq(),
    {
        &self.orders
    }

    /// All sales, for read-out at the boundary.
    pub fn sales(&self) -> (r: &Vec<Sale>)
        ensures
            r@ == self.sales_seq(),
    {
        &self.sales
    }
}

/// What a non-delivery status change leaves behind: on success the one
/// order moved to `to` and nothing else changed; a missing order or a
/// transition the state machine forbids is reported and changes nothing.
pub open spec fn spec_set_status_post(
    orders0: Seq<Order>,
    orders1: Seq<Order>,
    id: i32,
    to: Status,
    r: Result<(), FulfillmentError>,
) -> bool {
    match r {
        Ok(_) => {
            &&& 1 <= id <= orders0.len()
            &&& spec_can_transition(orders0[id - 1].status, to)
            &&& ({
                let o = orders0[id - 1];
                orders1 == orders0.update(
                    id - 1,
                    Order {
                        order_id: o.order_id,
                        supplier_name: o.supplier_name,
                        line_items: o.line_items,
                        order_date: o.order_date,
                        status: to,
                    },
                )
            })
        },
        Err(e) => {
            &&& orders1 == orders0
            &&& match e {
                FulfillmentError::NotFound => id < 1 || id > orders0.len(),
                FulfillmentError::InvalidTransition => 1 <= id <= orders0.len()
                    && !spec_can_transition(orders0[id - 1].status, to),
                _ => false,
            }
        },
    }
}

impl Ledger {
    /// Move an order to a new non-delivered status: a simple relational
    /// update with no inventory side effect. The transition to `delivered`
    /// goes through `deliver_order`, which also reconciles inventory.
    pub fn set_status(&mut self, id: i32, to: Status) -> (r: Result<(), FulfillmentError>)
        requires
            old(self).wf(),
            to != Status::Delivered,
        ensures
            final(self).wf(),
            final(self).sales_seq() == old(self).sales_seq(),
            spec_set_status_post(old(self).orders_seq(), final(self).orders_seq(), id, to, r),
    {
        if id < 1 || (id - 1) as usize >= self.orders.len() {
            return Err(FulfillmentError::NotFound);
        }
        let idx = (id - 1) as usize;
        if !can_transition(self.orders[idx].status, to) {
            return Err(FulfillmentError::InvalidTransition);
        }
        self.orders[idx].status = to;
        Ok(())
    }
}

/// The shape `generate_sku` guarantees for a SKU generated for a product:
/// non-empty, the product name as prefix, a separator after it.
pub open spec fn spec_sku_for(product: Seq<char>, sku: Seq<char>) -> bool {
    &&& sku.len() >= product.len() + 22
    &&& sku.subrange(0, product.len() as int) == product
    &&& sku[product.len() as int] == '-'
}

/// One restock markup per order line, each drawn from `[3%, 10%)`.
fn draw_markups(n: usize) -> (r: Vec<u64>)
    ensures
        r@.len() == n,
        forall|i: int| 0 <= i < n ==> MARKUP_BP_MIN <= #[trigger] r@[i] < MARKUP_BP_END,
{
    let mut out: Vec<u64> = Vec::new();
    let mut i: usize = 0;
    while i < n
        invariant
            i <= n,
            out@.len() == i,
            forall|j: int| 0 <= j < i ==> MARKUP_BP_MIN <= #[trigger] out@[j] < MARKUP_BP_END,
        decreases n - i,
    {
        out.push(draw_markup_bp());
        i = i + 1;
    }
    out
}

/// One freshly generated SKU per order line, each prefixed with the line's
/// product name.
fn make_skus(lines: &Vec<LineItem>) -> (r: Vec<String>)
    ensures
        r@.len() == lines@.len(),
        forall|i: int|
            0 <= i < lines@.len() ==> spec_sku_for(lines@[i].product_id@, (#[trigger] r@[i])@),
{
    let n = lines.len();
    let mut out: Vec<String> = Vec::new();
    let mut i: usize = 0;
    while i < n
        invariant
            i <= n,
            n == lines@.len(),
            out@.len() == i,
            forall|j: int|
                0 <= j < i ==> spec_sku_for(lines@[j].product_id@, (#[trigger] out@[j])@),
        decreases n - i,
    {
        out.push(generate_sku(Some(lines[i].product_id.as_str())));
        i = i + 1;
    }
    out
}

/// The inventory after replaying the order lines from index `i` on, pairing
/// line `j` with markup `markups[j]` and SKU `skus[j]`.
pub open spec fn spec_deliver_from(
    m: Map<Seq<char>, ItemModel>,
    lines: Seq<LineItem>,
    markups: Seq<u64>,
    skus: Seq<String>,
    i: int,
) -> Map<Seq<char>, ItemModel>
    decreases lines.len() - i,
{
    if 0 <= i < lines.len() {
        let l = lines[i];
        spec_deliver_from(
            spec_deliver_line(
                m,
                l.product_id@,
                l.category@,
                l.quantity,
                l.price_cents,
                markups[i],
                skus[i]@,
            ),
            lines,
            markups,
            skus,
            i + 1,
        )
    } else {
        m
    }
}

/// The inventory after replaying all order lines, in order of appearance.
pub open spec fn spec_deliver_lines(
    m: Map<Seq<char>, ItemModel>,
    lines: Seq<LineItem>,
    markups: Seq<u64>,
    skus: Seq<String>,
) -> Map<Seq<char>, ItemModel> {
    spec_deliver_from(m, lines, markups, skus, 0)
}

/// Replay delivered order lines into the inventory, in order of
/// appearance, pairing each line with its drawn markup and generated SKU.
pub fn deliver_lines(
    inv: &mut Inventory,
    lines: &Vec<LineItem>,
    markups: &Vec<u64>,
    skus: &Vec<String>,
)
    requires
        old(inv).wf(),
        markups@.len() == lines@.len(),
        skus@.len() == lines@.len(),
    ensures
        final(inv).wf(),
        final(inv)@ == spec_deliver_lines(old(inv)@, lines@, markups@, skus@),
{
    let n = lines.len();
    let mut i: usize = 0;
    while i < n
        invariant
            inv.wf(),
            i <= n,
            n == lines@.len(),
            markups@.len() == n,
            skus@.len() == n,
            spec_deliver_from(inv@, lines@, markups@, skus@, i as int) == spec_deliver_lines(
                old(inv)@,
                lines@,
                markups@,
                skus@,
            ),
        decreases n - i,
    {
        let l = &lines[i];
        inv.deliver_line(
            &l.product_id,
            &l.category,
            l.quantity,
            l.price_cents,
            markups[i],
            skus[i].clone(),
        );
        i = i + 1;
    }
}

/// What an order delivery leaves behind: on success the one order moved to
/// `delivered` and the inventory holds the order's lines replayed in order
/// of appearance, each line under some markup from `[3%, 10%)` and some
/// SKU prefixed with its product name; a missing order or a transition the
/// state machine forbids is reported and changes nothing.
pub open spec fn spec_deliver_post(
    orders0: Seq<Order>,
    orders1: Seq<Order>,
    inv0: Map<Seq<char>, ItemModel>,
    inv1: Map<Seq<char>, ItemModel>,
    id: i32,
    r: Result<(), FulfillmentError>,
) -> bool {
    match r {
        Ok(_) => {
            &&& 1 <= id <= orders0.len()
            &&& spec_can_transition(orders0[id - 1].status, Status::Delivered)
            &&& ({
                let o = orders0[id - 1];
                orders1 == orders0.update(
                    id - 1,
                    Order {
                        order_id: o.order_id,
                        supplier_name: o.supplier_name,
                        line_items: o.line_items,
                        order_date: o.order_date,
                        status: Status::Delivered,
                    },
                )
            })
            &&& exists|mk: Seq<u64>, sk: Seq<String>|
                {
                    &&& mk.len() == orders0[id - 1].line_items@.len()
                    &&& sk.len() == orders0[id - 1].line_items@.len()
                    &&& (forall|i: int|
                        0 <= i < mk.len() ==> MARKUP_BP_MIN <= #[trigger] mk[i] < MARKUP_BP_END)
                    &&& (forall|i: int|
                        0 <= i < sk.len() ==> spec_sku_for(
                            orders0[id - 1].line_items@[i].product_id@,
                            (#[trigger] sk[i])@,
                        ))
                    &&& inv1 == #[trigger] spec_deliver_lines(
                        inv0,
                        orders0[id - 1].line_items@,
                        mk,
                        sk,
                    )
                }
        },
        Err(e) => {
            &&& orders1 == orders0
            &&& inv1 == inv0
            &&& match e {
                FulfillmentError::NotFound => id < 1 || id > orders0.len(),
                FulfillmentError::InvalidTransition => 1 <= id <= orders0.len()
                    && !spec_can_transition(orders0[id - 1].status, Status::Delivered),
                _ => false,
            }
        },
    }
}

/// Deliver an order: move it to `delivered` and replay its lines into the
/// inventory, in order of appearance — replenishing items already stocked
/// (under a freshly drawn restock markup) and creating the rest (under a
/// freshly generated SKU).
pub fn deliver_order(ledger: &mut Ledger, inv: &mut Inventory, id: i32) -> (r: Result<
    (),
    FulfillmentError,
>)
    requires
        old(ledger).wf(),
        old(inv).wf(),
    ensures
        final(ledger).wf(),
        final(inv).wf(),
        final(ledger).sales_seq() == old(ledger).sales_seq(),
        spec_deliver_post(
            old(ledger).orders_seq(),
            final(ledger).orders_seq(),
            old(inv)@,
            final(inv)@,
            id,
            r,
        ),
{
    if id < 1 || (id - 1) as usize >= ledger.orders.len() {
        return Err(FulfillmentError::NotFound);
    }
    let idx = (id - 1) as usize;
    if !can_transition(ledger.orders[idx].status, Status::Delivered) {
        return Err(FulfillmentError::InvalidTransition);
    }
    let markups = draw_markups(ledger.orders[idx].line_items.len());
    let skus = make_skus(&ledger.orders[idx].line_items);
    deliver_lines(inv, &ledger.orders[idx].line_items, &markups, &skus);
    ledger.orders[idx].status = Status::Delivered;
    proof {
        let lines = old(ledger).orders_seq()[id - 1].line_items@;
        assert(inv@ == spec_deliver_lines(old(inv)@, lines, markups@, skus@));
    }
    Ok(())
}

/// Apply a requested status change: parse the requested status, then either
/// deliver (with inventory reconciliation) or perform the simple status
/// update. An unknown status string is rejected as an invalid transition.
pub fn change_status(ledger: &mut Ledger, inv: &mut Inventory, req: &StatusChange) -> (r: Result<
    (),
    FulfillmentError,
>)
    requires
        old(ledger).wf(),
        old(inv).wf(),
    ensures
        final(ledger).wf(),
        final(inv).wf(),
        final(ledger).sales_seq() == old(ledger).sales_seq(),
        match spec_parse_status(req.status@) {
            None => {
                &&& r == Err::<(), FulfillmentError>(FulfillmentError::InvalidTransition)
                &&& final(ledger).orders_seq() == old(ledger).orders_seq()
                &&& final(inv)@ == old(inv)@
            },
            Some(to) => if to is Delivered {
                spec_deliver_post(
                    old(ledger).orders_seq(),
                    final(ledger).orders_seq(),
                    old(inv)@,
                    final(inv)@,
                    req.id,
                    r,
                )
            } else {
                spec_set_status_post(
                    old(ledger).orders_seq(),
                    final(ledger).orders_seq(),
                    req.id,
                    to,
                    r,
                ) && final(inv)@ == old(inv)@
            },
        },
{
    match Status::parse(&req.status) {
        None => Err(FulfillmentError::InvalidTransition),
        Some(Status::Delivered) => deliver_order(ledger, inv, req.id),
        Some(to) => ledger.set_status(req.id, to),
    }
}

/// The inventory after depleting the sold lines from index `i` on.
pub open spec fn spec_deplete_from(
    m: Map<Seq<char>, ItemModel>,
    lines: Seq<LineItem>,
    i: int,
) -> Map<Seq<char>, ItemModel>
    decreases lines.len() - i,
{
    if 0 <= i < lines.len() {
        let l = lines[i];
        spec_deplete_from(spec_deplete_line(m, l.product_id@, l.quantity), lines, i + 1)
    } else {
        m
    }
}

/// The inventory after depleting all sold lines, in order of appearance.
pub open spec fn spec_deplete_lines(
    m: Map<Seq<char>, ItemModel>,
    lines: Seq<LineItem>,
) -> Map<Seq<char>, ItemModel> {
    spec_deplete_from(m, lines, 0)
}

/// Deplete the inventory by the sold lines, in order of appearance. Stock
/// floors at zero — excess demand is clipped, not rejected — and no item is
/// auto-created on a sale. The returned flags say, line by line, whether
/// the product was stocked; a missing one is for the caller to log and
/// skip.
pub fn deplete_lines(inv: &mut Inventory, lines: &Vec<LineItem>) -> (stocked: Vec<bool>)
    requires
        old(inv).wf(),
    ensures
        final(inv).wf(),
        final(inv)@ == spec_deplete_lines(old(inv)@, lines@),
        stocked@.len() == lines@.len(),
        forall|i: int|
            0 <= i < lines@.len() ==> stocked@[i] == old(inv)@.contains_key(
                lines@[i].product_id@,
            ),
{
    let n = lines.len();
    let mut stocked: Vec<bool> = Vec::new();
    let mut i: usize = 0;
    while i < n
        invariant
            inv.wf(),
            i <= n,
            n == lines@.len(),
            stocked@.len() == i,
            spec_deplete_from(inv@, lines@, i as int) == spec_deplete_lines(old(inv)@, lines@),
            forall|k: Seq<char>| #[trigger] inv@.contains_key(k) <==> old(inv)@.contains_key(k),
            forall|j: int|
                0 <= j < i ==> stocked@[j] == old(inv)@.contains_key(lines@[j].product_id@),
        decreases n - i,
    {
        let l = &lines[i];
        let ghost before = inv@;
        let found = inv.deplete_line(&l.product_id, l.quantity);
        proof {
            lemma_deplete_line_preserves_names(before, l.product_id@, l.quantity);
        }
        stocked.push(found);
        i = i + 1;
    }
    stocked
}

/// One notification event per sold line, in order of appearance, carrying
/// the line's category and quantity.
pub fn build_events(lines: &Vec<LineItem>, database_name: &String, timestamp: i64) -> (r: Vec<
    NotificationEvent,
>)
    ensures
        r@.len() == lines@.len(),
        forall|i: int|
            0 <= i < lines@.len() ==> {
                let e = #[trigger] r@[i];
                &&& e.database_name@ == database_name@
                &&& e.category@ == lines@[i].category@
                &&& e.quantity_sold == lines@[i].quantity
                &&& e.timestamp == timestamp
            },
{
    let n = lines.len();
    let mut out: Vec<NotificationEvent> = Vec::new();
    let mut i: usize = 0;
    while i < n
        invariant
            i <= n,
            n == lines@.len(),
            out@.len() == i,
            forall|j: int|
                0 <= j < i ==> {
                    let e = #[trigger] out@[j];
                    &&& e.database_name@ == database_name@
                    &&& e.category@ == lines@[j].category@
                    &&& e.quantity_sold == lines@[j].quantity
                    &&& e.timestamp == timestamp
                },
        decreases n - i,
    {
        out.push(
            NotificationEvent {
                database_name: database_name.clone(),
                category: lines[i].category.clone(),
                quantity_sold: lines[i].quantity,
                timestamp,
            },
        );
        i = i + 1;
    }
    out
}

/// The mathematical sum of the line prices from index `i` on.
pub open spec fn spec_price_sum_from(lines: Seq<LineItem>, i: int) -> int
    decreases lines.len() - i,
{
    if 0 <= i < lines.len() {
        lines[i].price_cents + spec_price_sum_from(lines, i + 1)
    } else {
        0
    }
}

/// The mathematical sum of all line prices.
pub open spec fn spec_price_sum(lines: Seq<LineItem>) -> int {
    spec_price_sum_from(lines, 0)
}

/// The line prices from index `i` on, summed left to right with saturation.
pub open spec fn spec_sat_sum_from(lines: Seq<LineItem>, i: int, acc: u64) -> u64
    decreases lines.len() - i,
{
    if 0 <= i < lines.len() {
        spec_sat_sum_from(lines, i + 1, spec_sat_add(acc, lines[i].price_cents))
    } else {
        acc
    }
}

/// All line prices summed left to right with saturation.
pub open spec fn spec_sat_price_sum(lines: Seq<LineItem>) -> u64 {
    spec_sat_sum_from(lines, 0, 0)
}

/// Sum the line prices of a sale, saturating at the largest representable
/// amount.
pub fn sum_prices(lines: &Vec<LineItem>) -> (r: u64)
    ensures
        r == spec_sat_price_sum(lines@),
{
    let n = lines.len();
    let mut acc: u64 = 0;
    let mut i: usize = 0;
    while i < n
        invariant
            i <= n,
            n == lines@.len(),
            spec_sat_sum_from(lines@, i as int, acc) == spec_sat_price_sum(lines@),
        decreases n - i,
    {
        acc = acc.saturating_add(lines[i].price_cents);
        i = i + 1;
    }
    acc
}

pub proof fn lemma_price_sum_nonneg(lines: Seq<LineItem>, i: int)
    ensures
        spec_price_sum_from(lines, i) >= 0,
    decreases lines.len() - i,
{
    if 0 <= i < lines.len() {
        lemma_price_sum_nonneg(lines, i + 1);
    }
}

pub proof fn lemma_sat_sum_exact(lines: Seq<LineItem>, i: int, acc: u64)
    requires
        acc + spec_price_sum_from(lines, i) <= u64::MAX,
    ensures
        spec_sat_sum_from(lines, i, acc) as int == acc + spec_price_sum_from(lines, i),
    decreases lines.len() - i,
{
    if 0 <= i < lines.len() {
        lemma_price_sum_nonneg(lines, i + 1);
        lemma_sat_sum_exact(lines, i + 1, spec_sat_add(acc, lines[i].price_cents));
    }
}

/// Total-price integrity law: the persisted total of a sale equals the
/// mathematical sum of the request's per-line prices whenever that sum is
/// representable (a sale's caller-side total is never consulted — the total
/// is always recomputed from the lines).
pub proof fn lemma_total_price_integrity(lines: Seq<LineItem>)
    requires
        spec_price_sum(lines) <= u64::MAX,
    ensures
        spec_sat_price_sum(lines) as int == spec_price_sum(lines),
{
    lemma_sat_sum_exact(lines, 0, 0);
}

/// What recording a sale hands back: the relational insert's outcome, one
/// notification event per sold line, and line-by-line flags saying whether
/// the sold product was stocked — a missing one was skipped, for the caller
/// to log (no item is auto-created on a sale).
pub struct SaleOutcome {
    pub result: Result<i32, FulfillmentError>,
    pub events: Vec<NotificationEvent>,
    pub stocked: Vec<bool>,
}

/// Record a sale: insert an immutable sale row whose total is recomputed
/// from the request's per-line prices, deplete the inventory line by line
/// independent of the insert's outcome, and yield one notification event
/// per sold line. The returned result reflects only the insert's outcome;
/// the events are handed back for best-effort delivery outside the core,
/// and the stocked flags for the caller's log of skipped lines.
pub fn record_sale(
    ledger: &mut Ledger,
    inv: &mut Inventory,
    req: &SaleRequest,
    database_name: &String,
    sale_date: i64,
) -> (r: SaleOutcome)
    requires
        old(ledger).wf(),
        old(inv).wf(),
    ensures
        final(ledger).wf(),
        final(inv).wf(),
        final(ledger).orders_seq() == old(ledger).orders_seq(),
        ({
            let lines = spec_request_lines(req.products@, req.categories@, req.price_cents@);
            &&& final(inv)@ == spec_deplete_lines(old(inv)@, lines)
            &&& r.events@.len() == lines.len()
            &&& (forall|i: int|
                0 <= i < lines.len() ==> {
                    let e = #[trigger] r.events@[i];
                    &&& e.database_name@ == database_name@
                    &&& e.category@ == lines[i].category@
                    &&& e.quantity_sold == lines[i].quantity
                    &&& e.timestamp == sale_date
                })
            &&& r.stocked@.len() == lines.len()
            &&& (forall|i: int|
                0 <= i < lines.len() ==> #[trigger] r.stocked@[i] == old(inv)@.contains_key(
                    lines[i].product_id@,
                ))
            &&& match r.result {
                Ok(id) => {
                    &&& old(ledger).sales_seq().len() < i32::MAX
                    &&& id == old(ledger).sales_seq().len() + 1
                    &&& final(ledger).sales_seq().len() == old(ledger).sales_seq().len() + 1
                    &&& final(ledger).sales_seq() == old(ledger).sales_seq().push(
                        final(ledger).sales_seq().last(),
                    )
                    &&& ({
                        let s = final(ledger).sales_seq().last();
                        &&& s.sale_id == id
                        &&& s.line_items@ == lines
                        &&& s.total_price_cents == spec_sat_price_sum(lines)
                        &&& s.sold_by == req.sale_by
                        &&& s.sale_date == sale_date
                    })
                },
                Err(e) => {
                    &&& e == FulfillmentError::StoreWrite
                    &&& old(ledger).sales_seq().len() == i32::MAX
                    &&& final(ledger).sales_seq() == old(ledger).sales_seq()
                },
            }
        }),
{
    let lines = zip_lines(&req.products, &req.categories, &req.price_cents);
    let total = sum_prices(&lines);
    let ins: Result<i32, FulfillmentError> = if ledger.sales.len() >= i32::MAX as usize {
        Err(FulfillmentError::StoreWrite)
    } else {
        let sale_id = (ledger.sales.len() + 1) as i32;
        ledger.sales.push(
            Sale {
                sale_id,
                line_items: lines,
                total_price_cents: total,
                sold_by: req.sale_by,
                sale_date,
            },
        );
        Ok(sale_id)
    };
    let sold = zip_lines(&req.products, &req.categories, &req.price_cents);
    let stocked = deplete_lines(inv, &sold);
    let events = build_events(&sold, database_name, sale_date);
    SaleOutcome { result: ins, events, stocked }
}

/// Replenishment shape law: delivering a line whose product is already
/// stocked raises its quantity by exactly the ordered amount, re-prices it
/// strictly upward — within the `[3%, 10%)` markup band for any price of at
/// least 11 cents — keeps its SKU and category, and touches no other item.
/// The arithmetic bounds keep quantity and price off the saturation rails;
/// a zero price cannot be raised by a percentage markup, and a price of 1
/// to 10 cents is forced to the one-cent raise (10% or more) by the
/// integer-cent unit.
pub proof fn lemma_replenishment(
    m: Map<Seq<char>, ItemModel>,
    product: Seq<char>,
    category: Seq<char>,
    quantity: u64,
    price_cents: u64,
    markup_bp: u64,
    sku: Seq<char>,
)
    requires
        m.contains_key(product),
        MARKUP_BP_MIN <= markup_bp < MARKUP_BP_END,
        m[product].quantity + quantity <= u64::MAX,
        1 <= m[product].price_cents,
        m[product].price_cents + (m[product].price_cents * markup_bp + 9999) / 10000 <= u64::MAX,
    ensures
        ({
            let m2 = spec_deliver_line(m, product, category, quantity, price_cents, markup_bp, sku);
            &&& m2.contains_key(product)
            &&& m2[product].quantity == m[product].quantity + quantity
            &&& m2[product].price_cents == crate::pricing::spec_apply_markup(
                m[product].price_cents,
                markup_bp,
            )
            &&& m2[product].price_cents > m[product].price_cents
            &&& 11 <= m[product].price_cents ==> 100 * (m2[product].price_cents
                - m[product].price_cents) >= 3 * m[product].price_cents
            &&& 11 <= m[product].price_cents ==> 10 * (m2[product].price_cents
                - m[product].price_cents) < m[product].price_cents
            &&& m2[product].sku == m[product].sku
            &&& m2[product].category == m[product].category
            &&& m2.dom() == m.dom()
            &&& forall|k: Seq<char>|
                #[trigger] m.contains_key(k) && k != product ==> m2[k] == m[k]
        }),
{
    crate::pricing::lemma_markup_strictly_raises(m[product].price_cents, markup_bp);
    if 11 <= m[product].price_cents {
        crate::pricing::lemma_markup_within_band(m[product].price_cents, markup_bp);
    }
    let m2 = spec_deliver_line(m, product, category, quantity, price_cents, markup_bp, sku);
    assert(m2.dom() =~= m.dom());
}

/// New-item creation law: delivering a line for a product absent from the
/// inventory creates exactly one new item, carrying the ordered quantity
/// and the line's price and category under the given SKU, and touches no
/// other item. `deliver_order` generates that SKU non-empty and prefixed
/// with the product name (see `spec_sku_for`).
pub proof fn lemma_new_item(
    m: Map<Seq<char>, ItemModel>,
    product: Seq<char>,
    category: Seq<char>,
    quantity: u64,
    price_cents: u64,
    markup_bp: u64,
    sku: Seq<char>,
)
    requires
        !m.contains_key(product),
    ensures
        ({
            let m2 = spec_deliver_line(m, product, category, quantity, price_cents, markup_bp, sku);
            &&& m2.contains_key(product)
            &&& m2[product] == ItemModel { sku, category, quantity, price_cents }
            &&& m2.dom() == m.dom().insert(product)
            &&& forall|k: Seq<char>| #[trigger] m.contains_key(k) ==> m2[k] == m[k]
        }),
{
    let m2 = spec_deliver_line(m, product, category, quantity, price_cents, markup_bp, sku);
    assert(m2.dom() =~= m.dom().insert(product));
}

} // verus!
