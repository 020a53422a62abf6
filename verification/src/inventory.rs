//! The per-tenant inventory collection.
//!
//! The store keeps one document per item, keyed by the item name — the
//! authoritative, unique-per-tenant dedup key. Items are created on first
//! reference by a delivered order line, mutated by replenishment (quantity
//! up, re-priced) or depletion (quantity down, floored at zero), and never
//! deleted. The model of the collection is a map from item name to the
//! item's fields.

use vstd::prelude::*;
use crate::pricing::{apply_markup, deplete, spec_apply_markup, spec_deplete, spec_sat_add};

verus! {

/// The fields of one inventory document, as the contracts speak of them.
pub ghost struct ItemModel {
    pub sku: Seq<char>,
    pub category: Seq<char>,
    pub quantity: u64,
    pub price_cents: u64,
}

/// One inventory document: current name, SKU, category, on-hand quantity
/// and price of an item.
pub struct InventoryItem {
    pub item_name: String,
    pub sku: String,
    pub category: String,
    pub quantity: u64,
    pub price_cents: u64,
}

impl InventoryItem {
    pub open spec fn model(self) -> ItemModel {
        ItemModel {
            sku: self.sku@,
            category: self.category@,
            quantity: self.quantity,
            price_cents: self.price_cents,
        }
    }
}

/// No two documents share an item name.
pub open spec fn names_distinct(s: Seq<InventoryItem>) -> bool {
    forall|i: int, j: int| 0 <= i < j < s.len() ==> s[i].item_name@ != s[j].item_name@
}

/// The map a sequence of documents denotes.
pub open spec fn spec_as_map(s: Seq<InventoryItem>) -> Map<Seq<char>, ItemModel>
    decreases s.len(),
{
    if s.len() == 0 {
        Map::empty()
    } else {
        spec_as_map(s.drop_last()).insert(s.last().item_name@, s.last().model())
    }
}

/// A name is in the map exactly when some document carries it.
pub proof fn lemma_as_map_contains(s: Seq<InventoryItem>, name: Seq<char>)
    ensures
        spec_as_map(s).contains_key(name) <==> exists|i: int|
            0 <= i < s.len() && s[i].item_name@ == name,
    decreases s.len(),
{
    if s.len() == 0 {
    } else {
        lemma_as_map_contains(s.drop_last(), name);
        if s.last().item_name@ == name {
            assert(s[s.len() - 1].item_name@ == name);
        } else if spec_as_map(s.drop_last()).contains_key(name) {
            let i = choose|i: int| 0 <= i < s.drop_last().len() && s.drop_last()[i].item_name@
                == name;
            assert(s[i].item_name@ == name);
        } else if exists|i: int| 0 <= i < s.len() && s[i].item_name@ == name {
            let i = choose|i: int| 0 <= i < s.len() && s[i].item_name@ == name;
            assert(i < s.len() - 1);
            assert(s.drop_last()[i].item_name@ == name);
        }
    }
}

/// With distinct names, the document at an index is the map's binding for
/// its name.
pub proof fn lemma_as_map_index(s: Seq<InventoryItem>, i: int)
    requires
        names_distinct(s),
        0 <= i < s.len(),
    ensures
        spec_as_map(s).contains_key(s[i].item_name@),
        spec_as_map(s)[s[i].item_name@] == s[i].model(),
    decreases s.len(),
{
    if i == s.len() - 1 {
    } else {
        assert(names_distinct(s.drop_last()));
        lemma_as_map_index(s.drop_last(), i);
        assert(s.drop_last()[i] == s[i]);
        assert(s.last().item_name@ != s[i].item_name@);
    }
}

/// Updating a document in place (same name) rewrites exactly its binding.
pub proof fn lemma_as_map_update(s: Seq<InventoryItem>, i: int, it: InventoryItem)
    requires
        names_distinct(s),
        0 <= i < s.len(),
        it.item_name@ == s[i].item_name@,
    ensures
        names_distinct(s.update(i, it)),
        spec_as_map(s.update(i, it)) == spec_as_map(s).insert(it.item_name@, it.model()),
    decreases s.len(),
{
    let s2 = s.update(i, it);
    assert forall|a: int, b: int| 0 <= a < b < s2.len() implies s2[a].item_name@
        != s2[b].item_name@ by {
        assert(s[a].item_name@ != s[b].item_name@);
    }
    if i == s.len() - 1 {
        assert(s2.drop_last() =~= s.drop_last());
        assert(spec_as_map(s2) == spec_as_map(s.drop_last()).insert(it.item_name@, it.model()));
        assert(spec_as_map(s.drop_last()).insert(it.item_name@, it.model()) =~= spec_as_map(
            s,
        ).insert(it.item_name@, it.model()));
    } else {
        assert(names_distinct(s.drop_last()));
        lemma_as_map_update(s.drop_last(), i, it);
        assert(s2.drop_last() =~= s.drop_last().update(i, it));
        assert(s2.last() == s.last());
        assert(s.last().item_name@ != it.item_name@);
        assert(spec_as_map(s2) == spec_as_map(s.drop_last()).insert(
            it.item_name@,
            it.model(),
        ).insert(s.last().item_name@, s.last().model()));
        assert(spec_as_map(s.drop_last()).insert(it.item_name@, it.model()).insert(
            s.last().item_name@,
            s.last().model(),
        ) =~= spec_as_map(s).insert(it.item_name@, it.model()));
    }
}

/// Appending a document with a fresh name adds exactly its binding.
pub proof fn lemma_as_map_push(s: Seq<InventoryItem>, it: InventoryItem)
    requires
        names_distinct(s),
        forall|i: int| 0 <= i < s.len() ==> s[i].item_name@ != it.item_name@,
    ensures
        names_distinct(s.push(it)),
        spec_as_map(s.push(it)) == spec_as_map(s).insert(it.item_name@, it.model()),
{
    assert(s.push(it).drop_last() =~= s);
    assert(s.push(it).last() == it);
    assert forall|a: int, b: int| 0 <= a < b < s.push(it).len() implies s.push(it)[a].item_name@
        != s.push(it)[b].item_name@ by {
        if b < s.len() {
            assert(s[a].item_name@ != s[b].item_name@);
        } else {
            assert(s[a].item_name@ != it.item_name@);
        }
    }
}

/// The inventory after applying one delivered order line: a stocked item
/// gains the ordered quantity (saturating) and is re-priced by the drawn
/// markup, keeping its SKU and category; an absent item is created with the
/// generated SKU and the line's quantity, price and category.
pub open spec fn spec_deliver_line(
    m: Map<Seq<char>, ItemModel>,
    product: Seq<char>,
    category: Seq<char>,
    quantity: u64,
    price_cents: u64,
    markup_bp: u64,
    sku: Seq<char>,
) -> Map<Seq<char>, ItemModel> {
    if m.contains_key(product) {
        let it = m[product];
        m.insert(
            product,
            ItemModel {
                sku: it.sku,
                category: it.category,
                quantity: spec_sat_add(it.quantity, quantity),
                price_cents: spec_apply_markup(it.price_cents, markup_bp),
            },
        )
    } else {
        m.insert(product, ItemModel { sku, category, quantity, price_cents })
    }
}

/// The inventory after applying one sold line: a stocked item's quantity
/// drops by the sold amount, floored at zero; an absent item stays absent —
/// no item is auto-created on a sale.
pub open spec fn spec_deplete_line(
    m: Map<Seq<char>, ItemModel>,
    product: Seq<char>,
    sold: u64,
) -> Map<Seq<char>, ItemModel> {
    if m.contains_key(product) {
        let it = m[product];
        m.insert(
            product,
            ItemModel {
                sku: it.sku,
                category: it.category,
                quantity: spec_deplete(it.quantity, sold),
                price_cents: it.price_cents,
            },
        )
    } else {
        m
    }
}

/// Depleting a line never creates or removes an item: the store's key set
/// is unchanged.
pub proof fn lemma_deplete_line_preserves_names(
    m: Map<Seq<char>, ItemModel>,
    product: Seq<char>,
    sold: u64,
)
    ensures
        forall|k: Seq<char>|
            #[trigger] spec_deplete_line(m, product, sold).contains_key(k) <==> m.contains_key(k),
{
}

/// The per-tenant inventory collection.
pub struct Inventory {
    items: Vec<InventoryItem>,
}

impl View for Inventory {
    type V = Map<Seq<char>, ItemModel>;

    closed spec fn view(&self) -> Map<Seq<char>, ItemModel> {
        spec_as_map(self.items@)
    }
}

impl Inventory {
    /// The underlying documents, in insertion order.
    pub closed spec fn items_seq(self) -> Seq<InventoryItem> {
        self.items@
    }

    pub open spec fn wf(self) -> bool {
        names_distinct(self.items_seq())
    }

    /// The view is the map the documents denote.
    pub proof fn lemma_view_is_items(self)
        ensures
            self@ == spec_as_map(self.items_seq()),
    {
    }

    /// An empty inventory.
    pub fn new() -> (inv: Inventory)
        ensures
            inv.wf(),
            inv@ == Map::<Seq<char>, ItemModel>::empty(),
    {
        let inv = Inventory { items: Vec::new() };
        proof {
            assert(inv@ =~= Map::<Seq<char>, ItemModel>::empty());
        }
        inv
    }

    /// The index of the document for a name, if one exists.
    fn find_index(&self, name: &String) -> (r: Option<usize>)
        ensures
            match r {
                Some(i) => i < self.items@.len() && self.items@[i as int].item_name@ == name@,
                None => forall|j: int|
                    0 <= j < self.items@.len() ==> self.items@[j].item_name@ != name@,
            },
    {
        let n = self.items.len();
        let mut i: usize = 0;
        while i < n
            invariant
                n == self.items@.len(),
                i <= n,
                forall|j: int| 0 <= j < i ==> self.items@[j].item_name@ != name@,
            decreases n - i,
        {
            if self.items[i].item_name == *name {
                return Some(i);
            }
            i = i + 1;
        }
        None
    }

    /// Current on-hand quantity of the named item, if it is stocked.
    pub fn get_item_quantity(&self, product_name: &String) -> (r: Option<u64>)
        requires
            self.wf(),
        ensures
            self@.contains_key(product_name@) ==> r == Some(self@[product_name@].quantity),
            !self@.contains_key(product_name@) ==> r is None,
    {
        match self.find_index(product_name) {
            Some(i) => {
                proof {
                    lemma_as_map_index(self.items@, i as int);
                }
                Some(self.items[i].quantity)
            },
            None => {
                proof {
                    lemma_as_map_contains(self.items@, product_name@);
                }
                None
            },
        }
    }

    /// A copy of the named item's document, if it is stocked.
    pub fn lookup(&self, product_name: &String) -> (r: Option<InventoryItem>)
        requires
            self.wf(),
        ensures
            self@.contains_key(product_name@) ==> (r matches Some(it) && it.item_name@
                == product_name@ && it.model() == self@[product_name@]),
            !self@.contains_key(product_name@) ==> r is None,
    {
        match self.find_index(product_name) {
            Some(i) => {
                proof {
                    lemma_as_map_index(self.items@, i as int);
                }
                let it = &self.items[i];
                Some(
                    InventoryItem {
                        item_name: it.item_name.clone(),
                        sku: it.sku.clone(),
                        category: it.category.clone(),
                        quantity: it.quantity,
                        price_cents: it.price_cents,
                    },
                )
            },
            None => {
                proof {
                    lemma_as_map_contains(self.items@, product_name@);
                }
                None
            },
        }
    }

    /// Apply one delivered order line (see `spec_deliver_line`). The flag
    /// says whether the product was already stocked (and so was
    /// replenished rather than created).
    pub fn deliver_line(
        &mut self,
        product_id: &String,
        category: &String,
        quantity: u64,
        price_cents: u64,
        markup_bp: u64,
        sku: String,
    ) -> (found: bool)
        requires
            old(self).wf(),
        ensures
            final(self).wf(),
            found == old(self)@.contains_key(product_id@),
            final(self)@ == spec_deliver_line(
                old(self)@,
                product_id@,
                category@,
                quantity,
                price_cents,
                markup_bp,
                sku@,
            ),
    {
        match self.find_index(product_id) {
            Some(i) => {
                proof {
                    lemma_as_map_index(self.items@, i as int);
                }
                let it = &self.items[i];
                let updated = InventoryItem {
                    item_name: it.item_name.clone(),
                    sku: it.sku.clone(),
                    category: it.category.clone(),
                    quantity: it.quantity.saturating_add(quantity),
                    price_cents: apply_markup(it.price_cents, markup_bp),
                };
                let ghost s0 = self.items@;
                self.items[i] = updated;
                proof {
                    lemma_as_map_update(s0, i as int, updated);
                }
                true
            },
            None => {
                proof {
                    lemma_as_map_contains(self.items@, product_id@);
                }
                let new_item = InventoryItem {
                    item_name: product_id.clone(),
                    sku,
                    category: category.clone(),
                    quantity,
                    price_cents,
                };
                let ghost s0 = self.items@;
                self.items.push(new_item);
                proof {
                    lemma_as_map_push(s0, new_item);
                }
                false
            },
        }
    }

    /// Apply one sold line (see `spec_deplete_line`). The flag says whether
    /// the product was stocked; a missing product is left missing.
    pub fn deplete_line(&mut self, product_id: &String, sold: u64) -> (found: bool)
        requires
            old(self).wf(),
        ensures
            final(self).wf(),
            found == old(self)@.contains_key(product_id@),
            final(self)@ == spec_deplete_line(old(self)@, product_id@, sold),
    {
        match self.find_index(product_id) {
            Some(i) => {
                proof {
                    lemma_as_map_index(self.items@, i as int);
                }
                let it = &self.items[i];
                let updated = InventoryItem {
                    item_name: it.item_name.clone(),
                    sku: it.sku.clone(),
                    category: it.category.clone(),
                    quantity: deplete(it.quantity, sold),
                    price_cents: it.price_cents,
                };
                let ghost s0 = self.items@;
                self.items[i] = updated;
                proof {
                    lemma_as_map_update(s0, i as int, updated);
                }
                true
            },
            None => {
                proof {
                    lemma_as_map_contains(self.items@, product_id@);
                }
                false
            },
        }
    }

    /// All documents, for read-out at the boundary.
    pub fn items(&self) -> (r: &Vec<InventoryItem>)
        ensures
            r@ == self.items_seq(),
    {
        &self.items
    }
}

/// The stock level after a sequence of sold amounts, each floored at zero.
pub open spec fn spec_deplete_all(q0: u64, sells: Seq<u64>) -> u64
    decreases sells.len(),
{
    if sells.len() == 0 {
        q0
    } else {
        spec_deplete_all(spec_deplete(q0, sells[0]), sells.drop_first())
    }
}

/// The total amount sold across a sequence of sales.
pub open spec fn spec_sold_sum(sells: Seq<u64>) -> int
    decreases sells.len(),
{
    if sells.len() == 0 {
        0
    } else {
        sells[0] + spec_sold_sum(sells.drop_first())
    }
}

pub proof fn lemma_sold_sum_nonneg(sells: Seq<u64>)
    ensures
        spec_sold_sum(sells) >= 0,
    decreases sells.len(),
{
    if sells.len() > 0 {
        lemma_sold_sum_nonneg(sells.drop_first());
    }
}

/// Non-negative stock law: for any sequence of sales against an item
/// starting at quantity `q0`, the quantity after each operation is
/// `max(0, q0 - total sold)` — depletion clips at zero and never goes
/// negative.
pub proof fn lemma_non_negative_stock(q0: u64, sells: Seq<u64>)
    ensures
        spec_deplete_all(q0, sells) as int == (if spec_sold_sum(sells) >= q0 {
            0
        } else {
            q0 - spec_sold_sum(sells)
        }),
    decreases sells.len(),
{
    if sells.len() > 0 {
        lemma_sold_sum_nonneg(sells.drop_first());
        lemma_non_negative_stock(spec_deplete(q0, sells[0]), sells.drop_first());
    }
}

} // verus!
