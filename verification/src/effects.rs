//! What an operation does to stock and to the audit trails, and the
//! functions that carry it out.

use vstd::prelude::*;
use crate::kinds::{DocumentKind, PartyKind};
use crate::ledger::Ledger;
use crate::money::{fits_i64, is_recorded};
use crate::records::{
    level, level_of, mentions, names, quantity_of, ClientHistoryEvent, InventoryHistoryEvent,
    InventoryItem, LineItem, OrderHistory, Party, SaleHistory, SupplierHistoryEvent,
    TransactionHistory,
};
use crate::stamps::{fresh_id, timestamp_now};

verus! {

/// What an audit record of a document says, apart from its own identifier and
/// its date.
pub struct DocNote {
    pub document_id: Seq<char>,
    pub event_type: Seq<char>,
    pub details: Seq<char>,
    pub changed_by: Option<String>,
}

/// What an audit record of a counterparty says, apart from its own identifier
/// and its date.
pub struct PartyNote {
    pub party_id: Seq<char>,
    pub event_type: Seq<char>,
    pub notes: Seq<char>,
    pub amount: int,
    pub changed_by: Option<String>,
}

/// What an audit record of a catalog item says, apart from its own
/// identifier and its date.
pub struct StockNote {
    pub item_id: Seq<char>,
    pub event_type: Seq<char>,
    pub quantity_change: int,
    pub notes: Seq<char>,
    pub related_id: Seq<char>,
}

/// What an audit record of a purchase order says.
pub open spec fn order_note(e: OrderHistory) -> DocNote {
    DocNote {
        document_id: e.order_id@,
        event_type: e.event_type@,
        details: e.details@,
        changed_by: e.changed_by,
    }
}

/// What an audit record of a customer sale says.
pub open spec fn sale_note(e: SaleHistory) -> DocNote {
    DocNote {
        document_id: e.sale_id@,
        event_type: e.event_type@,
        details: e.details@,
        changed_by: e.changed_by,
    }
}

/// What an audit record of a generic transaction says.
pub open spec fn transaction_note(e: TransactionHistory) -> DocNote {
    DocNote {
        document_id: e.transaction_id@,
        event_type: e.event_type@,
        details: e.details@,
        changed_by: e.changed_by,
    }
}

/// Whether a client's audit record says what the note says.
pub open spec fn client_note_matches(e: ClientHistoryEvent, n: PartyNote) -> bool {
    &&& e.client_id@ == n.party_id
    &&& e.event_type@ == n.event_type
    &&& e.notes is Some
    &&& e.notes->0@ == n.notes
    &&& e.amount == n.amount
    &&& e.changed_by == n.changed_by
}

/// Whether a supplier's audit record says what the note says.
pub open spec fn supplier_note_matches(e: SupplierHistoryEvent, n: PartyNote) -> bool {
    &&& e.supplier_id@ == n.party_id
    &&& e.event_type@ == n.event_type
    &&& e.notes is Some
    &&& e.notes->0@ == n.notes
    &&& e.amount == n.amount
    &&& e.changed_by == n.changed_by
}

/// Whether a catalog item's audit record says what the note says.
pub open spec fn stock_note_matches(e: InventoryHistoryEvent, n: StockNote) -> bool {
    &&& e.item_id@ == n.item_id
    &&& e.event_type@ == n.event_type
    &&& e.quantity_change == n.quantity_change
    &&& e.notes is Some
    &&& e.notes->0@ == n.notes
    &&& e.related_id is Some
    &&& e.related_id->0@ == n.related_id
}

/// Whether the audit trail of purchase orders kept what it held and grew by
/// records that say what the notes say, in their order.
pub open spec fn order_history_grew(
    pre: Seq<OrderHistory>,
    post: Seq<OrderHistory>,
    notes: Seq<DocNote>,
) -> bool {
    &&& post.len() == pre.len() + notes.len()
    &&& post.subrange(0, pre.len() as int) == pre
    &&& forall|j: int|
        0 <= j < notes.len() ==> #[trigger] notes[j] == order_note(post[pre.len() + j])
}

/// Whether the audit trail of customer sales kept what it held and grew by
/// records that say what the notes say, in their order.
pub open spec fn sale_history_grew(
    pre: Seq<SaleHistory>,
    post: Seq<SaleHistory>,
    notes: Seq<DocNote>,
) -> bool {
    &&& post.len() == pre.len() + notes.len()
    &&& post.subrange(0, pre.len() as int) == pre
    &&& forall|j: int|
        0 <= j < notes.len() ==> #[trigger] notes[j] == sale_note(post[pre.len() + j])
}

/// Whether the audit trail of generic transactions kept what it held and grew
/// by records that say what the notes say, in their order.
pub open spec fn transaction_history_grew(
    pre: Seq<TransactionHistory>,
    post: Seq<TransactionHistory>,
    notes: Seq<DocNote>,
) -> bool {
    &&& post.len() == pre.len() + notes.len()
    &&& post.subrange(0, pre.len() as int) == pre
    &&& forall|j: int|
        0 <= j < notes.len() ==> #[trigger] notes[j] == transaction_note(post[pre.len() + j])
}

/// Whether the audit trail of the documents of one kind grew by the notes,
/// and those of the other kinds stayed as they were.
pub open spec fn document_history_grew(
    pre: Ledger,
    post: Ledger,
    kind: DocumentKind,
    notes: Seq<DocNote>,
) -> bool {
    match kind {
        DocumentKind::PurchaseOrder => {
            &&& order_history_grew(pre.order_history@, post.order_history@, notes)
            &&& post.sale_history == pre.sale_history
            &&& post.transaction_history == pre.transaction_history
        },
        DocumentKind::CustomerSale => {
            &&& sale_history_grew(pre.sale_history@, post.sale_history@, notes)
            &&& post.order_history == pre.order_history
            &&& post.transaction_history == pre.transaction_history
        },
        DocumentKind::Transaction => {
            &&& transaction_history_grew(
                pre.transaction_history@,
                post.transaction_history@,
                notes,
            )
            &&& post.order_history == pre.order_history
            &&& post.sale_history == pre.sale_history
        },
    }
}

/// Whether the audit trail of clients kept what it held and grew by records
/// that say what the notes say, in their order.
pub open spec fn client_history_grew(
    pre: Seq<ClientHistoryEvent>,
    post: Seq<ClientHistoryEvent>,
    notes: Seq<PartyNote>,
) -> bool {
    &&& post.len() == pre.len() + notes.len()
    &&& post.subrange(0, pre.len() as int) == pre
    &&& forall|j: int|
        0 <= j < notes.len() ==> client_note_matches(post[pre.len() + j], #[trigger] notes[j])
}

/// Whether the audit trail of suppliers kept what it held and grew by records
/// that say what the notes say, in their order.
pub open spec fn supplier_history_grew(
    pre: Seq<SupplierHistoryEvent>,
    post: Seq<SupplierHistoryEvent>,
    notes: Seq<PartyNote>,
) -> bool {
    &&& post.len() == pre.len() + notes.len()
    &&& post.subrange(0, pre.len() as int) == pre
    &&& forall|j: int|
        0 <= j < notes.len() ==> supplier_note_matches(post[pre.len() + j], #[trigger] notes[j])
}

/// Whether the audit trail of the counterparties of one sort grew by the
/// notes, and that of the other sort stayed as it was.
pub open spec fn party_history_grew(
    pre: Ledger,
    post: Ledger,
    kind: PartyKind,
    notes: Seq<PartyNote>,
) -> bool {
    match kind {
        PartyKind::Client => {
            &&& client_history_grew(pre.client_history@, post.client_history@, notes)
            &&& post.supplier_history == pre.supplier_history
        },
        PartyKind::Supplier => {
            &&& supplier_history_grew(pre.supplier_history@, post.supplier_history@, notes)
            &&& post.client_history == pre.client_history
        },
    }
}

/// Whether the audit trail of the catalog kept what it held and grew by
/// records that say what the notes say, in their order.
pub open spec fn stock_history_grew(
    pre: Seq<InventoryHistoryEvent>,
    post: Seq<InventoryHistoryEvent>,
    notes: Seq<StockNote>,
) -> bool {
    &&& post.len() == pre.len() + notes.len()
    &&& post.subrange(0, pre.len() as int) == pre
    &&& forall|j: int|
        0 <= j < notes.len() ==> stock_note_matches(post[pre.len() + j], #[trigger] notes[j])
}

/// The notes that moving the stock of the line items leaves: one for each
/// line item that names a catalog item, in the order of the line items, with
/// the quantity multiplied by `sign`.
pub open spec fn stock_notes(
    items: Seq<LineItem>,
    sign: int,
    event_type: Seq<char>,
    notes: Seq<char>,
    related_id: Seq<char>,
) -> Seq<StockNote>
    decreases items.len(),
{
    if items.len() == 0 {
        Seq::<StockNote>::empty()
    } else {
        let rest = stock_notes(items.drop_last(), sign, event_type, notes, related_id);
        if items.last().item_id is Some {
            rest.push(
                StockNote {
                    item_id: items.last().item_id->0@,
                    event_type,
                    quantity_change: sign * items.last().quantity,
                    notes,
                    related_id,
                },
            )
        } else {
            rest
        }
    }
}

/// The stock figure of a catalog item after the line items in `removed` have
/// left a completed document and those in `added` have joined it, where
/// `sign` is the direction in which the document moves stock.
pub open spec fn new_stock(
    c: InventoryItem,
    removed: Seq<LineItem>,
    added: Seq<LineItem>,
    sign: int,
) -> int {
    level(c.quantity_in_stock) + sign * (quantity_of(added, c.id@) - quantity_of(removed, c.id@))
}

/// Whether every new stock figure fits the amount type.
pub open spec fn stock_fits(
    inventory: Seq<InventoryItem>,
    removed: Seq<LineItem>,
    added: Seq<LineItem>,
    sign: int,
) -> bool {
    forall|i: int|
        0 <= i < inventory.len() ==> fits_i64(
            new_stock(#[trigger] inventory[i], removed, added, sign),
        )
}

/// Whether the catalog after is the catalog before with the stock of every
/// catalog item that a line item names set to its new figure, and all else
/// as it was.
pub open spec fn stock_moved(
    pre: Seq<InventoryItem>,
    post: Seq<InventoryItem>,
    removed: Seq<LineItem>,
    added: Seq<LineItem>,
    sign: int,
) -> bool {
    &&& post.len() == pre.len()
    &&& forall|i: int|
        0 <= i < pre.len() ==> #[trigger] post[i] == (InventoryItem {
            quantity_in_stock: if mentions(removed, pre[i].id@) || mentions(added, pre[i].id@) {
                Some(new_stock(pre[i], removed, added, sign) as i64)
            } else {
                pre[i].quantity_in_stock
            },
            ..pre[i]
        })
}

/// Whether the counterparties after are the counterparties before with the
/// balance of the one of this sort and identifier raised by the amount, none
/// counting as zero, and all else as it was.
pub open spec fn balance_moved(
    pre: Seq<Party>,
    post: Seq<Party>,
    kind: PartyKind,
    id: Seq<char>,
    amount: int,
) -> bool {
    &&& post.len() == pre.len()
    &&& forall|i: int|
        0 <= i < pre.len() ==> #[trigger] post[i] == if pre[i].kind == kind && pre[i].id@ == id {
            Party { credit_balance: Some((level(pre[i].credit_balance) + amount) as i64), ..pre[i] }
        } else {
            pre[i]
        }
}

/// The notes that an adjustment of a balance leaves: the given one where the
/// amount reaches the audit threshold, none below it.
pub open spec fn recorded(amount: int, note: PartyNote) -> Seq<PartyNote> {
    if is_recorded(amount) {
        seq![note]
    } else {
        Seq::<PartyNote>::empty()
    }
}

/// Joins three pieces of text.
pub fn phrase(prefix: &str, middle: &String, suffix: &str) -> (s: String)
    ensures
        s@ == prefix@ + middle@ + suffix@,
{
    let mut s = String::from_str(prefix);
    s.append(middle.as_str());
    s.append(suffix);
    s
}

/// Counts what a run of line items holds of one catalog item, and tells
/// whether any of them names it.
pub(crate) fn quantity_held(items: &Vec<LineItem>, id: &String) -> (r: (bool, i128))
    ensures
        r.0 == mentions(items@, id@),
        r.1 == quantity_of(items@, id@),
        -0x8000_0000_0000_0000_0000_0000 <= r.1 <= 0x8000_0000_0000_0000_0000_0000,
{
    let mut found: bool = false;
    let mut acc: i128 = 0;
    let mut i: usize = 0;
    while i < items.len()
        invariant
            i <= items@.len(),
            found == mentions(items@.subrange(0, i as int), id@),
            acc == quantity_of(items@.subrange(0, i as int), id@),
            -0x8000_0000 * i <= acc <= 0x8000_0000 * i,
        decreases items@.len() - i,
    {
        let ghost before = items@.subrange(0, i as int);
        let ghost after = items@.subrange(0, i + 1);
        assert(after.drop_last() =~= before);
        assert(after.last() == items@[i as int]);
        let hit: bool = match &items[i].item_id {
            Some(r) => *r == *id,
            None => false,
        };
        assert(hit == names(items@[i as int].item_id, id@));
        proof {
            if mentions(before, id@) {
                let k = choose|k: int| 0 <= k < before.len() && names(#[trigger] before[k].item_id, id@);
                assert(after[k] == before[k]);
            }
            if hit {
                assert(names(after[i as int].item_id, id@));
            }
            if mentions(after, id@) && !hit {
                let k = choose|k: int| 0 <= k < after.len() && names(#[trigger] after[k].item_id, id@);
                assert(k < i);
                assert(before[k] == after[k]);
            }
        }
        if hit {
            found = true;
            acc = acc + items[i].quantity as i128;
        }
        i += 1;
    }
    assert(items@.subrange(0, i as int) =~= items@);
    (found, acc)
}

/// Works out the new stock figure of every catalog item; there is no plan
/// where one of them does not fit the amount type.
pub(crate) fn plan_stock(
    inventory: &Vec<InventoryItem>,
    removed: &Vec<LineItem>,
    added: &Vec<LineItem>,
    sign: i64,
) -> (r: Option<Vec<Option<i64>>>)
    requires
        sign == 1 || sign == -1,
    ensures
        r is Some <==> stock_fits(inventory@, removed@, added@, sign as int),
        r is Some ==> r->0@.len() == inventory@.len(),
        r is Some ==> forall|i: int|
            0 <= i < inventory@.len() ==> #[trigger] r->0@[i] == if mentions(
                removed@,
                inventory@[i].id@,
            ) || mentions(added@, inventory@[i].id@) {
                Some(new_stock(inventory@[i], removed@, added@, sign as int) as i64)
            } else {
                inventory@[i].quantity_in_stock
            },
{
    let mut plan: Vec<Option<i64>> = Vec::new();
    let mut i: usize = 0;
    while i < inventory.len()
        invariant
            i <= inventory@.len(),
            sign == 1 || sign == -1,
            plan@.len() == i,
            forall|k: int|
                0 <= k < i ==> fits_i64(
                    new_stock(#[trigger] inventory@[k], removed@, added@, sign as int),
                ),
            forall|k: int|
                0 <= k < i ==> #[trigger] plan@[k] == if mentions(removed@, inventory@[k].id@)
                    || mentions(added@, inventory@[k].id@) {
                    Some(new_stock(inventory@[k], removed@, added@, sign as int) as i64)
                } else {
                    inventory@[k].quantity_in_stock
                },
        decreases inventory@.len() - i,
    {
        let (out_hit, out_q) = quantity_held(removed, &inventory[i].id);
        let (in_hit, in_q) = quantity_held(added, &inventory[i].id);
        let base: i128 = level_of(inventory[i].quantity_in_stock) as i128;
        let net: i128 = in_q - out_q;
        let target: i128 = if sign == 1 {
            base + net
        } else {
            base - net
        };
        assert(target == new_stock(inventory@[i as int], removed@, added@, sign as int));
        if target < -0x8000_0000_0000_0000 || target > 0x7fff_ffff_ffff_ffff {
            assert(!fits_i64(new_stock(inventory@[i as int], removed@, added@, sign as int)));
            return None;
        }
        if out_hit || in_hit {
            plan.push(Some(target as i64));
        } else {
            plan.push(inventory[i].quantity_in_stock);
        }
        i += 1;
    }
    Some(plan)
}

/// Writes the planned stock figures into the catalog.
pub(crate) fn commit_stock(inventory: &mut Vec<InventoryItem>, plan: &Vec<Option<i64>>)
    requires
        plan@.len() == old(inventory)@.len(),
    ensures
        final(inventory)@.len() == old(inventory)@.len(),
        forall|i: int|
            0 <= i < old(inventory)@.len() ==> #[trigger] final(inventory)@[i] == (InventoryItem {
                quantity_in_stock: plan@[i],
                ..old(inventory)@[i]
            }),
{
    let mut i: usize = 0;
    while i < inventory.len()
        invariant
            i <= inventory@.len(),
            inventory@.len() == old(inventory)@.len(),
            plan@.len() == inventory@.len(),
            forall|k: int|
                0 <= k < i ==> #[trigger] inventory@[k] == (InventoryItem {
                    quantity_in_stock: plan@[k],
                    ..old(inventory)@[k]
                }),
            forall|k: int| i <= k < inventory@.len() ==> inventory@[k] == old(inventory)@[k],
        decreases inventory@.len() - i,
    {
        inventory[i].quantity_in_stock = plan[i];
        i += 1;
    }
}

/// Appends one audit record to the trail of the documents of a kind.
pub(crate) fn push_document_event(
    ledger: &mut Ledger,
    kind: DocumentKind,
    document_id: &String,
    event_type: &str,
    details: String,
    changed_by: Option<String>,
)
    ensures
        document_history_grew(
            *old(ledger),
            *final(ledger),
            kind,
            seq![
                DocNote {
                    document_id: document_id@,
                    event_type: event_type@,
                    details: details@,
                    changed_by,
                },
            ],
        ),
        final(ledger).documents == old(ledger).documents,
        final(ledger).parties == old(ledger).parties,
        final(ledger).inventory == old(ledger).inventory,
        final(ledger).client_history == old(ledger).client_history,
        final(ledger).supplier_history == old(ledger).supplier_history,
        final(ledger).inventory_history == old(ledger).inventory_history,
{
    let id = fresh_id();
    let date = timestamp_now();
    let event_type = String::from_str(event_type);
    match kind {
        DocumentKind::PurchaseOrder => {
            ledger.order_history.push(
                OrderHistory {
                    id,
                    order_id: document_id.clone(),
                    date,
                    event_type,
                    details,
                    changed_by,
                },
            );
            assert(ledger.order_history@.subrange(0, old(ledger).order_history@.len() as int)
                =~= old(ledger).order_history@);
        },
        DocumentKind::CustomerSale => {
            ledger.sale_history.push(
                SaleHistory {
                    id,
                    sale_id: document_id.clone(),
                    date,
                    event_type,
                    details,
                    changed_by,
                },
            );
            assert(ledger.sale_history@.subrange(0, old(ledger).sale_history@.len() as int)
                =~= old(ledger).sale_history@);
        },
        DocumentKind::Transaction => {
            ledger.transaction_history.push(
                TransactionHistory {
                    id,
                    transaction_id: document_id.clone(),
                    date,
                    event_type,
                    details,
                    changed_by,
                },
            );
            assert(ledger.transaction_history@.subrange(
                0,
                old(ledger).transaction_history@.len() as int,
            ) =~= old(ledger).transaction_history@);
        },
    }
}

/// Appends one audit record to the trail of the counterparties of a sort.
pub(crate) fn push_party_event(
    ledger: &mut Ledger,
    kind: PartyKind,
    party_id: &String,
    event_type: &str,
    notes: String,
    amount: i64,
    changed_by: Option<String>,
)
    ensures
        party_history_grew(
            *old(ledger),
            *final(ledger),
            kind,
            seq![
                PartyNote {
                    party_id: party_id@,
                    event_type: event_type@,
                    notes: notes@,
                    amount: amount as int,
                    changed_by,
                },
            ],
        ),
        final(ledger).documents == old(ledger).documents,
        final(ledger).parties == old(ledger).parties,
        final(ledger).inventory == old(ledger).inventory,
        final(ledger).order_history == old(ledger).order_history,
        final(ledger).sale_history == old(ledger).sale_history,
        final(ledger).transaction_history == old(ledger).transaction_history,
        final(ledger).inventory_history == old(ledger).inventory_history,
{
    let id = fresh_id();
    let date = timestamp_now();
    let event_type = String::from_str(event_type);
    match kind {
        PartyKind::Client => {
            ledger.client_history.push(
                ClientHistoryEvent {
                    id,
                    client_id: party_id.clone(),
                    date,
                    event_type,
                    notes: Some(notes),
                    amount,
                    changed_by,
                },
            );
            assert(ledger.client_history@.subrange(0, old(ledger).client_history@.len() as int)
                =~= old(ledger).client_history@);
        },
        PartyKind::Supplier => {
            ledger.supplier_history.push(
                SupplierHistoryEvent {
                    id,
                    supplier_id: party_id.clone(),
                    date,
                    event_type,
                    notes: Some(notes),
                    amount,
                    changed_by,
                },
            );
            assert(ledger.supplier_history@.subrange(
                0,
                old(ledger).supplier_history@.len() as int,
            ) =~= old(ledger).supplier_history@);
        },
    }
}

/// Appends one audit record to the trail of the catalog.
pub(crate) fn push_stock_event(
    history: &mut Vec<InventoryHistoryEvent>,
    item_id: &String,
    event_type: &str,
    quantity_change: i64,
    notes: &String,
    related_id: &String,
)
    ensures
        stock_history_grew(
            old(history)@,
            final(history)@,
            seq![
                StockNote {
                    item_id: item_id@,
                    event_type: event_type@,
                    quantity_change: quantity_change as int,
                    notes: notes@,
                    related_id: related_id@,
                },
            ],
        ),
{
    let id = fresh_id();
    let date = timestamp_now();
    history.push(
        InventoryHistoryEvent {
            id,
            item_id: item_id.clone(),
            date,
            event_type: String::from_str(event_type),
            quantity_change,
            notes: Some(notes.clone()),
            related_id: Some(related_id.clone()),
        },
    );
    assert(history@.subrange(0, old(history)@.len() as int) =~= old(history)@);
}

/// Trails of counterparties that are as they were have grown by nothing.
pub proof fn party_history_unchanged(pre: Ledger, post: Ledger, kind: PartyKind)
    requires
        post.client_history == pre.client_history,
        post.supplier_history == pre.supplier_history,
    ensures
        party_history_grew(pre, post, kind, Seq::<PartyNote>::empty()),
{
    assert(post.client_history@.subrange(0, pre.client_history@.len() as int)
        =~= pre.client_history@);
    assert(post.supplier_history@.subrange(0, pre.supplier_history@.len() as int)
        =~= pre.supplier_history@);
}

/// Trails of documents that are as they were have grown by nothing.
pub proof fn document_history_unchanged(pre: Ledger, post: Ledger, kind: DocumentKind)
    requires
        post.order_history == pre.order_history,
        post.sale_history == pre.sale_history,
        post.transaction_history == pre.transaction_history,
    ensures
        document_history_grew(pre, post, kind, Seq::<DocNote>::empty()),
{
    assert(post.order_history@.subrange(0, pre.order_history@.len() as int)
        =~= pre.order_history@);
    assert(post.sale_history@.subrange(0, pre.sale_history@.len() as int) =~= pre.sale_history@);
    assert(post.transaction_history@.subrange(0, pre.transaction_history@.len() as int)
        =~= pre.transaction_history@);
}

/// A trail of the catalog that is as it was has grown by nothing.
pub proof fn stock_history_unchanged(h: Seq<InventoryHistoryEvent>)
    ensures
        stock_history_grew(h, h, Seq::<StockNote>::empty()),
{
    assert(h.subrange(0, h.len() as int) =~= h);
}

/// Trails of counterparties that grew by some notes and then by more grew by
/// all of them.
pub proof fn party_history_grew_twice(
    a: Ledger,
    b: Ledger,
    c: Ledger,
    kind: PartyKind,
    first: Seq<PartyNote>,
    second: Seq<PartyNote>,
)
    requires
        party_history_grew(a, b, kind, first),
        party_history_grew(b, c, kind, second),
    ensures
        party_history_grew(a, c, kind, first + second),
{
    let all = first + second;
    match kind {
        PartyKind::Client => {
            let ha = a.client_history@;
            let hb = b.client_history@;
            let hc = c.client_history@;
            assert(hc.subrange(0, ha.len() as int) =~= ha) by {
                assert forall|k: int| 0 <= k < ha.len() implies hc.subrange(0, ha.len() as int)[k]
                    == ha[k] by {
                    assert(hc.subrange(0, hb.len() as int)[k] == hb[k]);
                    assert(hb.subrange(0, ha.len() as int)[k] == ha[k]);
                }
            }
            assert forall|j: int| 0 <= j < all.len() implies client_note_matches(
                hc[ha.len() + j],
                #[trigger] all[j],
            ) by {
                if j < first.len() {
                    assert(all[j] == first[j]);
                    assert(hc.subrange(0, hb.len() as int)[ha.len() + j] == hb[ha.len() + j]);
                } else {
                    assert(all[j] == second[j - first.len()]);
                }
            }
        },
        PartyKind::Supplier => {
            let ha = a.supplier_history@;
            let hb = b.supplier_history@;
            let hc = c.supplier_history@;
            assert(hc.subrange(0, ha.len() as int) =~= ha) by {
                assert forall|k: int| 0 <= k < ha.len() implies hc.subrange(0, ha.len() as int)[k]
                    == ha[k] by {
                    assert(hc.subrange(0, hb.len() as int)[k] == hb[k]);
                    assert(hb.subrange(0, ha.len() as int)[k] == ha[k]);
                }
            }
            assert forall|j: int| 0 <= j < all.len() implies supplier_note_matches(
                hc[ha.len() + j],
                #[trigger] all[j],
            ) by {
                if j < first.len() {
                    assert(all[j] == first[j]);
                    assert(hc.subrange(0, hb.len() as int)[ha.len() + j] == hb[ha.len() + j]);
                } else {
                    assert(all[j] == second[j - first.len()]);
                }
            }
        },
    }
}

/// A trail that grew by some notes and then by more grew by all of them.
pub proof fn stock_history_grew_twice(
    a: Seq<InventoryHistoryEvent>,
    b: Seq<InventoryHistoryEvent>,
    c: Seq<InventoryHistoryEvent>,
    first: Seq<StockNote>,
    second: Seq<StockNote>,
)
    requires
        stock_history_grew(a, b, first),
        stock_history_grew(b, c, second),
    ensures
        stock_history_grew(a, c, first + second),
{
    assert(c.subrange(0, a.len() as int) =~= a) by {
        assert forall|k: int| 0 <= k < a.len() implies c.subrange(0, a.len() as int)[k] == a[k] by {
            assert(c.subrange(0, b.len() as int)[k] == b[k]);
            assert(b.subrange(0, a.len() as int)[k] == a[k]);
        }
    }
    let all = first + second;
    assert forall|j: int| 0 <= j < all.len() implies stock_note_matches(
        c[a.len() + j],
        #[trigger] all[j],
    ) by {
        if j < first.len() {
            assert(all[j] == first[j]);
            assert(c.subrange(0, b.len() as int)[a.len() + j] == b[a.len() + j]);
        } else {
            assert(all[j] == second[j - first.len()]);
        }
    }
}

/// Appends to the trail of the catalog one record for each line item that
/// names a catalog item.
pub(crate) fn push_stock_events(
    history: &mut Vec<InventoryHistoryEvent>,
    items: &Vec<LineItem>,
    sign: i64,
    event_type: &str,
    notes: &String,
    related_id: &String,
)
    requires
        sign == 1 || sign == -1,
    ensures
        stock_history_grew(
            old(history)@,
            final(history)@,
            stock_notes(items@, sign as int, event_type@, notes@, related_id@),
        ),
{
    let mut i: usize = 0;
    assert(history@.subrange(0, history@.len() as int) =~= history@);
    while i < items.len()
        invariant
            i <= items@.len(),
            sign == 1 || sign == -1,
            stock_history_grew(
                old(history)@,
                history@,
                stock_notes(
                    items@.subrange(0, i as int),
                    sign as int,
                    event_type@,
                    notes@,
                    related_id@,
                ),
            ),
        decreases items@.len() - i,
    {
        let ghost before = history@;
        let ghost done = stock_notes(
            items@.subrange(0, i as int),
            sign as int,
            event_type@,
            notes@,
            related_id@,
        );
        assert(items@.subrange(0, i + 1).drop_last() =~= items@.subrange(0, i as int));
        assert(items@.subrange(0, i + 1).last() == items@[i as int]);
        match &items[i].item_id {
            Some(item_id) => {
                let change: i64 = if sign == 1 {
                    items[i].quantity as i64
                } else {
                    -(items[i].quantity as i64)
                };
                push_stock_event(history, item_id, event_type, change, notes, related_id);
                proof {
                    let q = items@[i as int].quantity as int;
                    assert(change as int == (sign as int) * q) by (nonlinear_arith)
                        requires
                            sign == 1 || sign == -1,
                            change as int == (if sign == 1 {
                                q
                            } else {
                                -q
                            }),
                    ;
                    let note = StockNote {
                        item_id: item_id@,
                        event_type: event_type@,
                        quantity_change: change as int,
                        notes: notes@,
                        related_id: related_id@,
                    };
                    stock_history_grew_twice(old(history)@, before, history@, done, seq![note]);
                    assert(done + seq![note] =~= done.push(note));
                    assert(stock_notes(
                        items@.subrange(0, i + 1),
                        sign as int,
                        event_type@,
                        notes@,
                        related_id@,
                    ) == done.push(note));
                }
            },
            None => {
                assert(stock_notes(
                    items@.subrange(0, i + 1),
                    sign as int,
                    event_type@,
                    notes@,
                    related_id@,
                ) == done);
            },
        }
        i += 1;
    }
    assert(items@.subrange(0, i as int) =~= items@);
}

/// Whether a plan holds the new stock figure of every catalog item.
pub open spec fn planned(
    inventory: Seq<InventoryItem>,
    plan: Seq<Option<i64>>,
    removed: Seq<LineItem>,
    added: Seq<LineItem>,
    sign: int,
) -> bool {
    &&& plan.len() == inventory.len()
    &&& forall|i: int|
        0 <= i < inventory.len() ==> #[trigger] plan[i] == if mentions(removed, inventory[i].id@)
            || mentions(added, inventory[i].id@) {
            Some(new_stock(inventory[i], removed, added, sign) as i64)
        } else {
            inventory[i].quantity_in_stock
        }
}

/// Writes planned stock figures and extends the trail of the catalog: first
/// by the lines that left, with their quantities turned round, then by the
/// lines that joined.
pub(crate) fn move_stock(
    inventory: &mut Vec<InventoryItem>,
    history: &mut Vec<InventoryHistoryEvent>,
    plan: &Vec<Option<i64>>,
    removed: &Vec<LineItem>,
    added: &Vec<LineItem>,
    sign: i64,
    removed_note: &String,
    added_tag: &str,
    added_note: &String,
    related_id: &String,
)
    requires
        sign == 1 || sign == -1,
        planned(old(inventory)@, plan@, removed@, added@, sign as int),
    ensures
        stock_moved(old(inventory)@, final(inventory)@, removed@, added@, sign as int),
        stock_history_grew(
            old(history)@,
            final(history)@,
            stock_notes(removed@, -(sign as int), "Adjustment"@, removed_note@, related_id@)
                + stock_notes(added@, sign as int, added_tag@, added_note@, related_id@),
        ),
{
    commit_stock(inventory, plan);
    let ghost h0 = history@;
    push_stock_events(history, removed, -sign, "Adjustment", removed_note, related_id);
    let ghost h1 = history@;
    push_stock_events(history, added, sign, added_tag, added_note, related_id);
    proof {
        stock_history_grew_twice(
            h0,
            h1,
            history@,
            stock_notes(removed@, -(sign as int), "Adjustment"@, removed_note@, related_id@),
            stock_notes(added@, sign as int, added_tag@, added_note@, related_id@),
        );
    }
}

} // verus!
