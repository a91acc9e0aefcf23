//! The records that the ledger holds, and the sums derived from them.

use vstd::prelude::*;
use crate::kinds::{DocumentKind, DocumentStatus, PartyKind, TransactionType};
use crate::money::{fits_i64, PaymentStatus};

verus! {

/// The header of a commercial document.
#[derive(Debug)]
pub struct Document {
    pub id: String,
    /// The human-readable number, unique among all documents.
    pub number: String,
    pub kind: DocumentKind,
    pub transaction_type: TransactionType,
    pub party_id: String,
    pub party_kind: PartyKind,
    pub status: DocumentStatus,
    pub payment_status: PaymentStatus,
    pub total_amount: i64,
    pub paid_amount: i64,
    pub notes: Option<String>,
    pub created_at: String,
    pub updated_at: String,
    pub created_by: Option<String>,
}

/// A quantity of goods at a price, attached to one document.
#[derive(Debug)]
pub struct LineItem {
    pub id: String,
    pub document_id: String,
    /// The catalog item whose stock the line moves; absent for an ad-hoc line.
    pub item_id: Option<String>,
    pub item_name: String,
    pub quantity: i32,
    pub unit_price: i64,
    pub total_price: i64,
    pub notes: Option<String>,
}

/// A payment made against one document.
#[derive(Debug)]
pub struct Payment {
    pub id: String,
    pub document_id: String,
    pub amount: i64,
    pub method: String,
    pub date: String,
    pub received_by: Option<String>,
    pub notes: Option<String>,
    pub session_id: Option<String>,
}

/// A client or a supplier with its running balance.  A positive balance of a
/// client is what the client owes; a positive balance of a supplier is what
/// is owed to the supplier.
#[derive(Debug)]
pub struct Party {
    pub id: String,
    pub kind: PartyKind,
    pub name: String,
    pub credit_balance: Option<i64>,
}

/// A catalog item with its stock; no stock figure means that the item is not
/// stock-tracked.
#[derive(Debug)]
pub struct InventoryItem {
    pub id: String,
    pub item_name: String,
    pub quantity_in_stock: Option<i64>,
    pub low_stock_threshold: Option<i64>,
}

/// An audit record of something that happened to a purchase order.
#[derive(Debug)]
pub struct OrderHistory {
    pub id: String,
    pub order_id: String,
    pub date: String,
    pub event_type: String,
    pub details: String,
    pub changed_by: Option<String>,
}

/// An audit record of something that happened to a customer sale.
#[derive(Debug)]
pub struct SaleHistory {
    pub id: String,
    pub sale_id: String,
    pub date: String,
    pub event_type: String,
    pub details: String,
    pub changed_by: Option<String>,
}

/// An audit record of something that happened to a generic transaction.
#[derive(Debug)]
pub struct TransactionHistory {
    pub id: String,
    pub transaction_id: String,
    pub date: String,
    pub event_type: String,
    pub details: String,
    pub changed_by: Option<String>,
}

/// An audit record of one change of a client's balance.
#[derive(Debug)]
pub struct ClientHistoryEvent {
    pub id: String,
    pub client_id: String,
    pub date: String,
    pub event_type: String,
    pub notes: Option<String>,
    pub amount: i64,
    pub changed_by: Option<String>,
}

/// An audit record of one change of a supplier's balance.
#[derive(Debug)]
pub struct SupplierHistoryEvent {
    pub id: String,
    pub supplier_id: String,
    pub date: String,
    pub event_type: String,
    pub notes: Option<String>,
    pub amount: i64,
    pub changed_by: Option<String>,
}

/// An audit record of one change of a catalog item's stock.
#[derive(Debug)]
pub struct InventoryHistoryEvent {
    pub id: String,
    pub item_id: String,
    pub date: String,
    pub event_type: String,
    pub quantity_change: i64,
    pub notes: Option<String>,
    pub related_id: Option<String>,
}

/// A document together with its line items, its payments and the name of its
/// counterparty.
#[derive(Debug)]
pub struct DocumentWithDetails {
    pub document: Document,
    pub items: Vec<LineItem>,
    pub payments: Vec<Payment>,
    pub party_name: String,
}

/// A stock figure, none counting as zero.
pub open spec fn level(q: Option<i64>) -> int {
    match q {
        Some(v) => v as int,
        None => 0,
    }
}

/// Reads a stock figure or a balance, none counting as zero.
pub fn level_of(q: Option<i64>) -> (v: i64)
    ensures
        v == level(q),
{
    match q {
        Some(v) => v,
        None => 0,
    }
}

/// Copies an optional text.
pub fn copy_text(t: &Option<String>) -> (r: Option<String>)
    ensures
        r == *t,
{
    match t {
        Some(s) => Some(s.clone()),
        None => None,
    }
}

/// Whether an optional text is present and reads `id`.
pub open spec fn names(t: Option<String>, id: Seq<char>) -> bool {
    t is Some && t->0@ == id
}

impl LineItem {
    /// A line item is well formed when its quantity is not negative and its
    /// total is the quantity times the unit price.
    pub open spec fn valid(self) -> bool {
        &&& self.quantity >= 0
        &&& self.total_price == self.quantity * self.unit_price
    }

    /// Tests whether the line item is well formed.
    pub fn is_valid(&self) -> (r: bool)
        ensures
            r == self.valid(),
    {
        if self.quantity < 0 {
            return false;
        }
        let q: i128 = self.quantity as i128;
        let p: i128 = self.unit_price as i128;
        assert(-0x8000_0000_0000_0000_0000_0000 <= q * p <= 0x8000_0000_0000_0000_0000_0000)
            by (nonlinear_arith)
            requires
                0 <= q <= 0x7fff_ffff,
                -0x8000_0000_0000_0000 <= p <= 0x7fff_ffff_ffff_ffff,
        ;
        let product: i128 = q * p;
        product == self.total_price as i128
    }

    /// Builds a line item whose total is the quantity times the unit price.
    /// There is none where the quantity is negative or the total does not fit.
    pub fn new(
        id: String,
        document_id: String,
        item_id: Option<String>,
        item_name: String,
        quantity: i32,
        unit_price: i64,
        notes: Option<String>,
    ) -> (r: Option<LineItem>)
        ensures
            r is Some <==> quantity >= 0 && fits_i64(quantity * unit_price),
            r is Some ==> r->0 == (LineItem {
                id,
                document_id,
                item_id,
                item_name,
                quantity,
                unit_price,
                total_price: (quantity * unit_price) as i64,
                notes,
            }),
            r is Some ==> r->0.valid(),
    {
        if quantity < 0 {
            return None;
        }
        let q: i128 = quantity as i128;
        let p: i128 = unit_price as i128;
        assert(-0x8000_0000_0000_0000_0000_0000 <= q * p <= 0x8000_0000_0000_0000_0000_0000)
            by (nonlinear_arith)
            requires
                0 <= q <= 0x7fff_ffff,
                -0x8000_0000_0000_0000 <= p <= 0x7fff_ffff_ffff_ffff,
        ;
        let product: i128 = q * p;
        if product < -0x8000_0000_0000_0000 || product > 0x7fff_ffff_ffff_ffff {
            return None;
        }
        Some(
            LineItem {
                id,
                document_id,
                item_id,
                item_name,
                quantity,
                unit_price,
                total_price: product as i64,
                notes,
            },
        )
    }

    /// Copies the line item.
    pub fn copy(&self) -> (r: LineItem)
        ensures
            r == *self,
    {
        LineItem {
            id: self.id.clone(),
            document_id: self.document_id.clone(),
            item_id: copy_text(&self.item_id),
            item_name: self.item_name.clone(),
            quantity: self.quantity,
            unit_price: self.unit_price,
            total_price: self.total_price,
            notes: copy_text(&self.notes),
        }
    }
}

impl Payment {
    /// A payment is well formed when its amount is positive.
    pub open spec fn valid(self) -> bool {
        self.amount > 0
    }

    /// Copies the payment.
    pub fn copy(&self) -> (r: Payment)
        ensures
            r == *self,
    {
        Payment {
            id: self.id.clone(),
            document_id: self.document_id.clone(),
            amount: self.amount,
            method: self.method.clone(),
            date: self.date.clone(),
            received_by: copy_text(&self.received_by),
            notes: copy_text(&self.notes),
            session_id: copy_text(&self.session_id),
        }
    }
}

impl Document {
    /// Copies the header.
    pub fn copy(&self) -> (r: Document)
        ensures
            r == *self,
    {
        Document {
            id: self.id.clone(),
            number: self.number.clone(),
            kind: self.kind,
            transaction_type: self.transaction_type,
            party_id: self.party_id.clone(),
            party_kind: self.party_kind,
            status: self.status,
            payment_status: self.payment_status,
            total_amount: self.total_amount,
            paid_amount: self.paid_amount,
            notes: copy_text(&self.notes),
            created_at: self.created_at.clone(),
            updated_at: self.updated_at.clone(),
            created_by: copy_text(&self.created_by),
        }
    }
}

impl Party {
    /// Copies the counterparty.
    pub fn copy(&self) -> (r: Party)
        ensures
            r == *self,
    {
        Party {
            id: self.id.clone(),
            kind: self.kind,
            name: self.name.clone(),
            credit_balance: self.credit_balance,
        }
    }
}

impl InventoryItem {
    /// Copies the catalog item.
    pub fn copy(&self) -> (r: InventoryItem)
        ensures
            r == *self,
    {
        InventoryItem {
            id: self.id.clone(),
            item_name: self.item_name.clone(),
            quantity_in_stock: self.quantity_in_stock,
            low_stock_threshold: self.low_stock_threshold,
        }
    }
}

impl OrderHistory {
    /// Copies the record.
    pub fn copy(&self) -> (r: OrderHistory)
        ensures
            r == *self,
    {
        OrderHistory {
            id: self.id.clone(),
            order_id: self.order_id.clone(),
            date: self.date.clone(),
            event_type: self.event_type.clone(),
            details: self.details.clone(),
            changed_by: copy_text(&self.changed_by),
        }
    }
}

impl SaleHistory {
    /// Copies the record.
    pub fn copy(&self) -> (r: SaleHistory)
        ensures
            r == *self,
    {
        SaleHistory {
            id: self.id.clone(),
            sale_id: self.sale_id.clone(),
            date: self.date.clone(),
            event_type: self.event_type.clone(),
            details: self.details.clone(),
            changed_by: copy_text(&self.changed_by),
        }
    }
}

impl TransactionHistory {
    /// Copies the record.
    pub fn copy(&self) -> (r: TransactionHistory)
        ensures
            r == *self,
    {
        TransactionHistory {
            id: self.id.clone(),
            transaction_id: self.transaction_id.clone(),
            date: self.date.clone(),
            event_type: self.event_type.clone(),
            details: self.details.clone(),
            changed_by: copy_text(&self.changed_by),
        }
    }
}

impl ClientHistoryEvent {
    /// Copies the record.
    pub fn copy(&self) -> (r: ClientHistoryEvent)
        ensures
            r == *self,
    {
        ClientHistoryEvent {
            id: self.id.clone(),
            client_id: self.client_id.clone(),
            date: self.date.clone(),
            event_type: self.event_type.clone(),
            notes: copy_text(&self.notes),
            changed_by: copy_text(&self.changed_by),
            amount: self.amount,
        }
    }
}

impl SupplierHistoryEvent {
    /// Copies the record.
    pub fn copy(&self) -> (r: SupplierHistoryEvent)
        ensures
            r == *self,
    {
        SupplierHistoryEvent {
            id: self.id.clone(),
            supplier_id: self.supplier_id.clone(),
            date: self.date.clone(),
            event_type: self.event_type.clone(),
            notes: copy_text(&self.notes),
            changed_by: copy_text(&self.changed_by),
            amount: self.amount,
        }
    }
}

impl InventoryHistoryEvent {
    /// Copies the record.
    pub fn copy(&self) -> (r: InventoryHistoryEvent)
        ensures
            r == *self,
    {
        InventoryHistoryEvent {
            id: self.id.clone(),
            item_id: self.item_id.clone(),
            date: self.date.clone(),
            event_type: self.event_type.clone(),
            notes: copy_text(&self.notes),
            related_id: copy_text(&self.related_id),
            quantity_change: self.quantity_change,
        }
    }
}

/// The sum of the totals of a run of line items.
pub open spec fn sum_totals(items: Seq<LineItem>) -> int
    decreases items.len(),
{
    if items.len() == 0 {
        0
    } else {
        sum_totals(items.drop_last()) + items.last().total_price
    }
}

/// The sum of the amounts of a run of payments.
pub open spec fn sum_payments(payments: Seq<Payment>) -> int
    decreases payments.len(),
{
    if payments.len() == 0 {
        0
    } else {
        sum_payments(payments.drop_last()) + payments.last().amount
    }
}

/// The quantity that a run of line items holds of one catalog item.
pub open spec fn quantity_of(items: Seq<LineItem>, item_id: Seq<char>) -> int
    decreases items.len(),
{
    if items.len() == 0 {
        0
    } else {
        quantity_of(items.drop_last(), item_id) + if names(items.last().item_id, item_id) {
            items.last().quantity as int
        } else {
            0
        }
    }
}

/// Whether some line item of the run names the catalog item.
pub open spec fn mentions(items: Seq<LineItem>, item_id: Seq<char>) -> bool {
    exists|i: int| 0 <= i < items.len() && names(#[trigger] items[i].item_id, item_id)
}

/// Adds up the totals of the line items; there is no sum where it does not
/// fit the amount type.
pub fn total_of(items: &Vec<LineItem>) -> (r: Option<i64>)
    ensures
        r is Some <==> fits_i64(sum_totals(items@)),
        r is Some ==> r->0 == sum_totals(items@),
{
    let mut acc: i128 = 0;
    let mut i: usize = 0;
    while i < items.len()
        invariant
            i <= items@.len(),
            acc == sum_totals(items@.subrange(0, i as int)),
            -0x8000_0000_0000_0000 * i <= acc <= 0x8000_0000_0000_0000 * i,
        decreases items@.len() - i,
    {
        assert(items@.subrange(0, i + 1).drop_last() =~= items@.subrange(0, i as int));
        acc = acc + items[i].total_price as i128;
        i += 1;
    }
    assert(items@.subrange(0, i as int) =~= items@);
    if acc < -0x8000_0000_0000_0000 || acc > 0x7fff_ffff_ffff_ffff {
        None
    } else {
        Some(acc as i64)
    }
}

/// Adds up the amounts of the payments; there is no sum where it does not
/// fit the amount type.
pub fn paid_of(payments: &Vec<Payment>) -> (r: Option<i64>)
    ensures
        r is Some <==> fits_i64(sum_payments(payments@)),
        r is Some ==> r->0 == sum_payments(payments@),
{
    let mut acc: i128 = 0;
    let mut i: usize = 0;
    while i < payments.len()
        invariant
            i <= payments@.len(),
            acc == sum_payments(payments@.subrange(0, i as int)),
            -0x8000_0000_0000_0000 * i <= acc <= 0x8000_0000_0000_0000 * i,
        decreases payments@.len() - i,
    {
        assert(payments@.subrange(0, i + 1).drop_last() =~= payments@.subrange(0, i as int));
        acc = acc + payments[i].amount as i128;
        i += 1;
    }
    assert(payments@.subrange(0, i as int) =~= payments@);
    if acc < -0x8000_0000_0000_0000 || acc > 0x7fff_ffff_ffff_ffff {
        None
    } else {
        Some(acc as i64)
    }
}

/// Copies a run of line items.
pub fn copy_lines(items: &Vec<LineItem>) -> (r: Vec<LineItem>)
    ensures
        r@ == items@,
{
    let mut r: Vec<LineItem> = Vec::new();
    let mut i: usize = 0;
    while i < items.len()
        invariant
            i <= items@.len(),
            r@ == items@.subrange(0, i as int),
        decreases items@.len() - i,
    {
        r.push(items[i].copy());
        assert(items@.subrange(0, i + 1) =~= items@.subrange(0, i as int).push(items@[i as int]));
        i += 1;
    }
    assert(items@.subrange(0, i as int) =~= items@);
    r
}

} // verus!
