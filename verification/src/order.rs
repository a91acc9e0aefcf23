//! Operations on purchase orders.

use vstd::prelude::*;
use crate::error::LedgerError;
use crate::kinds::{DocumentKind, DocumentStatus, TransactionType};
use crate::ledger::Ledger;
use crate::payments::latest_first;
use crate::queries::{newest_first, selected};
use crate::records::{Document, DocumentWithDetails, LineItem, Payment};

verus! {

/// The header of a purchase order.
pub type Order = Document;

/// A line item of a purchase order.
pub type OrderItem = LineItem;

/// A payment made against a purchase order.
pub type OrderPayment = Payment;

/// A purchase order with its line items, its payments and the name of its
/// counterparty.
pub type OrderWithDetails = DocumentWithDetails;

/// Creates a purchase order, numbering it for the current year where its
/// header gives no number.  A header of another kind is refused.
pub fn create_order(ledger: &mut Ledger, order: Order) -> (r: Result<Order, LedgerError>)
    requires
        old(ledger).wf(),
    ensures
        final(ledger).wf(),
        order.kind != DocumentKind::PurchaseOrder ==> r == Err::<Order, LedgerError>(
            LedgerError::InvalidDocument,
        ) && *final(ledger) == *old(ledger),
        order.kind == DocumentKind::PurchaseOrder ==> exists|year: Seq<char>|
            #[trigger] old(ledger).creates(order, year, *final(ledger), r),
{
    if order.kind != DocumentKind::PurchaseOrder {
        return Err(LedgerError::InvalidDocument);
    }
    ledger.create(order)
}

/// Lists the purchase orders, of one status only where one is given, the latest
/// created first.
pub fn get_orders(ledger: &Ledger, status_filter: Option<DocumentStatus>) -> (r: Vec<Order>)
    ensures
        r@.to_multiset() == selected(
            ledger.documents@,
            DocumentKind::PurchaseOrder,
            None::<TransactionType>,
            status_filter,
        ).to_multiset(),
        newest_first(r@),
{
    ledger.documents_of(DocumentKind::PurchaseOrder, None::<TransactionType>, status_filter)
}

/// Reads a purchase order with its line items, its payments and the name
/// of its counterparty.
pub fn get_order_by_id(ledger: &Ledger, order_id: &String) -> (r: Option<OrderWithDetails>)
    requires
        ledger.wf(),
    ensures
        r is Some <==> ledger.has_document(DocumentKind::PurchaseOrder, order_id@),
        r is Some ==> {
            let e = ledger.documents@[ledger.document_index(DocumentKind::PurchaseOrder, order_id@)];
            &&& r->0.document == e.doc
            &&& r->0.items@ == e.items@
            &&& r->0.payments@ == e.payments@
            &&& r->0.party_name == ledger.parties@[ledger.party_index(
                e.doc.party_kind,
                e.doc.party_id@,
            )].name
        },
{
    ledger.document_with_details(DocumentKind::PurchaseOrder, order_id)
}

/// Changes the counterparty, the status, the notes and the time of update of
/// a purchase order.  A header of another kind is refused.
pub fn update_order(ledger: &mut Ledger, order: Order) -> (r: Result<(), LedgerError>)
    requires
        old(ledger).wf(),
    ensures
        final(ledger).wf(),
        order.kind != DocumentKind::PurchaseOrder ==> r == Err::<(), LedgerError>(
            LedgerError::InvalidDocument,
        ) && *final(ledger) == *old(ledger),
        order.kind == DocumentKind::PurchaseOrder ==> old(ledger).updates_header(
            order,
            *final(ledger),
            r,
        ),
{
    if order.kind != DocumentKind::PurchaseOrder {
        return Err(LedgerError::InvalidDocument);
    }
    ledger.update_header(order)
}

/// Adds a line item to a purchase order.
pub fn add_order_item(ledger: &mut Ledger, item: OrderItem) -> (r: Result<(), LedgerError>)
    requires
        old(ledger).wf(),
    ensures
        final(ledger).wf(),
        old(ledger).adds_item(DocumentKind::PurchaseOrder, item, *final(ledger), r),
{
    ledger.add_item(DocumentKind::PurchaseOrder, item)
}

/// Puts a line item of a purchase order in the place of the one that has its
/// identifier.
pub fn update_order_item(ledger: &mut Ledger, item: OrderItem) -> (r: Result<(), LedgerError>)
    requires
        old(ledger).wf(),
    ensures
        final(ledger).wf(),
        old(ledger).updates_item(DocumentKind::PurchaseOrder, item, *final(ledger), r),
{
    ledger.update_item(DocumentKind::PurchaseOrder, item)
}

/// Removes a line item from a purchase order.
pub fn remove_order_item(ledger: &mut Ledger, item_id: &String, order_id: &String) -> (r: Result<
    (),
    LedgerError,
>)
    requires
        old(ledger).wf(),
    ensures
        final(ledger).wf(),
        old(ledger).removes_item(DocumentKind::PurchaseOrder, item_id@, order_id@, *final(ledger), r),
{
    ledger.remove_item(DocumentKind::PurchaseOrder, item_id, order_id)
}

/// Adds a payment to a purchase order.
pub fn add_order_payment(ledger: &mut Ledger, payment: OrderPayment) -> (r: Result<(), LedgerError>)
    requires
        old(ledger).wf(),
    ensures
        final(ledger).wf(),
        old(ledger).adds_payment(DocumentKind::PurchaseOrder, payment, *final(ledger), r),
{
    ledger.add_payment(DocumentKind::PurchaseOrder, payment)
}

/// Reads the payments of a purchase order, the latest first.
pub fn get_order_payments(ledger: &Ledger, order_id: &String) -> (r: Vec<OrderPayment>)
    requires
        ledger.wf(),
    ensures
        ledger.has_document(DocumentKind::PurchaseOrder, order_id@) ==> r@.to_multiset()
            == ledger.documents@[ledger.document_index(
            DocumentKind::PurchaseOrder,
            order_id@,
        )].payments@.to_multiset(),
        !ledger.has_document(DocumentKind::PurchaseOrder, order_id@) ==> r@.len() == 0,
        latest_first(r@),
{
    ledger.payments_of(DocumentKind::PurchaseOrder, order_id)
}

/// Completes a purchase order: applies its line items to stock and its
/// total to the balance of its counterparty, once.
pub fn complete_order(ledger: &mut Ledger, order_id: &String) -> (r: Result<(), LedgerError>)
    requires
        old(ledger).wf(),
    ensures
        final(ledger).wf(),
        old(ledger).completes(DocumentKind::PurchaseOrder, order_id@, *final(ledger), r),
{
    ledger.complete(DocumentKind::PurchaseOrder, order_id)
}

} // verus!
