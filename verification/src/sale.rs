//! Operations on customer sales.

use vstd::prelude::*;
use crate::error::LedgerError;
use crate::kinds::{DocumentKind, DocumentStatus, TransactionType};
use crate::ledger::Ledger;
use crate::payments::latest_first;
use crate::queries::{newest_first, selected};
use crate::records::{Document, DocumentWithDetails, LineItem, Payment};

verus! {

/// The header of a customer sale.
pub type Sale = Document;

/// A line item of a customer sale.
pub type SaleItem = LineItem;

/// A payment made against a customer sale.
pub type SalePayment = Payment;

/// A customer sale with its line items, its payments and the name of its
/// counterparty.
pub type SaleWithDetails = DocumentWithDetails;

/// Creates a customer sale, numbering it for the current year where its
/// header gives no number.  A header of another kind is refused.
pub fn create_sale(ledger: &mut Ledger, sale: Sale) -> (r: Result<Sale, LedgerError>)
    requires
        old(ledger).wf(),
    ensures
        final(ledger).wf(),
        sale.kind != DocumentKind::CustomerSale ==> r == Err::<Sale, LedgerError>(
            LedgerError::InvalidDocument,
        ) && *final(ledger) == *old(ledger),
        sale.kind == DocumentKind::CustomerSale ==> exists|year: Seq<char>|
            #[trigger] old(ledger).creates(sale, year, *final(ledger), r),
{
    if sale.kind != DocumentKind::CustomerSale {
        return Err(LedgerError::InvalidDocument);
    }
    ledger.create(sale)
}

/// Lists the customer sales, of one status only where one is given, the latest
/// created first.
pub fn get_sales(ledger: &Ledger, status_filter: Option<DocumentStatus>) -> (r: Vec<Sale>)
    ensures
        r@.to_multiset() == selected(
            ledger.documents@,
            DocumentKind::CustomerSale,
            None::<TransactionType>,
            status_filter,
        ).to_multiset(),
        newest_first(r@),
{
    ledger.documents_of(DocumentKind::CustomerSale, None::<TransactionType>, status_filter)
}

/// Reads a customer sale with its line items, its payments and the name
/// of its counterparty.
pub fn get_sale_by_id(ledger: &Ledger, sale_id: &String) -> (r: Option<SaleWithDetails>)
    requires
        ledger.wf(),
    ensures
        r is Some <==> ledger.has_document(DocumentKind::CustomerSale, sale_id@),
        r is Some ==> {
            let e = ledger.documents@[ledger.document_index(DocumentKind::CustomerSale, sale_id@)];
            &&& r->0.document == e.doc
            &&& r->0.items@ == e.items@
            &&& r->0.payments@ == e.payments@
            &&& r->0.party_name == ledger.parties@[ledger.party_index(
                e.doc.party_kind,
                e.doc.party_id@,
            )].name
        },
{
    ledger.document_with_details(DocumentKind::CustomerSale, sale_id)
}

/// Changes the counterparty, the status, the notes and the time of update of
/// a customer sale.  A header of another kind is refused.
pub fn update_sale(ledger: &mut Ledger, sale: Sale) -> (r: Result<(), LedgerError>)
    requires
        old(ledger).wf(),
    ensures
        final(ledger).wf(),
        sale.kind != DocumentKind::CustomerSale ==> r == Err::<(), LedgerError>(
            LedgerError::InvalidDocument,
        ) && *final(ledger) == *old(ledger),
        sale.kind == DocumentKind::CustomerSale ==> old(ledger).updates_header(
            sale,
            *final(ledger),
            r,
        ),
{
    if sale.kind != DocumentKind::CustomerSale {
        return Err(LedgerError::InvalidDocument);
    }
    ledger.update_header(sale)
}

/// Adds a line item to a customer sale.
pub fn add_sale_item(ledger: &mut Ledger, item: SaleItem) -> (r: Result<(), LedgerError>)
    requires
        old(ledger).wf(),
    ensures
        final(ledger).wf(),
        old(ledger).adds_item(DocumentKind::CustomerSale, item, *final(ledger), r),
{
    ledger.add_item(DocumentKind::CustomerSale, item)
}

/// Puts a line item of a customer sale in the place of the one that has its
/// identifier.
pub fn update_sale_item(ledger: &mut Ledger, item: SaleItem) -> (r: Result<(), LedgerError>)
    requires
        old(ledger).wf(),
    ensures
        final(ledger).wf(),
        old(ledger).updates_item(DocumentKind::CustomerSale, item, *final(ledger), r),
{
    ledger.update_item(DocumentKind::CustomerSale, item)
}

/// Removes a line item from a customer sale.
pub fn remove_sale_item(ledger: &mut Ledger, item_id: &String, sale_id: &String) -> (r: Result<
    (),
    LedgerError,
>)
    requires
        old(ledger).wf(),
    ensures
        final(ledger).wf(),
        old(ledger).removes_item(DocumentKind::CustomerSale, item_id@, sale_id@, *final(ledger), r),
{
    ledger.remove_item(DocumentKind::CustomerSale, item_id, sale_id)
}

/// Adds a payment to a customer sale.
pub fn add_sale_payment(ledger: &mut Ledger, payment: SalePayment) -> (r: Result<(), LedgerError>)
    requires
        old(ledger).wf(),
    ensures
        final(ledger).wf(),
        old(ledger).adds_payment(DocumentKind::CustomerSale, payment, *final(ledger), r),
{
    ledger.add_payment(DocumentKind::CustomerSale, payment)
}

/// Reads the payments of a customer sale, the latest first.
pub fn get_sale_payments(ledger: &Ledger, sale_id: &String) -> (r: Vec<SalePayment>)
    requires
        ledger.wf(),
    ensures
        ledger.has_document(DocumentKind::CustomerSale, sale_id@) ==> r@.to_multiset()
            == ledger.documents@[ledger.document_index(
            DocumentKind::CustomerSale,
            sale_id@,
        )].payments@.to_multiset(),
        !ledger.has_document(DocumentKind::CustomerSale, sale_id@) ==> r@.len() == 0,
        latest_first(r@),
{
    ledger.payments_of(DocumentKind::CustomerSale, sale_id)
}

/// Completes a customer sale: applies its line items to stock and its
/// total to the balance of its counterparty, once.
pub fn complete_sale(ledger: &mut Ledger, sale_id: &String) -> (r: Result<(), LedgerError>)
    requires
        old(ledger).wf(),
    ensures
        final(ledger).wf(),
        old(ledger).completes(DocumentKind::CustomerSale, sale_id@, *final(ledger), r),
{
    ledger.complete(DocumentKind::CustomerSale, sale_id)
}

} // verus!
