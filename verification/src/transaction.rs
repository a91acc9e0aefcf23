//! Operations on generic transactions.

use vstd::prelude::*;
use crate::error::LedgerError;
use crate::kinds::{DocumentKind, DocumentStatus, TransactionType};
use crate::ledger::Ledger;
use crate::payments::latest_first;
use crate::queries::{newest_first, selected};
use crate::records::{Document, DocumentWithDetails, LineItem, Payment};

verus! {

/// The header of a generic transaction.
pub type Transaction = Document;

/// A line item of a generic transaction.
pub type TransactionItem = LineItem;

/// A payment made against a generic transaction.
pub type TransactionPayment = Payment;

/// A generic transaction with its line items, its payments and the name of its
/// counterparty.
pub type TransactionWithDetails = DocumentWithDetails;

/// Creates a generic transaction, numbering it for the current year where its
/// header gives no number.  A header of another kind is refused.
pub fn create_transaction(ledger: &mut Ledger, transaction: Transaction) -> (r: Result<Transaction, LedgerError>)
    requires
        old(ledger).wf(),
    ensures
        final(ledger).wf(),
        transaction.kind != DocumentKind::Transaction ==> r == Err::<Transaction, LedgerError>(
            LedgerError::InvalidDocument,
        ) && *final(ledger) == *old(ledger),
        transaction.kind == DocumentKind::Transaction ==> exists|year: Seq<char>|
            #[trigger] old(ledger).creates(transaction, year, *final(ledger), r),
{
    if transaction.kind != DocumentKind::Transaction {
        return Err(LedgerError::InvalidDocument);
    }
    ledger.create(transaction)
}

/// Lists the generic transactions, of one type only and of one status only
/// where these are given, the latest created first.
pub fn get_transactions(
    ledger: &Ledger,
    type_filter: Option<TransactionType>,
    status_filter: Option<DocumentStatus>,
) -> (r: Vec<Transaction>)
    ensures
        r@.to_multiset() == selected(
            ledger.documents@,
            DocumentKind::Transaction,
            type_filter,
            status_filter,
        ).to_multiset(),
        newest_first(r@),
{
    ledger.documents_of(DocumentKind::Transaction, type_filter, status_filter)
}

/// Reads a generic transaction with its line items, its payments and the name
/// of its counterparty.
pub fn get_transaction_by_id(ledger: &Ledger, transaction_id: &String) -> (r: Option<TransactionWithDetails>)
    requires
        ledger.wf(),
    ensures
        r is Some <==> ledger.has_document(DocumentKind::Transaction, transaction_id@),
        r is Some ==> {
            let e = ledger.documents@[ledger.document_index(DocumentKind::Transaction, transaction_id@)];
            &&& r->0.document == e.doc
            &&& r->0.items@ == e.items@
            &&& r->0.payments@ == e.payments@
            &&& r->0.party_name == ledger.parties@[ledger.party_index(
                e.doc.party_kind,
                e.doc.party_id@,
            )].name
        },
{
    ledger.document_with_details(DocumentKind::Transaction, transaction_id)
}

/// Changes the counterparty, the status, the notes and the time of update of
/// a generic transaction.  A header of another kind is refused.
pub fn update_transaction(ledger: &mut Ledger, transaction: Transaction) -> (r: Result<(), LedgerError>)
    requires
        old(ledger).wf(),
    ensures
        final(ledger).wf(),
        transaction.kind != DocumentKind::Transaction ==> r == Err::<(), LedgerError>(
            LedgerError::InvalidDocument,
        ) && *final(ledger) == *old(ledger),
        transaction.kind == DocumentKind::Transaction ==> old(ledger).updates_header(
            transaction,
            *final(ledger),
            r,
        ),
{
    if transaction.kind != DocumentKind::Transaction {
        return Err(LedgerError::InvalidDocument);
    }
    ledger.update_header(transaction)
}

/// Adds a line item to a generic transaction.
pub fn add_transaction_item(ledger: &mut Ledger, item: TransactionItem) -> (r: Result<(), LedgerError>)
    requires
        old(ledger).wf(),
    ensures
        final(ledger).wf(),
        old(ledger).adds_item(DocumentKind::Transaction, item, *final(ledger), r),
{
    ledger.add_item(DocumentKind::Transaction, item)
}

/// Puts a line item of a generic transaction in the place of the one that has its
/// identifier.
pub fn update_transaction_item(ledger: &mut Ledger, item: TransactionItem) -> (r: Result<(), LedgerError>)
    requires
        old(ledger).wf(),
    ensures
        final(ledger).wf(),
        old(ledger).updates_item(DocumentKind::Transaction, item, *final(ledger), r),
{
    ledger.update_item(DocumentKind::Transaction, item)
}

/// Removes a line item from a generic transaction.
pub fn remove_transaction_item(ledger: &mut Ledger, item_id: &String, transaction_id: &String) -> (r: Result<
    (),
    LedgerError,
>)
    requires
        old(ledger).wf(),
    ensures
        final(ledger).wf(),
        old(ledger).removes_item(DocumentKind::Transaction, item_id@, transaction_id@, *final(ledger), r),
{
    ledger.remove_item(DocumentKind::Transaction, item_id, transaction_id)
}

/// Adds a payment to a generic transaction.
pub fn add_transaction_payment(ledger: &mut Ledger, payment: TransactionPayment) -> (r: Result<(), LedgerError>)
    requires
        old(ledger).wf(),
    ensures
        final(ledger).wf(),
        old(ledger).adds_payment(DocumentKind::Transaction, payment, *final(ledger), r),
{
    ledger.add_payment(DocumentKind::Transaction, payment)
}

/// Reads the payments of a generic transaction, the latest first.
pub fn get_transaction_payments(ledger: &Ledger, transaction_id: &String) -> (r: Vec<TransactionPayment>)
    requires
        ledger.wf(),
    ensures
        ledger.has_document(DocumentKind::Transaction, transaction_id@) ==> r@.to_multiset()
            == ledger.documents@[ledger.document_index(
            DocumentKind::Transaction,
            transaction_id@,
        )].payments@.to_multiset(),
        !ledger.has_document(DocumentKind::Transaction, transaction_id@) ==> r@.len() == 0,
        latest_first(r@),
{
    ledger.payments_of(DocumentKind::Transaction, transaction_id)
}

/// Completes a generic transaction: applies its line items to stock and its
/// total to the balance of its counterparty, once.
pub fn complete_transaction(ledger: &mut Ledger, transaction_id: &String) -> (r: Result<(), LedgerError>)
    requires
        old(ledger).wf(),
    ensures
        final(ledger).wf(),
        old(ledger).completes(DocumentKind::Transaction, transaction_id@, *final(ledger), r),
{
    ledger.complete(DocumentKind::Transaction, transaction_id)
}

/// Submits a generic transaction with its line items and payments in one
/// step, all or nothing.  A header of another kind is refused.
pub fn submit_transaction(
    ledger: &mut Ledger,
    transaction: Transaction,
    items: Vec<TransactionItem>,
    payments: Vec<TransactionPayment>,
) -> (r: Result<(), LedgerError>)
    requires
        old(ledger).wf(),
    ensures
        final(ledger).wf(),
        transaction.kind != DocumentKind::Transaction ==> r == Err::<(), LedgerError>(
            LedgerError::InvalidDocument,
        ) && *final(ledger) == *old(ledger),
        transaction.kind == DocumentKind::Transaction ==> exists|year: Seq<char>| #[trigger]
            old(ledger).submits(transaction, items@, payments@, year, *final(ledger), r),
{
    if transaction.kind != DocumentKind::Transaction {
        return Err(LedgerError::InvalidDocument);
    }
    ledger.submit(transaction, items, payments)
}

} // verus!
