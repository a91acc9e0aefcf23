//! What holds of the engine as a whole, proved from the contracts of its
//! operations.

use vstd::prelude::*;
use crate::error::LedgerError;
use crate::kinds::{DocumentKind, DocumentStatus, PartyKind};
use crate::ledger::Ledger;
use crate::money::{payment_status_of, HISTORY_THRESHOLD};
use crate::records::{level, sum_payments, sum_totals, Document};

verus! {

/// In a well-formed ledger the total of every document is the sum of the
/// totals of its line items, its paid amount is the sum of its payments, and
/// its payment status is the one derived from the two.  Every operation of the
/// engine takes a well-formed ledger to a well-formed ledger, so this holds
/// after any sequence of them.
pub proof fn totals_are_consistent(ledger: Ledger, i: int)
    requires
        ledger.wf(),
        0 <= i < ledger.documents@.len(),
    ensures
        ledger.documents@[i].doc.total_amount == sum_totals(ledger.documents@[i].items@),
        ledger.documents@[i].doc.paid_amount == sum_payments(ledger.documents@[i].payments@),
        ledger.documents@[i].doc.payment_status == payment_status_of(
            ledger.documents@[i].doc.paid_amount as int,
            ledger.documents@[i].doc.total_amount as int,
        ),
{
    assert(ledger.documents@[i].wf());
}

/// Completing a document a second time changes nothing: the ledger after the
/// second completion is the ledger after the first, stock and balances
/// included, and the second completion ends as the first did.
pub proof fn completion_is_idempotent(
    before: Ledger,
    once: Ledger,
    twice: Ledger,
    kind: DocumentKind,
    id: Seq<char>,
    first: Result<(), LedgerError>,
    second: Result<(), LedgerError>,
)
    requires
        before.wf(),
        once.wf(),
        before.completes(kind, id, once, first),
        once.completes(kind, id, twice, second),
    ensures
        second == first,
        twice == once,
{
    if before.has_document(kind, id) {
        let i = before.document_index(kind, id);
        assert(before.is_document(i, kind, id));
        if first is Ok {
            assert(once.is_document(i, kind, id));
            once.document_index_is(i, kind, id);
            assert(once.documents@[i].doc.status == DocumentStatus::Completed);
        }
    }
}

/// Completing a draft document and then taking it back to a status other
/// than completed, with its counterparty unchanged, restores the stock of
/// every catalog item and the balance of every counterparty to what they were
/// before the completion, none counting as zero.
pub proof fn reversal_restores(
    before: Ledger,
    completed: Ledger,
    reverted: Ledger,
    kind: DocumentKind,
    id: Seq<char>,
    header: Document,
    first: Result<(), LedgerError>,
    second: Result<(), LedgerError>,
)
    requires
        before.wf(),
        completed.wf(),
        before.has_document(kind, id),
        before.documents@[before.document_index(kind, id)].doc.status
            != DocumentStatus::Completed,
        before.completes(kind, id, completed, first),
        first is Ok,
        header.kind == kind,
        header.id@ == id,
        header.status != DocumentStatus::Completed,
        header.party_id@ == before.documents@[before.document_index(kind, id)].doc.party_id@,
        completed.updates_header(header, reverted, second),
        second is Ok,
    ensures
        reverted.inventory@.len() == before.inventory@.len(),
        forall|c: int|
            0 <= c < before.inventory@.len() ==> (#[trigger] reverted.inventory@[c]).id
                == before.inventory@[c].id && level(reverted.inventory@[c].quantity_in_stock)
                == level(before.inventory@[c].quantity_in_stock),
        reverted.parties@.len() == before.parties@.len(),
        forall|p: int|
            0 <= p < before.parties@.len() ==> (#[trigger] reverted.parties@[p]).id
                == before.parties@[p].id && reverted.parties@[p].kind == before.parties@[p].kind
                && level(reverted.parties@[p].credit_balance) == level(
                before.parties@[p].credit_balance,
            ),
{
    let i = before.document_index(kind, id);
    assert(before.is_document(i, kind, id));
    assert(before.completion_fits(i));
    assert(before.completion_applied(completed, i));
    assert(completed.is_document(i, kind, id));
    completed.document_index_is(i, kind, id);
    let e = before.documents@[i];
    let f = completed.documents@[i];
    assert(f.items == e.items);
    assert(completed.has_party(f.doc.party_kind, header.party_id@));
    assert(completed.header_change_fits(i, header));
    assert(completed.header_change_applied(reverted, i, header));
    let c = completed.header_change(i, header);
    assert(c.was && !c.now && c.leave && !c.join);
    assert(crate::records::quantity_of(crate::items::no_lines(), id) == 0);
    assert forall|k: int| 0 <= k < before.inventory@.len() implies (
    #[trigger] reverted.inventory@[k]).id == before.inventory@[k].id && level(
        reverted.inventory@[k].quantity_in_stock,
    ) == level(before.inventory@[k].quantity_in_stock) by {
        let item = before.inventory@[k];
        let mid = completed.inventory@[k];
        assert(mid.id == item.id);
        assert(crate::records::quantity_of(crate::items::no_lines(), item.id@) == 0);
        assert(crate::effects::stock_fits(
            before.inventory@,
            crate::items::no_lines(),
            e.items@,
            crate::kinds::stock_sign(e.doc.transaction_type),
        ));
        assert(crate::money::fits_i64(
            crate::effects::new_stock(
                item,
                crate::items::no_lines(),
                e.items@,
                crate::kinds::stock_sign(e.doc.transaction_type),
            ),
        ));
        assert(!crate::records::mentions(crate::items::no_lines(), item.id@));
        if !crate::records::mentions(e.items@, item.id@) {
            assert(mid == item);
        }
    }
    assert forall|p: int| 0 <= p < before.parties@.len() implies (#[trigger] reverted.parties@[p]).id
        == before.parties@[p].id && reverted.parties@[p].kind == before.parties@[p].kind && level(
        reverted.parties@[p].credit_balance,
    ) == level(before.parties@[p].credit_balance) by {
        let party = before.parties@[p];
        let mid = completed.parties@[p];
        if party.kind == e.doc.party_kind && party.id@ == e.doc.party_id@ {
            before.party_index_is(p, e.doc.party_kind, e.doc.party_id@);
        }
    }
}

/// An adjustment of a balance whose magnitude is below a thousandth of the
/// currency unit leaves no record in any counterparty's trail, and the
/// balance of the counterparty moves by it all the same.
pub proof fn small_adjustment_leaves_no_record(
    before: Ledger,
    after: Ledger,
    kind: PartyKind,
    party_id: Seq<char>,
    amount: int,
    event_type: Seq<char>,
    notes: Seq<char>,
    changed_by: Option<String>,
    r: Result<(), LedgerError>,
)
    requires
        before.wf(),
        -HISTORY_THRESHOLD < amount < HISTORY_THRESHOLD,
        before.adjusts_balance(kind, party_id, amount, event_type, notes, changed_by, after, r),
        r is Ok,
    ensures
        after.client_history@ == before.client_history@,
        after.supplier_history@ == before.supplier_history@,
        before.has_party(kind, party_id),
        level(after.parties@[before.party_index(kind, party_id)].credit_balance) == level(
            before.parties@[before.party_index(kind, party_id)].credit_balance,
        ) + amount,
{
    let p = before.party_index(kind, party_id);
    assert(before.is_party(p, kind, party_id));
    assert(after.client_history@ =~= before.client_history@) by {
        assert(after.client_history@.subrange(0, before.client_history@.len() as int)
            =~= after.client_history@);
    }
    assert(after.supplier_history@ =~= before.supplier_history@) by {
        assert(after.supplier_history@.subrange(0, before.supplier_history@.len() as int)
            =~= after.supplier_history@);
    }
}

/// A document that has been created bears a number that no document of its
/// kind bore before, whether the number was given or generated.
pub proof fn created_number_is_new(
    before: Ledger,
    after: Ledger,
    doc: Document,
    year: Seq<char>,
    r: Result<Document, LedgerError>,
)
    requires
        before.wf(),
        before.creates(doc, year, after, r),
        r is Ok,
    ensures
        !before.number_taken(doc.kind, r->Ok_0.number@),
        r->Ok_0.kind == doc.kind,
        after.documents@.len() == before.documents@.len() + 1,
        after.documents@.last().doc == r->Ok_0,
{
    if doc.number@.len() > 0 {
        assert(before.creates_numbered(doc, doc.number@, after, r));
    } else {
        let n = choose|n: Seq<char>|
            #![trigger before.creates_numbered(doc, n, after, r)]
            before.is_next_number(
                doc.kind,
                crate::numbering::number_stem(doc.kind, doc.transaction_type, year),
                n,
            ) && before.creates_numbered(doc, n, after, r);
        assert(before.creates_numbered(doc, n, after, r));
    }
}

} // verus!
