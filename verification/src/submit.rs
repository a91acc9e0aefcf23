//! Submitting a document in one step: creating it, adding its line items and
//! its payments, and completing it if it is to be completed, all or nothing.

use vstd::prelude::*;
use crate::error::LedgerError;
use crate::kinds::{DocumentKind, DocumentStatus};
use crate::ledger::Ledger;
use crate::records::{Document, LineItem, Payment};
use crate::stamps::current_year;

verus! {

/// The header under which a submitted document is created: the given one,
/// as a draft where it is to be completed.
pub open spec fn draft_of(doc: Document) -> Document {
    Document {
        status: if doc.status == DocumentStatus::Completed {
            DocumentStatus::Draft
        } else {
            doc.status
        },
        ..doc
    }
}

/// Whether `end` is `start` after the line items have been added to it one
/// after the other, each with success.
pub open spec fn items_added(
    start: Ledger,
    kind: DocumentKind,
    items: Seq<LineItem>,
    end: Ledger,
) -> bool
    decreases items.len(),
{
    if items.len() == 0 {
        end == start
    } else {
        exists|mid: Ledger|
            #![trigger mid.adds_item(kind, items.last(), end, Ok(()))]
            items_added(start, kind, items.drop_last(), mid) && mid.adds_item(
                kind,
                items.last(),
                end,
                Ok(()),
            )
    }
}

/// Whether `end` is `start` after the payments have been added to it one
/// after the other, each with success.
pub open spec fn payments_added(
    start: Ledger,
    kind: DocumentKind,
    payments: Seq<Payment>,
    end: Ledger,
) -> bool
    decreases payments.len(),
{
    if payments.len() == 0 {
        end == start
    } else {
        exists|mid: Ledger|
            #![trigger mid.adds_payment(kind, payments.last(), end, Ok(()))]
            payments_added(start, kind, payments.drop_last(), mid) && mid.adds_payment(
                kind,
                payments.last(),
                end,
                Ok(()),
            )
    }
}

/// Whether `end` is `start` after the document has been created under the
/// draft header and the line items have been added to it.
pub open spec fn items_reached(
    start: Ledger,
    draft: Document,
    year: Seq<char>,
    items: Seq<LineItem>,
    end: Ledger,
) -> bool {
    exists|created: Ledger, stored: Document|
        #![trigger start.creates(draft, year, created, Ok(stored))]
        start.creates(draft, year, created, Ok(stored)) && items_added(
            created,
            draft.kind,
            items,
            end,
        )
}

/// Whether `end` is `start` after the document has been created under the
/// draft header, all line items have been added to it, and then the payments.
pub open spec fn payments_reached(
    start: Ledger,
    draft: Document,
    year: Seq<char>,
    items: Seq<LineItem>,
    payments: Seq<Payment>,
    end: Ledger,
) -> bool {
    exists|with_items: Ledger|
        #![trigger payments_added(with_items, draft.kind, payments, end)]
        items_reached(start, draft, year, items, with_items) && payments_added(
            with_items,
            draft.kind,
            payments,
            end,
        )
}

/// Whether the line item at place `n` is refused with `e` after the document
/// has been created and the line items before it have been added, `mid`
/// being the ledger at that point.
pub open spec fn item_refused(
    start: Ledger,
    draft: Document,
    year: Seq<char>,
    items: Seq<LineItem>,
    n: int,
    mid: Ledger,
    e: LedgerError,
) -> bool {
    &&& 0 <= n < items.len()
    &&& items_reached(start, draft, year, items.subrange(0, n), mid)
    &&& mid.adds_item(draft.kind, items[n], mid, Err(e))
}

/// Whether the payment at place `n` is refused with `e` after the document
/// has been created, its line items have been added, and the payments
/// before it, `mid` being the ledger at that point.
pub open spec fn payment_refused(
    start: Ledger,
    draft: Document,
    year: Seq<char>,
    items: Seq<LineItem>,
    payments: Seq<Payment>,
    n: int,
    mid: Ledger,
    e: LedgerError,
) -> bool {
    &&& 0 <= n < payments.len()
    &&& payments_reached(start, draft, year, items, payments.subrange(0, n), mid)
    &&& mid.adds_payment(draft.kind, payments[n], mid, Err(e))
}

/// Whether the completion is refused with `e` after the document has been
/// created and its line items and payments have been added, `mid` being the
/// ledger at that point.
pub open spec fn completion_refused(
    start: Ledger,
    draft: Document,
    year: Seq<char>,
    items: Seq<LineItem>,
    payments: Seq<Payment>,
    mid: Ledger,
    e: LedgerError,
) -> bool {
    &&& payments_reached(start, draft, year, items, payments, mid)
    &&& mid.completes(draft.kind, draft.id@, mid, Err(e))
}

impl Ledger {
    /// Whether a submission is refused with `e` at one of its steps: at the
    /// creation, at a line item, at a payment, or at the completion.
    pub open spec fn submit_refused(
        self,
        doc: Document,
        items: Seq<LineItem>,
        payments: Seq<Payment>,
        year: Seq<char>,
        e: LedgerError,
    ) -> bool {
        let draft = draft_of(doc);
        ||| self.creates(draft, year, self, Err(e))
        ||| exists|n: int, mid: Ledger| #[trigger] item_refused(self, draft, year, items, n, mid, e)
        ||| exists|n: int, mid: Ledger| #[trigger]
            payment_refused(self, draft, year, items, payments, n, mid, e)
        ||| doc.status == DocumentStatus::Completed && exists|mid: Ledger| #[trigger]
            completion_refused(self, draft, year, items, payments, mid, e)
    }

    /// What submitting a document in a given year does.  It refuses a line
    /// item and a payment that names another document, before anything
    /// else.  Otherwise it creates the document as a draft (or in the status
    /// given, where that is not `Completed`), adds the line items in their
    /// order, adds the payments in their order, and completes the document
    /// where the header says `Completed`.  Where one of these steps is
    /// refused, the submission is refused with the error of that step, and
    /// the ledger holds what it held before.
    pub open spec fn submits(
        self,
        doc: Document,
        items: Seq<LineItem>,
        payments: Seq<Payment>,
        year: Seq<char>,
        post: Ledger,
        r: Result<(), LedgerError>,
    ) -> bool {
        let draft = draft_of(doc);
        if exists|n: int| 0 <= n < items.len() && (#[trigger] items[n]).document_id@ != doc.id@ {
            r == Err::<(), LedgerError>(LedgerError::InvalidItem) && post == self
        } else if exists|n: int|
            0 <= n < payments.len() && (#[trigger] payments[n]).document_id@ != doc.id@ {
            r == Err::<(), LedgerError>(LedgerError::InvalidPayment) && post == self
        } else {
            match r {
                Ok(_) => if doc.status == DocumentStatus::Completed {
                    exists|mid: Ledger|
                        #![trigger mid.completes(doc.kind, doc.id@, post, r)]
                        payments_reached(self, draft, year, items, payments, mid) && mid.completes(
                            doc.kind,
                            doc.id@,
                            post,
                            r,
                        )
                } else {
                    payments_reached(self, draft, year, items, payments, post)
                },
                Err(e) => post.same_contents(self) && self.submit_refused(
                    doc,
                    items,
                    payments,
                    year,
                    e,
                ),
            }
        }
    }

    /// Submits a document with its line items and payments, numbering it for
    /// the given year where its header gives no number.
    pub fn submit_in_year(
        &mut self,
        doc: Document,
        items: Vec<LineItem>,
        payments: Vec<Payment>,
        year: &String,
    ) -> (r: Result<(), LedgerError>)
        requires
            old(self).wf(),
        ensures
            final(self).wf(),
            old(self).submits(doc, items@, payments@, year@, *final(self), r),
    {
        let mut k: usize = 0;
        while k < items.len()
            invariant
                k <= items@.len(),
                *self == *old(self),
                self.wf(),
                forall|n: int| 0 <= n < k ==> (#[trigger] items@[n]).document_id@ == doc.id@,
            decreases items@.len() - k,
        {
            if !(items[k].document_id == doc.id) {
                return Err(LedgerError::InvalidItem);
            }
            k += 1;
        }
        let mut k: usize = 0;
        while k < payments.len()
            invariant
                k <= payments@.len(),
                *self == *old(self),
                self.wf(),
                forall|n: int|
                    0 <= n < items@.len() ==> (#[trigger] items@[n]).document_id@ == doc.id@,
                forall|n: int| 0 <= n < k ==> (#[trigger] payments@[n]).document_id@ == doc.id@,
            decreases payments@.len() - k,
        {
            if !(payments[k].document_id == doc.id) {
                return Err(LedgerError::InvalidPayment);
            }
            k += 1;
        }
        let ghost pre = *self;
        let ghost draft = draft_of(doc);
        let kind = doc.kind;
        let id = doc.id.clone();
        let wanted = doc.status;
        let backup = self.copy();
        proof {
            same_contents_keeps_wf(pre, backup);
        }
        let header = Document {
            status: if doc.status == DocumentStatus::Completed {
                DocumentStatus::Draft
            } else {
                doc.status
            },
            ..doc
        };
        match self.create_in_year(header, year) {
            Ok(_) => {},
            Err(e) => {
                assert(pre.submit_refused(doc, items@, payments@, year@, e));
                return Err(e);
            },
        }
        assert(items_reached(pre, draft, year@, items@.subrange(0, 0), *self)) by {
            assert(items_added(*self, kind, items@.subrange(0, 0), *self));
        }
        let mut i: usize = 0;
        while i < items.len()
            invariant
                i <= items@.len(),
                self.wf(),
                pre == *old(self),
                forall|n: int|
                    0 <= n < items@.len() ==> (#[trigger] items@[n]).document_id@ == doc.id@,
                forall|n: int|
                    0 <= n < payments@.len() ==> (#[trigger] payments@[n]).document_id@
                        == doc.id@,
                backup.wf(),
                backup.same_contents(pre),
                draft == draft_of(doc),
                kind == doc.kind,
                items_reached(pre, draft, year@, items@.subrange(0, i as int), *self),
            decreases items@.len() - i,
        {
            let ghost mid = *self;
            match self.add_item(kind, items[i].copy()) {
                Ok(_) => {
                    proof {
                        let done = items@.subrange(0, i as int);
                        let more = items@.subrange(0, i + 1);
                        assert(more.drop_last() =~= done);
                        assert(more.last() == items@[i as int]);
                        let (created, stored) = choose|created: Ledger, stored: Document|
                            #![trigger pre.creates(draft, year@, created, Ok(stored))]
                            pre.creates(draft, year@, created, Ok(stored)) && items_added(
                                created,
                                draft.kind,
                                done,
                                mid,
                            );
                        assert(mid.adds_item(kind, more.last(), *self, Ok(())));
                        assert(items_added(created, kind, more, *self));
                    }
                },
                Err(e) => {
                    proof {
                        assert(item_refused(pre, draft, year@, items@, i as int, mid, e));
                    }
                    *self = backup;
                    return Err(e);
                },
            }
            i += 1;
        }
        assert(items@.subrange(0, i as int) =~= items@);
        let ghost with_items = *self;
        assert(payments_reached(pre, draft, year@, items@, payments@.subrange(0, 0), *self)) by {
            assert(payments_added(with_items, kind, payments@.subrange(0, 0), *self));
        }
        let mut j: usize = 0;
        while j < payments.len()
            invariant
                j <= payments@.len(),
                self.wf(),
                pre == *old(self),
                forall|n: int|
                    0 <= n < items@.len() ==> (#[trigger] items@[n]).document_id@ == doc.id@,
                forall|n: int|
                    0 <= n < payments@.len() ==> (#[trigger] payments@[n]).document_id@
                        == doc.id@,
                backup.wf(),
                backup.same_contents(pre),
                draft == draft_of(doc),
                kind == doc.kind,
                payments_reached(pre, draft, year@, items@, payments@.subrange(0, j as int), *self),
            decreases payments@.len() - j,
        {
            let ghost mid = *self;
            match self.add_payment(kind, payments[j].copy()) {
                Ok(_) => {
                    proof {
                        let done = payments@.subrange(0, j as int);
                        let more = payments@.subrange(0, j + 1);
                        assert(more.drop_last() =~= done);
                        assert(more.last() == payments@[j as int]);
                        let start = choose|start: Ledger|
                            #![trigger payments_added(start, draft.kind, done, mid)]
                            items_reached(pre, draft, year@, items@, start) && payments_added(
                                start,
                                draft.kind,
                                done,
                                mid,
                            );
                        assert(mid.adds_payment(kind, more.last(), *self, Ok(())));
                        assert(payments_added(start, kind, more, *self));
                    }
                },
                Err(e) => {
                    proof {
                        assert(payment_refused(pre, draft, year@, items@, payments@, j as int, mid, e));
                    }
                    *self = backup;
                    return Err(e);
                },
            }
            j += 1;
        }
        assert(payments@.subrange(0, j as int) =~= payments@);
        if wanted == DocumentStatus::Completed {
            let ghost mid = *self;
            match self.complete(kind, &id) {
                Ok(_) => {},
                Err(e) => {
                    proof {
                        assert(completion_refused(pre, draft, year@, items@, payments@, mid, e));
                    }
                    *self = backup;
                    return Err(e);
                },
            }
        }
        Ok(())
    }

    /// Submits a document with its line items and payments, numbering it for
    /// the current year where its header gives no number.
    pub fn submit(&mut self, doc: Document, items: Vec<LineItem>, payments: Vec<Payment>) -> (r:
        Result<(), LedgerError>)
        requires
            old(self).wf(),
        ensures
            final(self).wf(),
            exists|year: Seq<char>| #[trigger]
                old(self).submits(doc, items@, payments@, year, *final(self), r),
    {
        let year = current_year();
        self.submit_in_year(doc, items, payments, &year)
    }
}

/// A ledger that holds what a well-formed ledger holds is well formed.
pub proof fn same_contents_keeps_wf(ledger: Ledger, other: Ledger)
    requires
        ledger.wf(),
        other.same_contents(ledger),
    ensures
        other.wf(),
{
    assert forall|i: int| 0 <= i < other.documents@.len() implies (
    #[trigger] other.documents@[i]).wf() by {
        assert(ledger.documents@[i].wf());
    }
    assert(other.documents_distinct()) by {
        assert forall|i: int, j: int|
            #![trigger other.documents@[i], other.documents@[j]]
            0 <= i < j < other.documents@.len() && other.documents@[i].doc.kind
                == other.documents@[j].doc.kind implies other.documents@[i].doc.id@
            != other.documents@[j].doc.id@ && other.documents@[i].doc.number@
            != other.documents@[j].doc.number@ by {
            assert(ledger.documents@[i].doc.id@ != ledger.documents@[j].doc.id@);
        }
    }
    assert(other.references_resolve()) by {
        assert forall|i: int| 0 <= i < other.documents@.len() implies other.has_party(
            (#[trigger] other.documents@[i]).doc.party_kind,
            other.documents@[i].doc.party_id@,
        ) by {
            let k = ledger.documents@[i].doc.party_kind;
            let p = ledger.documents@[i].doc.party_id@;
            assert(ledger.has_party(k, p));
            let w = choose|w: int| ledger.is_party(w, k, p);
            assert(other.is_party(w, k, p));
        }
        assert forall|i: int, k: int|
            0 <= i < other.documents@.len() && 0 <= k < other.documents@[i].items@.len() && (
            #[trigger] other.documents@[i].items@[k]).item_id is Some implies other.has_item(
            other.documents@[i].items@[k].item_id->0@,
        ) by {
            assert(other.documents@[i].items@[k] == ledger.documents@[i].items@[k]);
            let c = ledger.documents@[i].items@[k].item_id->0@;
            assert(ledger.has_item(c));
            let w = choose|w: int| ledger.is_item(w, c);
            assert(other.is_item(w, c));
        }
    }
}

} // verus!
