//! Creating a document.

use vstd::prelude::*;
use crate::effects::{document_history_grew, phrase, push_document_event, DocNote};
use crate::error::LedgerError;
use crate::kinds::{check_kind_admits, kind_admits};
use crate::ledger::{DocumentEntry, Ledger};
use crate::money::PaymentStatus;
use crate::numbering::number_stem;
use crate::records::{copy_text, Document};
use crate::stamps::current_year;
use crate::text::char_count;

verus! {

/// What the document's own trail says of its creation.
pub open spec fn creation_details(number: Seq<char>) -> Seq<char> {
    number + " created"@
}

impl Ledger {
    /// What creating a document under a given number does: it refuses a
    /// number that a document of the kind already has; otherwise the ledger
    /// holds one more document, at the end, with the given header under that
    /// number, no line items, no payments, nothing owed and nothing paid, and
    /// the document's trail says that it was created.  The header as stored
    /// is returned.
    pub open spec fn creates_numbered(
        self,
        doc: Document,
        number: Seq<char>,
        post: Ledger,
        r: Result<Document, LedgerError>,
    ) -> bool {
        if self.number_taken(doc.kind, number) {
            r == Err::<Document, LedgerError>(LedgerError::DuplicateNumber) && post == self
        } else {
            let n = self.documents@.len() as int;
            &&& r is Ok
            &&& post.documents@.len() == n + 1
            &&& post.documents@.subrange(0, n) == self.documents@
            &&& post.documents@[n].items@.len() == 0
            &&& post.documents@[n].payments@.len() == 0
            &&& post.documents@[n].doc.number@ == number
            &&& post.documents@[n].doc == (Document {
                number: post.documents@[n].doc.number,
                total_amount: 0,
                paid_amount: 0,
                payment_status: PaymentStatus::Paid,
                ..doc
            })
            &&& r->Ok_0 == post.documents@[n].doc
            &&& post.parties == self.parties
            &&& post.inventory == self.inventory
            &&& post.client_history == self.client_history
            &&& post.supplier_history == self.supplier_history
            &&& post.inventory_history == self.inventory_history
            &&& document_history_grew(
                self,
                post,
                doc.kind,
                seq![
                    DocNote {
                        document_id: doc.id@,
                        event_type: "created"@,
                        details: creation_details(number),
                        changed_by: doc.created_by,
                    },
                ],
            )
        }
    }

    /// What creating a document in a given year does.  It refuses, in this
    /// order: a header whose kind, type and sort of counterparty do not go
    /// together; an identifier that a document of the kind already has; a
    /// counterparty that the ledger does not hold.  Then it creates the
    /// document under its own number or, where the header gives none, under
    /// the next number of its kind for the year.
    pub open spec fn creates(
        self,
        doc: Document,
        year: Seq<char>,
        post: Ledger,
        r: Result<Document, LedgerError>,
    ) -> bool {
        if !kind_admits(doc.kind, doc.transaction_type, doc.party_kind) {
            r == Err::<Document, LedgerError>(LedgerError::InvalidDocument) && post == self
        } else if self.has_document(doc.kind, doc.id@) {
            r == Err::<Document, LedgerError>(LedgerError::DuplicateId) && post == self
        } else if !self.has_party(doc.party_kind, doc.party_id@) {
            r == Err::<Document, LedgerError>(LedgerError::PartyNotFound) && post == self
        } else if doc.number@.len() > 0 {
            self.creates_numbered(doc, doc.number@, post, r)
        } else {
            exists|n: Seq<char>|
                #![trigger self.creates_numbered(doc, n, post, r)]
                self.is_next_number(doc.kind, number_stem(doc.kind, doc.transaction_type, year), n)
                    && self.creates_numbered(doc, n, post, r)
        }
    }

    /// Creates a document, numbering it for the given year where its header
    /// gives no number.
    pub fn create_in_year(&mut self, doc: Document, year: &String) -> (r: Result<
        Document,
        LedgerError,
    >)
        requires
            old(self).wf(),
        ensures
            final(self).wf(),
            old(self).creates(doc, year@, *final(self), r),
    {
        if !check_kind_admits(doc.kind, doc.transaction_type, doc.party_kind) {
            return Err(LedgerError::InvalidDocument);
        }
        if self.find_document(doc.kind, &doc.id).is_some() {
            return Err(LedgerError::DuplicateId);
        }
        if self.find_party(doc.party_kind, &doc.party_id).is_none() {
            return Err(LedgerError::PartyNotFound);
        }
        let ghost pre = *self;
        let kind = doc.kind;
        let number: String = if char_count(&doc.number) > 0 {
            doc.number.clone()
        } else {
            self.next_number(doc.kind, doc.transaction_type, year)
        };
        if self.is_number_taken(kind, &number) {
            assert(pre.creates_numbered(doc, number@, *self, Err(LedgerError::DuplicateNumber)));
            return Err(LedgerError::DuplicateNumber);
        }
        let id = doc.id.clone();
        let by = copy_text(&doc.created_by);
        let stored = Document {
            number,
            total_amount: 0,
            paid_amount: 0,
            payment_status: PaymentStatus::Paid,
            ..doc
        };
        let answer = stored.copy();
        let details = phrase("", &stored.number, " created");
        proof {
            reveal_strlit("");
            assert(details@ =~= creation_details(stored.number@));
        }
        self.documents.push(DocumentEntry { doc: stored, items: Vec::new(), payments: Vec::new() });
        push_document_event(self, kind, &id, "created", details, by);
        proof {
            let post = *self;
            let n = pre.documents@.len() as int;
            assert(post.documents@.subrange(0, n) =~= pre.documents@);
            assert(pre.creates_numbered(doc, stored.number@, post, Ok(answer)));
            assert(crate::records::sum_totals(post.documents@[n].items@) == 0);
            assert(crate::records::sum_payments(post.documents@[n].payments@) == 0);
            assert(post.documents@[n].wf());
            assert forall|i: int| 0 <= i < post.documents@.len() implies (
            #[trigger] post.documents@[i]).wf() by {
                if i < n {
                    assert(post.documents@[i] == pre.documents@[i]);
                    assert(pre.documents@[i].wf());
                }
            }
            assert(post.documents_distinct()) by {
                assert forall|i: int, j: int|
                    #![trigger post.documents@[i], post.documents@[j]]
                    0 <= i < j < post.documents@.len() && post.documents@[i].doc.kind
                        == post.documents@[j].doc.kind implies post.documents@[i].doc.id@
                    != post.documents@[j].doc.id@ && post.documents@[i].doc.number@
                    != post.documents@[j].doc.number@ by {
                    assert(post.documents@[i] == pre.documents@[i]);
                    if j < n {
                        assert(post.documents@[j] == pre.documents@[j]);
                        assert(pre.documents@[i].doc.id@ != pre.documents@[j].doc.id@);
                    } else {
                        assert(!pre.is_document(i, kind, id@));
                        assert(pre.documents@[i].doc.kind == kind);
                    }
                }
            }
            assert(post.references_resolve()) by {
                assert forall|i: int| 0 <= i < post.documents@.len() implies post.has_party(
                    (#[trigger] post.documents@[i]).doc.party_kind,
                    post.documents@[i].doc.party_id@,
                ) by {
                    let k = post.documents@[i].doc.party_kind;
                    let p = post.documents@[i].doc.party_id@;
                    if i < n {
                        assert(post.documents@[i] == pre.documents@[i]);
                    }
                    assert(pre.has_party(k, p));
                    let w = choose|w: int| pre.is_party(w, k, p);
                    assert(post.is_party(w, k, p));
                }
                assert forall|i: int, k: int|
                    0 <= i < post.documents@.len() && 0 <= k < post.documents@[i].items@.len() && (
                    #[trigger] post.documents@[i].items@[k]).item_id is Some implies post.has_item(
                    post.documents@[i].items@[k].item_id->0@,
                ) by {
                    assert(post.documents@[i] == pre.documents@[i]);
                    let c = pre.documents@[i].items@[k].item_id->0@;
                    assert(pre.has_item(c));
                    let w = choose|w: int| pre.is_item(w, c);
                    assert(post.is_item(w, c));
                }
            }
        }
        Ok(answer)
    }

    /// Creates a document, numbering it for the current year where its
    /// header gives no number.
    pub fn create(&mut self, doc: Document) -> (r: Result<Document, LedgerError>)
        requires
            old(self).wf(),
        ensures
            final(self).wf(),
            exists|year: Seq<char>| #[trigger] old(self).creates(doc, year, *final(self), r),
    {
        let year = current_year();
        self.create_in_year(doc, &year)
    }
}

} // verus!
