//! The life cycle of a document: completion, and what completion does to
//! stock and to the counterparty's balance.

use vstd::prelude::*;
use crate::effects::{
    balance_moved, commit_stock, document_history_grew, party_history_grew,
    party_history_unchanged, phrase, plan_stock, push_document_event, push_party_event,
    push_stock_events, recorded, stock_fits, stock_history_grew, stock_moved, stock_notes,
    DocNote, PartyNote,
};
use crate::error::LedgerError;
use crate::kinds::{stock_sign, DocumentKind, DocumentStatus, TransactionType};
use crate::ledger::{
    party_stays_known, same_item_keys, same_party_keys, wf_survives, DocumentEntry, Ledger,
};
use crate::money::{fits_i64, is_recorded, reaches_threshold};
use crate::records::{level, level_of, Document, LineItem};
use crate::stamps::timestamp_now;
use crate::wording::{completion_tag, completion_tag_text, stock_tag, stock_tag_text};

verus! {

/// The direction in which a completed document of this type moves stock.
pub fn sign_of(t: TransactionType) -> (s: i64)
    ensures
        s == stock_sign(t),
        s == 1 || s == -1,
{
    match t {
        TransactionType::Purchase => 1,
        TransactionType::Sale => -1,
    }
}

/// Whether the documents after are the documents before, except that the one
/// at place `i` has the given status and a time of update of its own.
pub open spec fn status_set(
    pre: Seq<DocumentEntry>,
    post: Seq<DocumentEntry>,
    i: int,
    status: DocumentStatus,
) -> bool {
    &&& post.len() == pre.len()
    &&& forall|k: int| 0 <= k < pre.len() && k != i ==> #[trigger] post[k] == pre[k]
    &&& post[i].items == pre[i].items
    &&& post[i].payments == pre[i].payments
    &&& post[i].doc == (Document { status, updated_at: post[i].doc.updated_at, ..pre[i].doc })
}

/// What the catalog's trail says of a completed document.
pub open spec fn completion_stock_note(number: Seq<char>) -> Seq<char> {
    "Completed document "@ + number
}

/// What the counterparty's trail says of a completed document.
pub open spec fn completion_party_note(number: Seq<char>) -> Seq<char> {
    "Document "@ + number + " completed"@
}

/// What the document's own trail says of its completion.
pub open spec fn completion_details(number: Seq<char>) -> Seq<char> {
    number + " completed and inventory updated"@
}

impl Ledger {
    /// Whether completing the document at place `i` keeps every stock figure
    /// and the counterparty's balance within the amount type.
    pub open spec fn completion_fits(self, i: int) -> bool {
        let e = self.documents@[i];
        let p = self.party_index(e.doc.party_kind, e.doc.party_id@);
        &&& stock_fits(
            self.inventory@,
            Seq::<LineItem>::empty(),
            e.items@,
            stock_sign(e.doc.transaction_type),
        )
        &&& fits_i64(level(self.parties@[p].credit_balance) + e.doc.total_amount)
    }

    /// Whether `post` is `self` after the document at place `i` has been
    /// completed: every line that names a catalog item has moved its stock
    /// by the line's quantity, the total has been added to the counterparty's
    /// balance, the status is `Completed`, and the three trails have grown.
    pub open spec fn completion_applied(self, post: Ledger, i: int) -> bool {
        let e = self.documents@[i];
        let sign = stock_sign(e.doc.transaction_type);
        &&& status_set(self.documents@, post.documents@, i, DocumentStatus::Completed)
        &&& stock_moved(self.inventory@, post.inventory@, Seq::<LineItem>::empty(), e.items@, sign)
        &&& stock_history_grew(
            self.inventory_history@,
            post.inventory_history@,
            stock_notes(
                e.items@,
                sign,
                stock_tag(e.doc.transaction_type),
                completion_stock_note(e.doc.number@),
                e.doc.id@,
            ),
        )
        &&& balance_moved(
            self.parties@,
            post.parties@,
            e.doc.party_kind,
            e.doc.party_id@,
            e.doc.total_amount as int,
        )
        &&& party_history_grew(
            self,
            post,
            e.doc.party_kind,
            recorded(
                e.doc.total_amount as int,
                PartyNote {
                    party_id: e.doc.party_id@,
                    event_type: completion_tag(e.doc.party_kind),
                    notes: completion_party_note(e.doc.number@),
                    amount: e.doc.total_amount as int,
                    changed_by: None,
                },
            ),
        )
        &&& document_history_grew(
            self,
            post,
            e.doc.kind,
            seq![
                DocNote {
                    document_id: e.doc.id@,
                    event_type: "completed"@,
                    details: completion_details(e.doc.number@),
                    changed_by: None,
                },
            ],
        )
    }

    /// What `complete` does: it refuses a document that the ledger does not
    /// hold, leaves a completed document as it is, refuses a completion that
    /// would take a figure out of range, and otherwise applies it.
    pub open spec fn completes(
        self,
        kind: DocumentKind,
        id: Seq<char>,
        post: Ledger,
        r: Result<(), LedgerError>,
    ) -> bool {
        if !self.has_document(kind, id) {
            r == Err::<(), LedgerError>(LedgerError::DocumentNotFound) && post == self
        } else {
            let i = self.document_index(kind, id);
            if self.documents@[i].doc.status == DocumentStatus::Completed {
                r == Ok::<(), LedgerError>(()) && post == self
            } else if !self.completion_fits(i) {
                r == Err::<(), LedgerError>(LedgerError::AmountOverflow) && post == self
            } else {
                r == Ok::<(), LedgerError>(()) && self.completion_applied(post, i)
            }
        }
    }

    /// Completes a document: applies its line items to stock and its total to
    /// the balance of its counterparty, once.
    pub fn complete(&mut self, kind: DocumentKind, id: &String) -> (r: Result<(), LedgerError>)
        requires
            old(self).wf(),
        ensures
            final(self).wf(),
            old(self).completes(kind, id@, *final(self), r),
    {
        let idx: usize = match self.find_document(kind, id) {
            Some(i) => i,
            None => {
                return Err(LedgerError::DocumentNotFound);
            },
        };
        proof {
            self.document_index_is(idx as int, kind, id@);
        }
        if self.documents[idx].doc.status == DocumentStatus::Completed {
            return Ok(());
        }
        let party_kind = self.documents[idx].doc.party_kind;
        let flow = self.documents[idx].doc.transaction_type;
        let party_id = self.documents[idx].doc.party_id.clone();
        let number = self.documents[idx].doc.number.clone();
        let total: i64 = self.documents[idx].doc.total_amount;
        let sign: i64 = sign_of(flow);
        assert(self.has_party(party_kind, party_id@));
        let pidx: usize = match self.find_party(party_kind, &party_id) {
            Some(p) => p,
            None => {
                return Err(LedgerError::PartyNotFound);
            },
        };
        proof {
            self.party_index_is(pidx as int, party_kind, party_id@);
        }
        let none: Vec<LineItem> = Vec::new();
        let plan = match plan_stock(&self.inventory, &none, &self.documents[idx].items, sign) {
            Some(p) => p,
            None => {
                return Err(LedgerError::AmountOverflow);
            },
        };
        let balance: i128 = level_of(self.parties[pidx].credit_balance) as i128 + total as i128;
        if balance < -0x8000_0000_0000_0000 || balance > 0x7fff_ffff_ffff_ffff {
            return Err(LedgerError::AmountOverflow);
        }
        commit_stock(&mut self.inventory, &plan);
        proof {
            reveal_strlit("");
        }
        let stock_note = phrase("Completed document ", &number, "");
        assert(stock_note@ =~= completion_stock_note(number@));
        push_stock_events(
            &mut self.inventory_history,
            &self.documents[idx].items,
            sign,
            stock_tag_text(flow),
            &stock_note,
            id,
        );
        self.parties[pidx].credit_balance = Some(balance as i64);
        if reaches_threshold(total) {
            let party_note = phrase("Document ", &number, " completed");
            push_party_event(
                self,
                party_kind,
                &party_id,
                completion_tag_text(party_kind),
                party_note,
                total,
                None,
            );
        }
        self.documents[idx].doc.status = DocumentStatus::Completed;
        self.documents[idx].doc.updated_at = timestamp_now();
        let details = phrase("", &number, " completed and inventory updated");
        assert(details@ =~= completion_details(number@));
        push_document_event(self, kind, id, "completed", details, None);
        proof {
            let pre = *old(self);
            let post = *self;
            if !is_recorded(total as int) {
                party_history_unchanged(pre, post, party_kind);
            }
            assert(same_party_keys(pre.parties@, post.parties@));
            assert(same_item_keys(pre.inventory@, post.inventory@));
            assert forall|i: int| 0 <= i < post.documents@.len() implies post.has_party(
                (#[trigger] post.documents@[i]).doc.party_kind,
                post.documents@[i].doc.party_id@,
            ) by {
                party_stays_known(
                    pre,
                    post,
                    pre.documents@[i].doc.party_kind,
                    pre.documents@[i].doc.party_id@,
                );
            }
            wf_survives(pre, post);
        }
        Ok(())
    }
}

} // verus!
