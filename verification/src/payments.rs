//! The payment ledger: adding a payment to a document and reading the
//! payments of a document.

use vstd::prelude::*;
use crate::effects::{
    balance_moved, document_history_grew, party_history_grew, party_history_unchanged, phrase,
    push_document_event, push_party_event, recorded, DocNote, PartyNote,
};
use crate::error::LedgerError;
use crate::kinds::DocumentKind;
use crate::ledger::{
    find_payment, party_stays_known, same_item_keys, same_party_keys, wf_survives, Ledger,
};
use crate::money::{derive_payment_status, fits_i64, payment_status_of, reaches_threshold};
use crate::records::{copy_text, level, level_of, Document, Payment};
use crate::stamps::timestamp_now;
use crate::text::{
    insert_adds_one, lex_less, lex_less_irreflexive, lex_less_transitive, text_less,
};
use crate::wording::{payment_details, payment_details_text, payment_tag, payment_tag_text};

verus! {

/// Whether one of the payments has this identifier.
pub open spec fn has_payment(payments: Seq<Payment>, id: Seq<char>) -> bool {
    exists|k: int| 0 <= k < payments.len() && (#[trigger] payments[k]).id@ == id
}

/// What the counterparty's trail says of a payment.
pub open spec fn payment_note(number: Seq<char>) -> Seq<char> {
    "Payment for "@ + number
}

impl Ledger {
    /// Whether adding a payment of this amount to the document at place `i`
    /// keeps the paid amount and the counterparty's balance within the amount
    /// type.
    pub open spec fn payment_fits(self, i: int, amount: int) -> bool {
        let e = self.documents@[i];
        let p = self.party_index(e.doc.party_kind, e.doc.party_id@);
        &&& fits_i64(e.doc.paid_amount + amount)
        &&& fits_i64(level(self.parties@[p].credit_balance) - amount)
    }

    /// Whether `post` is `self` after the payment has joined the document at
    /// place `i`: the paid amount has grown by the payment and the payment
    /// status follows; the counterparty's balance has gone down by the
    /// payment, whatever the document's status; the trails of the
    /// counterparty and of the document say so.  The catalog and its trail
    /// are as they were.
    pub open spec fn payment_applied(self, post: Ledger, i: int, payment: Payment) -> bool {
        let e = self.documents@[i];
        let paid = e.doc.paid_amount + payment.amount;
        &&& post.documents@.len() == self.documents@.len()
        &&& forall|k: int|
            0 <= k < self.documents@.len() && k != i ==> #[trigger] post.documents@[k]
                == self.documents@[k]
        &&& post.documents@[i].items == e.items
        &&& post.documents@[i].payments@ == e.payments@.push(payment)
        &&& post.documents@[i].doc == (Document {
            paid_amount: paid as i64,
            payment_status: payment_status_of(paid, e.doc.total_amount as int),
            updated_at: post.documents@[i].doc.updated_at,
            ..e.doc
        })
        &&& post.inventory == self.inventory
        &&& post.inventory_history == self.inventory_history
        &&& balance_moved(
            self.parties@,
            post.parties@,
            e.doc.party_kind,
            e.doc.party_id@,
            -payment.amount,
        )
        &&& party_history_grew(
            self,
            post,
            e.doc.party_kind,
            recorded(
                -payment.amount,
                PartyNote {
                    party_id: e.doc.party_id@,
                    event_type: payment_tag(e.doc.party_kind),
                    notes: payment_note(e.doc.number@),
                    amount: -payment.amount,
                    changed_by: payment.received_by,
                },
            ),
        )
        &&& document_history_grew(
            self,
            post,
            e.doc.kind,
            seq![
                DocNote {
                    document_id: e.doc.id@,
                    event_type: "payment_added"@,
                    details: payment_details(payment.amount as int),
                    changed_by: payment.received_by,
                },
            ],
        )
    }

    /// What `add_payment` does.  It refuses, in this order: a payment whose
    /// document the ledger does not hold; one whose amount is not positive;
    /// one whose identifier another payment of the document has; one that
    /// would take a figure out of range.  Otherwise it applies the payment.
    pub open spec fn adds_payment(
        self,
        kind: DocumentKind,
        payment: Payment,
        post: Ledger,
        r: Result<(), LedgerError>,
    ) -> bool {
        if !self.has_document(kind, payment.document_id@) {
            r == Err::<(), LedgerError>(LedgerError::DocumentNotFound) && post == self
        } else {
            let i = self.document_index(kind, payment.document_id@);
            let e = self.documents@[i];
            if !payment.valid() {
                r == Err::<(), LedgerError>(LedgerError::InvalidPayment) && post == self
            } else if has_payment(e.payments@, payment.id@) {
                r == Err::<(), LedgerError>(LedgerError::DuplicateId) && post == self
            } else if !self.payment_fits(i, payment.amount as int) {
                r == Err::<(), LedgerError>(LedgerError::AmountOverflow) && post == self
            } else {
                r == Ok::<(), LedgerError>(()) && self.payment_applied(post, i, payment)
            }
        }
    }

    /// Adds a payment to the document that it names.
    pub fn add_payment(&mut self, kind: DocumentKind, payment: Payment) -> (r: Result<
        (),
        LedgerError,
    >)
        requires
            old(self).wf(),
        ensures
            final(self).wf(),
            old(self).adds_payment(kind, payment, *final(self), r),
    {
        let idx: usize = match self.find_document(kind, &payment.document_id) {
            Some(i) => i,
            None => {
                return Err(LedgerError::DocumentNotFound);
            },
        };
        proof {
            self.document_index_is(idx as int, kind, payment.document_id@);
        }
        if payment.amount <= 0 {
            return Err(LedgerError::InvalidPayment);
        }
        if find_payment(&self.documents[idx].payments, &payment.id).is_some() {
            return Err(LedgerError::DuplicateId);
        }
        let ghost pre = *self;
        let ghost e = pre.documents@[idx as int];
        assert(e.wf());
        let amount: i64 = payment.amount;
        let paid: i128 = self.documents[idx].doc.paid_amount as i128 + amount as i128;
        if paid > 0x7fff_ffff_ffff_ffff {
            return Err(LedgerError::AmountOverflow);
        }
        let party_kind = self.documents[idx].doc.party_kind;
        let party_id = self.documents[idx].doc.party_id.clone();
        assert(self.has_party(party_kind, party_id@));
        let pidx: usize = match self.find_party(party_kind, &party_id) {
            Some(p) => p,
            None => {
                return Err(LedgerError::PartyNotFound);
            },
        };
        proof {
            self.party_index_is(pidx as int, party_kind, party_id@);
        }
        let balance: i128 = level_of(self.parties[pidx].credit_balance) as i128 - amount as i128;
        if balance < -0x8000_0000_0000_0000 {
            return Err(LedgerError::AmountOverflow);
        }
        let number = self.documents[idx].doc.number.clone();
        let id = self.documents[idx].doc.id.clone();
        let total: i64 = self.documents[idx].doc.total_amount;
        let by = copy_text(&payment.received_by);
        let by2 = copy_text(&payment.received_by);
        self.documents[idx].payments.push(payment);
        self.documents[idx].doc.paid_amount = paid as i64;
        self.documents[idx].doc.payment_status = derive_payment_status(paid as i64, total);
        self.documents[idx].doc.updated_at = timestamp_now();
        self.parties[pidx].credit_balance = Some(balance as i64);
        let ghost before_party = *self;
        if reaches_threshold(-amount) {
            proof {
                reveal_strlit("");
            }
            let note = phrase("Payment for ", &number, "");
            assert(note@ =~= payment_note(number@));
            push_party_event(
                self,
                party_kind,
                &party_id,
                payment_tag_text(party_kind),
                note,
                -amount,
                by,
            );
        } else {
            proof {
                party_history_unchanged(before_party, *self, party_kind);
            }
        }
        push_document_event(self, kind, &id, "payment_added", payment_details_text(amount), by2);
        proof {
            let post = *self;
            assert(post.documents@[idx as int].payments@.drop_last() =~= e.payments@);
            assert forall|k: int| 0 <= k < pre.parties@.len() implies #[trigger] post.parties@[k]
                == if pre.parties@[k].kind == party_kind && pre.parties@[k].id@ == party_id@ {
                crate::records::Party {
                    credit_balance: Some((level(pre.parties@[k].credit_balance) - amount) as i64),
                    ..pre.parties@[k]
                }
            } else {
                pre.parties@[k]
            } by {
                if pre.is_party(k, party_kind, party_id@) {
                    pre.party_index_is(k, party_kind, party_id@);
                }
            }
            assert(same_party_keys(pre.parties@, post.parties@));
            assert(same_item_keys(pre.inventory@, post.inventory@));
            let ps = post.documents@[idx as int].payments@;
            assert(post.documents@[idx as int].payments_wf()) by {
                assert forall|k: int| 0 <= k < ps.len() implies (#[trigger] ps[k]).valid()
                    && ps[k].document_id@ == post.documents@[idx as int].doc.id@ by {
                    if k < e.payments@.len() {
                        assert(ps[k] == e.payments@[k]);
                    }
                }
                assert forall|k: int, l: int|
                    #![trigger ps[k], ps[l]]
                    0 <= k < l < ps.len() implies ps[k].id@ != ps[l].id@ by {
                    assert(ps[k] == e.payments@[k]);
                    if l < e.payments@.len() {
                        assert(ps[l] == e.payments@[l]);
                    }
                }
            }
            assert(post.documents@[idx as int].items_wf());
            assert(post.documents@[idx as int].wf());
            assert forall|k: int| 0 <= k < post.documents@.len() implies (
            #[trigger] post.documents@[k]).wf() by {
                if k != idx {
                    assert(pre.documents@[k].wf());
                }
            }
            assert forall|k: int| 0 <= k < post.documents@.len() implies post.has_party(
                (#[trigger] post.documents@[k]).doc.party_kind,
                post.documents@[k].doc.party_id@,
            ) by {
                party_stays_known(
                    pre,
                    post,
                    pre.documents@[k].doc.party_kind,
                    pre.documents@[k].doc.party_id@,
                );
            }
            assert forall|k: int, l: int|
                0 <= k < post.documents@.len() && 0 <= l < post.documents@[k].items@.len() && (
                #[trigger] post.documents@[k].items@[l]).item_id is Some implies pre.has_item(
                post.documents@[k].items@[l].item_id->0@,
            ) by {
                assert(post.documents@[k].items == pre.documents@[k].items);
                assert(pre.documents@[k].items@[l].item_id is Some);
            }
            wf_survives(pre, post);
        }
        Ok(())
    }

    /// Reads the payments of a document, the latest first; a document that
    /// the ledger does not hold has none.
    pub fn payments_of(&self, kind: DocumentKind, document_id: &String) -> (r: Vec<Payment>)
        requires
            self.wf(),
        ensures
            self.has_document(kind, document_id@) ==> r@.to_multiset()
                == self.documents@[self.document_index(
                kind,
                document_id@,
            )].payments@.to_multiset(),
            !self.has_document(kind, document_id@) ==> r@.len() == 0,
            latest_first(r@),
    {
        let idx: usize = match self.find_document(kind, document_id) {
            Some(i) => i,
            None => {
                return Vec::new();
            },
        };
        proof {
            self.document_index_is(idx as int, kind, document_id@);
        }
        sort_latest_first(&self.documents[idx].payments)
    }
}

/// Whether the payments stand with the latest date first, the dates being
/// compared as texts.
pub open spec fn latest_first(payments: Seq<Payment>) -> bool {
    forall|i: int, j: int|
        #![trigger payments[i], payments[j]]
        0 <= i < j < payments.len() ==> !lex_less(payments[i].date@, payments[j].date@)
}

/// Rearranges payments so that the latest date comes first; payments of one
/// date keep their order.
pub fn sort_latest_first(payments: &Vec<Payment>) -> (r: Vec<Payment>)
    ensures
        r@.to_multiset() == payments@.to_multiset(),
        latest_first(r@),
{
    let mut r: Vec<Payment> = Vec::new();
    let mut i: usize = 0;
    assert(payments@.subrange(0, 0) =~= r@);
    while i < payments.len()
        invariant
            i <= payments@.len(),
            r@.to_multiset() == payments@.subrange(0, i as int).to_multiset(),
            latest_first(r@),
        decreases payments@.len() - i,
    {
        let x = payments[i].copy();
        let mut k: usize = 0;
        while k < r.len() && !text_less(&r[k].date, &x.date)
            invariant
                k <= r@.len(),
                forall|m: int| 0 <= m < k ==> !lex_less((#[trigger] r@[m]).date@, x.date@),
            decreases r@.len() - k,
        {
            k += 1;
        }
        let ghost before = r@;
        r.insert(k, x);
        proof {
            insert_adds_one(before, k as int, x);
            let done = payments@.subrange(0, i as int);
            let more = payments@.subrange(0, i + 1);
            assert(more =~= done.push(x));
            vstd::seq_lib::to_multiset_build(done, x);
            assert forall|a: int, b: int|
                #![trigger r@[a], r@[b]]
                0 <= a < b < r@.len() implies !lex_less(r@[a].date@, r@[b].date@) by {
                let key = x.date@;
                if b < k {
                    assert(r@[a] == before[a] && r@[b] == before[b]);
                } else if b == k {
                    assert(r@[a] == before[a]);
                } else if a == k {
                    let other = before[b - 1];
                    assert(r@[b] == other);
                    let here = before[k as int];
                    assert(lex_less(here.date@, key));
                    if lex_less(key, other.date@) {
                        lex_less_transitive(here.date@, key, other.date@);
                        if b - 1 == k {
                            lex_less_irreflexive(here.date@);
                        } else {
                            assert(!lex_less(before[k as int].date@, before[b - 1].date@));
                        }
                    }
                } else if a < k {
                    assert(r@[a] == before[a] && r@[b] == before[b - 1]);
                } else {
                    assert(r@[a] == before[a - 1] && r@[b] == before[b - 1]);
                }
            }
        }
        i += 1;
    }
    assert(payments@.subrange(0, i as int) =~= payments@);
    r
}

/// Copies a run of payments.
pub fn copy_payments(payments: &Vec<Payment>) -> (r: Vec<Payment>)
    ensures
        r@ == payments@,
{
    let mut r: Vec<Payment> = Vec::new();
    let mut i: usize = 0;
    while i < payments.len()
        invariant
            i <= payments@.len(),
            r@ == payments@.subrange(0, i as int),
        decreases payments@.len() - i,
    {
        r.push(payments[i].copy());
        assert(payments@.subrange(0, i + 1) =~= payments@.subrange(0, i as int).push(
            payments@[i as int],
        ));
        i += 1;
    }
    assert(payments@.subrange(0, i as int) =~= payments@);
    r
}

} // verus!
