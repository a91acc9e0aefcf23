//! Changing the header of a document: its counterparty, its status, its
//! notes.  A change of status or of counterparty carries the document's
//! effects on stock and balances with it.

use vstd::prelude::*;
use crate::effects::{
    document_history_grew, move_stock, party_history_grew, party_history_grew_twice,
    party_history_unchanged, phrase, plan_stock, planned, push_document_event, push_party_event,
    recorded, stock_fits, stock_history_grew, stock_moved, stock_notes, DocNote, PartyNote,
};
use crate::error::LedgerError;
use crate::items::no_lines;
use crate::kinds::{stock_sign, DocumentStatus, PartyKind};
use crate::ledger::{same_item_keys, same_party_keys, wf_survives, DocumentEntry, Ledger};
use crate::lifecycle::{
    completion_details, completion_party_note, completion_stock_note, sign_of,
};
use crate::money::{fits_i64, reaches_threshold};
use crate::records::{copy_lines, copy_text, level, level_of, Document, LineItem, Party};
use crate::wording::{
    completion_tag, completion_tag_text, reversal_tag, reversal_tag_text, stock_tag, stock_tag_text,
};

verus! {

/// What the catalog's trail says of a document taken back.
pub open spec fn reversal_stock_note(number: Seq<char>) -> Seq<char> {
    "Reverted document "@ + number
}

/// What the counterparty's trail says of a document taken back.
pub open spec fn reversal_party_note(number: Seq<char>) -> Seq<char> {
    "Document "@ + number + " reverted to draft"@
}

/// What the counterparties' trail says of a completed document that goes
/// from one counterparty to another.
pub open spec fn reassignment_note(number: Seq<char>) -> Seq<char> {
    "Document "@ + number + " reassigned"@
}

/// The tag, in the document's own trail, of a change of its header.
pub open spec fn header_tag(was: bool, now: bool) -> Seq<char> {
    if was && !now {
        "reverted"@
    } else if !was && now {
        "completed"@
    } else {
        "updated"@
    }
}

/// What the document's own trail says of a change of its header.
pub open spec fn header_details(was: bool, now: bool, number: Seq<char>) -> Seq<char> {
    if was && !now {
        number + " reverted to draft"@
    } else if !was && now {
        completion_details(number)
    } else {
        number + " updated"@
    }
}

/// Whether the documents after are the documents before, except that the one
/// at place `i` has taken the counterparty, the status, the notes and the
/// time of update of the new header.
pub open spec fn header_set(
    pre: Seq<DocumentEntry>,
    post: Seq<DocumentEntry>,
    i: int,
    new: Document,
) -> bool {
    &&& post.len() == pre.len()
    &&& forall|k: int| 0 <= k < pre.len() && k != i ==> #[trigger] post[k] == pre[k]
    &&& post[i].items == pre[i].items
    &&& post[i].payments == pre[i].payments
    &&& post[i].doc == (Document {
        party_id: new.party_id,
        status: new.status,
        notes: new.notes,
        updated_at: new.updated_at,
        ..pre[i].doc
    })
}

/// A counterparty after a change of header: the amount `out` has been added
/// to the balance of the one that the document leaves, where `leave` holds,
/// and the amount `inn` to that of the one that it joins, where `join` holds.
pub open spec fn party_after(
    p: Party,
    kind: PartyKind,
    from: Seq<char>,
    leave: bool,
    out: int,
    to: Seq<char>,
    join: bool,
    inn: int,
) -> Party {
    if leave && p.kind == kind && p.id@ == from {
        Party { credit_balance: Some((level(p.credit_balance) + out) as i64), ..p }
    } else if join && p.kind == kind && p.id@ == to {
        Party { credit_balance: Some((level(p.credit_balance) + inn) as i64), ..p }
    } else {
        p
    }
}

/// The facts of a change of the header of the document at place `i`.
pub struct HeaderChange {
    /// Whether the document was completed.
    pub was: bool,
    /// Whether the document is completed afterwards.
    pub now: bool,
    /// Whether the balance of the old counterparty gives the total back.
    pub leave: bool,
    /// Whether the balance of the new counterparty takes the total.
    pub join: bool,
}

/// The figures worked out before a change of header is written.
pub struct HeaderPlan {
    pub facts: HeaderChange,
    pub from: usize,
    pub to: usize,
    pub from_balance: i64,
    pub to_balance: i64,
    pub stock: Option<Vec<Option<i64>>>,
    pub removed: Vec<LineItem>,
    pub added: Vec<LineItem>,
}

impl Ledger {
    /// The facts of a change of the header of the document at place `i` to
    /// `new`.  The old counterparty gives the total back where the document
    /// was completed and either is so no longer or goes to another
    /// counterparty; the new counterparty takes the total where the document
    /// is completed afterwards and either was not before or comes from
    /// another counterparty.
    pub open spec fn header_change(self, i: int, new: Document) -> HeaderChange {
        let e = self.documents@[i];
        let was = e.doc.status == DocumentStatus::Completed;
        let now = new.status == DocumentStatus::Completed;
        let moved = e.doc.party_id@ != new.party_id@;
        HeaderChange { was, now, leave: was && (!now || moved), join: now && (!was || moved) }
    }

    /// Whether a change of header keeps every stock figure and balance within
    /// the amount type.
    pub open spec fn header_change_fits(self, i: int, new: Document) -> bool {
        let e = self.documents@[i];
        let c = self.header_change(i, new);
        let sign = stock_sign(e.doc.transaction_type);
        let from = self.party_index(e.doc.party_kind, e.doc.party_id@);
        let to = self.party_index(e.doc.party_kind, new.party_id@);
        &&& c.was && !c.now ==> stock_fits(self.inventory@, e.items@, no_lines(), sign)
        &&& !c.was && c.now ==> stock_fits(self.inventory@, no_lines(), e.items@, sign)
        &&& c.leave ==> fits_i64(-e.doc.total_amount) && fits_i64(
            level(self.parties@[from].credit_balance) - e.doc.total_amount,
        )
        &&& c.join ==> fits_i64(level(self.parties@[to].credit_balance) + e.doc.total_amount)
    }

    /// Whether `post` is `self` after the header of the document at place `i`
    /// has changed to `new`.  A document that ceases to be completed gives
    /// back what its line items moved of stock and what its total added to
    /// its counterparty's balance; one that becomes completed applies both;
    /// one that stays completed and changes its counterparty takes its total
    /// from the balance of the old one and adds it to that of the new one.
    pub open spec fn header_change_applied(self, post: Ledger, i: int, new: Document) -> bool {
        let e = self.documents@[i];
        let c = self.header_change(i, new);
        let sign = stock_sign(e.doc.transaction_type);
        let total = e.doc.total_amount as int;
        let kind = e.doc.party_kind;
        &&& header_set(self.documents@, post.documents@, i, new)
        &&& if c.was && !c.now {
            &&& stock_moved(self.inventory@, post.inventory@, e.items@, no_lines(), sign)
            &&& stock_history_grew(
                self.inventory_history@,
                post.inventory_history@,
                stock_notes(
                    e.items@,
                    -sign,
                    "Adjustment"@,
                    reversal_stock_note(e.doc.number@),
                    e.doc.id@,
                ),
            )
        } else if !c.was && c.now {
            &&& stock_moved(self.inventory@, post.inventory@, no_lines(), e.items@, sign)
            &&& stock_history_grew(
                self.inventory_history@,
                post.inventory_history@,
                stock_notes(
                    e.items@,
                    sign,
                    stock_tag(e.doc.transaction_type),
                    completion_stock_note(e.doc.number@),
                    e.doc.id@,
                ),
            )
        } else {
            &&& post.inventory == self.inventory
            &&& post.inventory_history == self.inventory_history
        }
        &&& post.parties@.len() == self.parties@.len()
        &&& forall|k: int|
            0 <= k < self.parties@.len() ==> #[trigger] post.parties@[k] == party_after(
                self.parties@[k],
                kind,
                e.doc.party_id@,
                c.leave,
                -total,
                new.party_id@,
                c.join,
                total,
            )
        &&& party_history_grew(self, post, kind, header_party_notes(self, i, new))
        &&& document_history_grew(
            self,
            post,
            e.doc.kind,
            seq![
                DocNote {
                    document_id: e.doc.id@,
                    event_type: header_tag(c.was, c.now),
                    details: header_details(c.was, c.now, e.doc.number@),
                    changed_by: new.created_by,
                },
            ],
        )
    }

    /// What `update_header` does.  It refuses, in this order: a header whose
    /// document the ledger does not hold; a counterparty that the ledger does
    /// not hold; a change that would take a figure out of range.  Otherwise
    /// it applies the change.
    pub open spec fn updates_header(
        self,
        new: Document,
        post: Ledger,
        r: Result<(), LedgerError>,
    ) -> bool {
        if !self.has_document(new.kind, new.id@) {
            r == Err::<(), LedgerError>(LedgerError::DocumentNotFound) && post == self
        } else {
            let i = self.document_index(new.kind, new.id@);
            let e = self.documents@[i];
            if !self.has_party(e.doc.party_kind, new.party_id@) {
                r == Err::<(), LedgerError>(LedgerError::PartyNotFound) && post == self
            } else if !self.header_change_fits(i, new) {
                r == Err::<(), LedgerError>(LedgerError::AmountOverflow) && post == self
            } else {
                r == Ok::<(), LedgerError>(()) && self.header_change_applied(post, i, new)
            }
        }
    }

    /// Whether a plan holds the figures of the change of the header of the
    /// document at place `i` to `new`.
    pub open spec fn header_plan_matches(self, plan: HeaderPlan, i: int, new: Document) -> bool {
        let e = self.documents@[i];
        let c = self.header_change(i, new);
        let sign = stock_sign(e.doc.transaction_type);
        &&& plan.facts == c
        &&& self.is_party(plan.from as int, e.doc.party_kind, e.doc.party_id@)
        &&& self.is_party(plan.to as int, e.doc.party_kind, new.party_id@)
        &&& plan.removed@ == (if c.was && !c.now {
            e.items@
        } else {
            no_lines()
        })
        &&& plan.added@ == (if !c.was && c.now {
            e.items@
        } else {
            no_lines()
        })
        &&& plan.stock is Some <==> c.was != c.now
        &&& plan.stock is Some ==> planned(self.inventory@, plan.stock->0@, plan.removed@, plan.added@, sign)
        &&& c.leave ==> plan.from_balance == level(self.parties@[plan.from as int].credit_balance)
            - e.doc.total_amount
        &&& c.join ==> plan.to_balance == level(self.parties@[plan.to as int].credit_balance)
            + e.doc.total_amount
    }

    /// Works out the figures of a change of header; it refuses an unknown
    /// counterparty and a change that does not fit.
    pub(crate) fn plan_header(&self, idx: usize, new: &Document) -> (r: Result<
        HeaderPlan,
        LedgerError,
    >)
        requires
            self.wf(),
            idx < self.documents@.len(),
        ensures
            !self.has_party(self.documents@[idx as int].doc.party_kind, new.party_id@) ==> r
                == Err::<HeaderPlan, LedgerError>(LedgerError::PartyNotFound),
            self.has_party(self.documents@[idx as int].doc.party_kind, new.party_id@)
                && !self.header_change_fits(idx as int, *new) ==> r == Err::<
                HeaderPlan,
                LedgerError,
            >(LedgerError::AmountOverflow),
            self.has_party(self.documents@[idx as int].doc.party_kind, new.party_id@)
                && self.header_change_fits(idx as int, *new) ==> r is Ok
                && self.header_plan_matches(r->Ok_0, idx as int, *new),
    {
        let ghost e = self.documents@[idx as int];
        assert(e.wf());
        let party_kind = self.documents[idx].doc.party_kind;
        let to: usize = match self.find_party(party_kind, &new.party_id) {
            Some(p) => p,
            None => {
                return Err(LedgerError::PartyNotFound);
            },
        };
        assert(self.has_party(party_kind, e.doc.party_id@));
        let from: usize = match self.find_party(party_kind, &self.documents[idx].doc.party_id) {
            Some(p) => p,
            None => {
                return Err(LedgerError::PartyNotFound);
            },
        };
        proof {
            self.party_index_is(to as int, party_kind, new.party_id@);
            self.party_index_is(from as int, party_kind, e.doc.party_id@);
        }
        let was: bool = self.documents[idx].doc.status == DocumentStatus::Completed;
        let now: bool = new.status == DocumentStatus::Completed;
        let moved: bool = !(self.documents[idx].doc.party_id == new.party_id);
        let leave: bool = was && (!now || moved);
        let join: bool = now && (!was || moved);
        let sign: i64 = sign_of(self.documents[idx].doc.transaction_type);
        let total: i64 = self.documents[idx].doc.total_amount;
        let removed: Vec<LineItem> = if was && !now {
            copy_lines(&self.documents[idx].items)
        } else {
            Vec::new()
        };
        let added: Vec<LineItem> = if !was && now {
            copy_lines(&self.documents[idx].items)
        } else {
            Vec::new()
        };
        let stock: Option<Vec<Option<i64>>> = if was != now {
            match plan_stock(&self.inventory, &removed, &added, sign) {
                Some(p) => Some(p),
                None => {
                    return Err(LedgerError::AmountOverflow);
                },
            }
        } else {
            None
        };
        let mut from_balance: i64 = 0;
        if leave {
            if total == i64::MIN {
                return Err(LedgerError::AmountOverflow);
            }
            let b: i128 = level_of(self.parties[from].credit_balance) as i128 - total as i128;
            if b < -0x8000_0000_0000_0000 || b > 0x7fff_ffff_ffff_ffff {
                return Err(LedgerError::AmountOverflow);
            }
            from_balance = b as i64;
        }
        let mut to_balance: i64 = 0;
        if join {
            let b: i128 = level_of(self.parties[to].credit_balance) as i128 + total as i128;
            if b < -0x8000_0000_0000_0000 || b > 0x7fff_ffff_ffff_ffff {
                return Err(LedgerError::AmountOverflow);
            }
            to_balance = b as i64;
        }
        Ok(
            HeaderPlan {
                facts: HeaderChange { was, now, leave, join },
                from,
                to,
                from_balance,
                to_balance,
                stock,
                removed,
                added,
            },
        )
    }

    /// Writes the balances of a planned change of header and extends the
    /// trail of the counterparties.
    pub(crate) fn settle_parties(
        &mut self,
        Ghost(pre): Ghost<Ledger>,
        Ghost(i): Ghost<int>,
        Ghost(new): Ghost<Document>,
        plan: &HeaderPlan,
        kind: PartyKind,
        from_id: &String,
        to_id: &String,
        number: &String,
        total: i64,
    )
        requires
            pre.wf(),
            0 <= i < pre.documents@.len(),
            pre.header_change_fits(i, new),
            pre.header_plan_matches(*plan, i, new),
            pre.has_party(kind, new.party_id@),
            old(self).parties == pre.parties,
            old(self).client_history == pre.client_history,
            old(self).supplier_history == pre.supplier_history,
            kind == pre.documents@[i].doc.party_kind,
            from_id@ == pre.documents@[i].doc.party_id@,
            to_id@ == new.party_id@,
            number@ == pre.documents@[i].doc.number@,
            total == pre.documents@[i].doc.total_amount,
        ensures
            final(self).documents == old(self).documents,
            final(self).inventory == old(self).inventory,
            final(self).inventory_history == old(self).inventory_history,
            final(self).order_history == old(self).order_history,
            final(self).sale_history == old(self).sale_history,
            final(self).transaction_history == old(self).transaction_history,
            final(self).parties@.len() == pre.parties@.len(),
            forall|k: int|
                0 <= k < pre.parties@.len() ==> #[trigger] final(self).parties@[k] == party_after(
                    pre.parties@[k],
                    kind,
                    from_id@,
                    plan.facts.leave,
                    -total,
                    to_id@,
                    plan.facts.join,
                    total as int,
                ),
            party_history_grew(pre, *final(self), kind, header_party_notes(pre, i, new)),
    {
        let leave = plan.facts.leave;
        let join = plan.facts.join;
        let was = plan.facts.was;
        let now = plan.facts.now;
        let ghost e = pre.documents@[i];
        if leave {
            self.parties[plan.from].credit_balance = Some(plan.from_balance);
        }
        if join {
            self.parties[plan.to].credit_balance = Some(plan.to_balance);
        }
        let ghost balanced = *self;
        if leave && reaches_threshold(-total) {
            let note = if now {
                phrase("Document ", number, " reassigned")
            } else {
                phrase("Document ", number, " reverted to draft")
            };
            let tag: &str = if now {
                "Balance Adjusted"
            } else {
                reversal_tag_text(kind)
            };
            push_party_event(self, kind, from_id, tag, note, -total, None);
        } else {
            proof {
                party_history_unchanged(balanced, *self, kind);
            }
        }
        let ghost left = *self;
        if join && reaches_threshold(total) {
            let note = if was {
                phrase("Document ", number, " reassigned")
            } else {
                phrase("Document ", number, " completed")
            };
            let tag: &str = if was {
                "Balance Adjusted"
            } else {
                completion_tag_text(kind)
            };
            push_party_event(self, kind, to_id, tag, note, total, None);
        } else {
            proof {
                party_history_unchanged(left, *self, kind);
            }
        }
        proof {
            let joined = *self;
            let first = leaving_notes(pre, i, new);
            let second = joining_notes(pre, i, new);
            assert(party_history_grew(balanced, left, kind, first));
            assert(party_history_grew(left, joined, kind, second));
            party_history_grew_twice(balanced, left, joined, kind, first, second);
            assert forall|k: int| 0 <= k < pre.parties@.len() implies #[trigger] joined.parties@[k]
                == party_after(
                pre.parties@[k],
                kind,
                from_id@,
                leave,
                -total,
                to_id@,
                join,
                total as int,
            ) by {
                if pre.is_party(k, kind, e.doc.party_id@) {
                    pre.party_index_is(k, kind, e.doc.party_id@);
                }
                if pre.is_party(k, kind, new.party_id@) {
                    pre.party_index_is(k, kind, new.party_id@);
                }
                pre.party_index_is(plan.from as int, kind, e.doc.party_id@);
                pre.party_index_is(plan.to as int, kind, new.party_id@);
            }
        }
    }

    /// Changes the counterparty, the status, the notes and the time of update
    /// of the document that the header names by kind and identifier.
    pub fn update_header(&mut self, new: Document) -> (r: Result<(), LedgerError>)
        requires
            old(self).wf(),
        ensures
            final(self).wf(),
            old(self).updates_header(new, *final(self), r),
    {
        let idx: usize = match self.find_document(new.kind, &new.id) {
            Some(i) => i,
            None => {
                return Err(LedgerError::DocumentNotFound);
            },
        };
        proof {
            self.document_index_is(idx as int, new.kind, new.id@);
            reveal_strlit("");
        }
        let ghost pre = *self;
        let ghost e = pre.documents@[idx as int];
        assert(e.wf());
        let plan = match self.plan_header(idx, &new) {
            Ok(p) => p,
            Err(err) => {
                return Err(err);
            },
        };
        let was = plan.facts.was;
        let now = plan.facts.now;
        let kind = self.documents[idx].doc.kind;
        let party_kind = self.documents[idx].doc.party_kind;
        let flow = self.documents[idx].doc.transaction_type;
        let sign: i64 = sign_of(flow);
        let total: i64 = self.documents[idx].doc.total_amount;
        let number = self.documents[idx].doc.number.clone();
        let id = self.documents[idx].doc.id.clone();
        let old_party = self.documents[idx].doc.party_id.clone();
        match &plan.stock {
            Some(p) => {
                let back = phrase("Reverted document ", &number, "");
                assert(back@ =~= reversal_stock_note(number@));
                let forth = phrase("Completed document ", &number, "");
                assert(forth@ =~= completion_stock_note(number@));
                move_stock(
                    &mut self.inventory,
                    &mut self.inventory_history,
                    p,
                    &plan.removed,
                    &plan.added,
                    sign,
                    &back,
                    stock_tag_text(flow),
                    &forth,
                    &id,
                );
                proof {
                    let first = stock_notes(
                        plan.removed@,
                        -(sign as int),
                        "Adjustment"@,
                        back@,
                        id@,
                    );
                    let second = stock_notes(
                        plan.added@,
                        sign as int,
                        stock_tag(flow),
                        forth@,
                        id@,
                    );
                    if was && !now {
                        assert(first + second =~= first);
                    } else {
                        assert(first + second =~= second);
                    }
                }
            },
            None => {},
        }
        self.settle_parties(
            Ghost(pre),
            Ghost(idx as int),
            Ghost(new),
            &plan,
            party_kind,
            &old_party,
            &new.party_id,
            &number,
            total,
        );
        let by = copy_text(&new.created_by);
        let tag: &str = if was && !now {
            "reverted"
        } else if !was && now {
            "completed"
        } else {
            "updated"
        };
        let details = if was && !now {
            phrase("", &number, " reverted to draft")
        } else if !was && now {
            phrase("", &number, " completed and inventory updated")
        } else {
            phrase("", &number, " updated")
        };
        assert(details@ =~= header_details(was, now, number@));
        self.documents[idx].doc.party_id = new.party_id;
        self.documents[idx].doc.status = new.status;
        self.documents[idx].doc.notes = new.notes;
        self.documents[idx].doc.updated_at = new.updated_at;
        push_document_event(self, kind, &id, tag, details, by);
        proof {
            header_change_keeps_wf(pre, *self, idx as int, new);
        }
        Ok(())
    }
}

/// The notes that the old counterparty's trail takes from a change of header.
pub open spec fn leaving_notes(ledger: Ledger, i: int, new: Document) -> Seq<PartyNote> {
    let e = ledger.documents@[i];
    let c = ledger.header_change(i, new);
    let total = e.doc.total_amount as int;
    if c.leave {
        recorded(
            -total,
            PartyNote {
                party_id: e.doc.party_id@,
                event_type: if c.now {
                    "Balance Adjusted"@
                } else {
                    reversal_tag(e.doc.party_kind)
                },
                notes: if c.now {
                    reassignment_note(e.doc.number@)
                } else {
                    reversal_party_note(e.doc.number@)
                },
                amount: -total,
                changed_by: None,
            },
        )
    } else {
        Seq::<PartyNote>::empty()
    }
}

/// The notes that the new counterparty's trail takes from a change of header.
pub open spec fn joining_notes(ledger: Ledger, i: int, new: Document) -> Seq<PartyNote> {
    let e = ledger.documents@[i];
    let c = ledger.header_change(i, new);
    let total = e.doc.total_amount as int;
    if c.join {
        recorded(
            total,
            PartyNote {
                party_id: new.party_id@,
                event_type: if c.was {
                    "Balance Adjusted"@
                } else {
                    completion_tag(e.doc.party_kind)
                },
                notes: if c.was {
                    reassignment_note(e.doc.number@)
                } else {
                    completion_party_note(e.doc.number@)
                },
                amount: total,
                changed_by: None,
            },
        )
    } else {
        Seq::<PartyNote>::empty()
    }
}

/// The notes that the counterparties' trail takes from a change of header:
/// those of the counterparty that the document leaves, then those of the
/// one that it joins.
pub open spec fn header_party_notes(ledger: Ledger, i: int, new: Document) -> Seq<PartyNote> {
    leaving_notes(ledger, i, new) + joining_notes(ledger, i, new)
}

/// A change of header keeps the ledger's invariant.
pub proof fn header_change_keeps_wf(pre: Ledger, post: Ledger, i: int, new: Document)
    requires
        pre.wf(),
        0 <= i < pre.documents@.len(),
        pre.has_party(pre.documents@[i].doc.party_kind, new.party_id@),
        pre.header_change_applied(post, i, new),
    ensures
        post.wf(),
{
    let e = pre.documents@[i];
    let party_kind = e.doc.party_kind;
    assert(e.wf());
    assert(same_party_keys(pre.parties@, post.parties@));
    assert(same_item_keys(pre.inventory@, post.inventory@));
    assert(post.documents@[i].wf());
    assert forall|k: int| 0 <= k < post.documents@.len() implies (#[trigger] post.documents@[k]).wf() by {
        if k != i {
            assert(pre.documents@[k].wf());
        }
    }
    assert forall|k: int| 0 <= k < post.documents@.len() implies post.has_party(
        (#[trigger] post.documents@[k]).doc.party_kind,
        post.documents@[k].doc.party_id@,
    ) by {
        if k != i {
            crate::ledger::party_stays_known(
                pre,
                post,
                pre.documents@[k].doc.party_kind,
                pre.documents@[k].doc.party_id@,
            );
        } else {
            crate::ledger::party_stays_known(pre, post, party_kind, new.party_id@);
        }
    }
    assert forall|k: int, l: int|
        0 <= k < post.documents@.len() && 0 <= l < post.documents@[k].items@.len() && (
        #[trigger] post.documents@[k].items@[l]).item_id is Some implies pre.has_item(
        post.documents@[k].items@[l].item_id->0@,
    ) by {
        assert(post.documents@[k].items == pre.documents@[k].items);
        assert(pre.documents@[k].items@[l].item_id is Some);
    }
    wf_survives(pre, post);
}

} // verus!
