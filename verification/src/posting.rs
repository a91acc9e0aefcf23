//! How a change of a document's line items is carried through to the total,
//! the payment status, stock and the counterparty's balance.

use vstd::prelude::*;
use crate::effects::{
    balance_moved, commit_stock, new_stock, party_history_grew, party_history_unchanged, plan_stock,
    push_party_event, push_stock_events, recorded, stock_fits, stock_history_grew,
    stock_history_grew_twice, stock_moved, stock_notes, PartyNote,
};
use crate::error::LedgerError;
use crate::kinds::{stock_sign, DocumentStatus};
use crate::ledger::Ledger;
use crate::lifecycle::sign_of;
use crate::money::{derive_payment_status, fits_i64, payment_status_of, reaches_threshold};
use crate::records::{level, level_of, mentions, sum_totals, total_of, Document, LineItem};
use crate::stamps::timestamp_now;

verus! {

/// What the counterparty's trail says when a completed document's total
/// changes with its line items.
pub open spec fn recalculation_note(number: Seq<char>) -> Seq<char> {
    "Document "@ + number + " total recalculated (items changed)"@
}

/// The figures worked out before a change of line items is written.
pub struct ChangePlan {
    pub total: i64,
    pub delta: i64,
    pub completed: bool,
    pub party: usize,
    pub balance: i64,
    pub stock: Vec<Option<i64>>,
}

/// The sum of the totals of a run of line items with one more at its end.
pub proof fn sum_totals_push(items: Seq<LineItem>, item: LineItem)
    ensures
        sum_totals(items.push(item)) == sum_totals(items) + item.total_price,
{
    assert(items.push(item).drop_last() =~= items);
}

/// The sum of the totals of a run of line items with one taken out.
pub proof fn sum_totals_remove(items: Seq<LineItem>, j: int)
    requires
        0 <= j < items.len(),
    ensures
        sum_totals(items.remove(j)) == sum_totals(items) - items[j].total_price,
    decreases items.len(),
{
    if j == items.len() - 1 {
        assert(items.remove(j) =~= items.drop_last());
    } else {
        sum_totals_remove(items.drop_last(), j);
        assert(items.remove(j).drop_last() =~= items.drop_last().remove(j));
        assert(items.remove(j).last() == items.last());
    }
}

/// The sum of the totals of a run of line items with one replaced.
pub proof fn sum_totals_update(items: Seq<LineItem>, j: int, item: LineItem)
    requires
        0 <= j < items.len(),
    ensures
        sum_totals(items.update(j, item)) == sum_totals(items) - items[j].total_price
            + item.total_price,
    decreases items.len(),
{
    if j == items.len() - 1 {
        assert(items.update(j, item).drop_last() =~= items.drop_last());
    } else {
        sum_totals_update(items.drop_last(), j, item);
        assert(items.update(j, item).drop_last() =~= items.drop_last().update(j, item));
        assert(items.update(j, item).last() == items.last());
    }
}

impl Ledger {
    /// Whether a change of the line items of the document at place `i`, to
    /// the given new total, keeps the total and, where the document is
    /// completed, every stock figure and the counterparty's balance within
    /// the amount type.
    pub open spec fn change_fits(
        self,
        i: int,
        total: int,
        removed: Seq<LineItem>,
        added: Seq<LineItem>,
    ) -> bool {
        let e = self.documents@[i];
        let p = self.party_index(e.doc.party_kind, e.doc.party_id@);
        &&& fits_i64(total)
        &&& e.doc.status == DocumentStatus::Completed ==> {
            &&& fits_i64(total - e.doc.total_amount)
            &&& stock_fits(self.inventory@, removed, added, stock_sign(e.doc.transaction_type))
            &&& fits_i64(level(self.parties@[p].credit_balance) + total - e.doc.total_amount)
        }
    }

    /// Whether `post` is `self` after the line items of the document at
    /// place `i` have become `items`, the lines in `removed` having left and
    /// those in `added` having joined: the total is the sum of the items and
    /// the payment status follows; where the document is completed, stock has
    /// moved back by the removed lines and forth by the added ones, the
    /// change of the total has gone to the counterparty's balance, and the
    /// trails of the catalog and of the counterparty have grown.
    pub open spec fn change_applied(
        self,
        post: Ledger,
        i: int,
        items: Seq<LineItem>,
        removed: Seq<LineItem>,
        added: Seq<LineItem>,
        removed_note: Seq<char>,
        added_tag: Seq<char>,
        added_note: Seq<char>,
    ) -> bool {
        let e = self.documents@[i];
        let sign = stock_sign(e.doc.transaction_type);
        let total = sum_totals(items);
        let delta = total - e.doc.total_amount;
        &&& post.documents@.len() == self.documents@.len()
        &&& forall|k: int|
            0 <= k < self.documents@.len() && k != i ==> #[trigger] post.documents@[k]
                == self.documents@[k]
        &&& post.documents@[i].items@ == items
        &&& post.documents@[i].payments == e.payments
        &&& post.documents@[i].doc == (Document {
            total_amount: total as i64,
            payment_status: payment_status_of(e.doc.paid_amount as int, total),
            updated_at: post.documents@[i].doc.updated_at,
            ..e.doc
        })
        &&& if e.doc.status == DocumentStatus::Completed {
            &&& stock_moved(self.inventory@, post.inventory@, removed, added, sign)
            &&& stock_history_grew(
                self.inventory_history@,
                post.inventory_history@,
                stock_notes(removed, -sign, "Adjustment"@, removed_note, e.doc.id@) + stock_notes(
                    added,
                    sign,
                    added_tag,
                    added_note,
                    e.doc.id@,
                ),
            )
            &&& balance_moved(
                self.parties@,
                post.parties@,
                e.doc.party_kind,
                e.doc.party_id@,
                delta,
            )
            &&& party_history_grew(
                self,
                post,
                e.doc.party_kind,
                recorded(
                    delta,
                    PartyNote {
                        party_id: e.doc.party_id@,
                        event_type: "Balance Adjusted"@,
                        notes: recalculation_note(e.doc.number@),
                        amount: delta,
                        changed_by: None,
                    },
                ),
            )
        } else {
            &&& post.inventory == self.inventory
            &&& post.inventory_history == self.inventory_history
            &&& post.parties == self.parties
            &&& post.client_history == self.client_history
            &&& post.supplier_history == self.supplier_history
        }
    }

    /// Works out the figures of a change of the line items of the document
    /// at place `idx`; it refuses a change that does not fit.
    pub(crate) fn plan_change(
        &self,
        idx: usize,
        total: i128,
        removed: &Vec<LineItem>,
        added: &Vec<LineItem>,
    ) -> (r: Result<ChangePlan, LedgerError>)
        requires
            self.wf(),
            idx < self.documents@.len(),
            -0x4000_0000_0000_0000_0000_0000_0000_0000 <= total
                <= 0x4000_0000_0000_0000_0000_0000_0000_0000,
        ensures
            r is Ok <==> self.change_fits(idx as int, total as int, removed@, added@),
            r is Err ==> r == Err::<ChangePlan, LedgerError>(LedgerError::AmountOverflow),
            r is Ok ==> self.plan_matches(r->Ok_0, idx as int, total as int, removed@, added@),
    {
        if total < -0x8000_0000_0000_0000 || total > 0x7fff_ffff_ffff_ffff {
            return Err(LedgerError::AmountOverflow);
        }
        let completed: bool = self.documents[idx].doc.status == DocumentStatus::Completed;
        let party_kind = self.documents[idx].doc.party_kind;
        assert(self.has_party(party_kind, self.documents@[idx as int].doc.party_id@));
        let party: usize = match self.find_party(party_kind, &self.documents[idx].doc.party_id) {
            Some(p) => p,
            None => {
                return Err(LedgerError::AmountOverflow);
            },
        };
        proof {
            self.party_index_is(
                party as int,
                party_kind,
                self.documents@[idx as int].doc.party_id@,
            );
        }
        if !completed {
            return Ok(
                ChangePlan {
                    total: total as i64,
                    delta: 0,
                    completed,
                    party,
                    balance: 0,
                    stock: Vec::new(),
                },
            );
        }
        let old_total: i64 = self.documents[idx].doc.total_amount;
        let delta: i128 = total - old_total as i128;
        if delta < -0x8000_0000_0000_0000 || delta > 0x7fff_ffff_ffff_ffff {
            return Err(LedgerError::AmountOverflow);
        }
        let sign: i64 = sign_of(self.documents[idx].doc.transaction_type);
        let stock = match plan_stock(&self.inventory, removed, added, sign) {
            Some(s) => s,
            None => {
                return Err(LedgerError::AmountOverflow);
            },
        };
        let balance: i128 = level_of(self.parties[party].credit_balance) as i128 + delta;
        if balance < -0x8000_0000_0000_0000 || balance > 0x7fff_ffff_ffff_ffff {
            return Err(LedgerError::AmountOverflow);
        }
        Ok(
            ChangePlan {
                total: total as i64,
                delta: delta as i64,
                completed,
                party,
                balance: balance as i64,
                stock,
            },
        )
    }

    /// Whether a plan holds the figures of the change.
    pub open spec fn plan_matches(
        self,
        plan: ChangePlan,
        i: int,
        total: int,
        removed: Seq<LineItem>,
        added: Seq<LineItem>,
    ) -> bool {
        let e = self.documents@[i];
        let sign = stock_sign(e.doc.transaction_type);
        &&& plan.total == total
        &&& plan.completed == (e.doc.status == DocumentStatus::Completed)
        &&& self.is_party(plan.party as int, e.doc.party_kind, e.doc.party_id@)
        &&& plan.completed ==> {
            &&& plan.delta == total - e.doc.total_amount
            &&& plan.balance == level(self.parties@[plan.party as int].credit_balance) + plan.delta
            &&& plan.stock@.len() == self.inventory@.len()
            &&& forall|k: int|
                0 <= k < self.inventory@.len() ==> #[trigger] plan.stock@[k] == if mentions(
                    removed,
                    self.inventory@[k].id@,
                ) || mentions(added, self.inventory@[k].id@) {
                    Some(new_stock(self.inventory@[k], removed, added, sign) as i64)
                } else {
                    self.inventory@[k].quantity_in_stock
                }
        }
    }
}

impl Ledger {
    /// Writes a planned change of line items: the line items of the document
    /// at place `idx` already being the new ones, it recomputes the total and
    /// the payment status from them and, where the document is completed,
    /// moves stock and the counterparty's balance and extends their trails.
    pub(crate) fn commit_change(
        &mut self,
        Ghost(pre): Ghost<Ledger>,
        idx: usize,
        plan: &ChangePlan,
        removed: &Vec<LineItem>,
        added: &Vec<LineItem>,
        removed_note: &String,
        added_tag: &str,
        added_note: &String,
    )
        requires
            pre.wf(),
            idx < pre.documents@.len(),
            old(self).documents@.len() == pre.documents@.len(),
            forall|k: int|
                0 <= k < pre.documents@.len() && k != idx ==> #[trigger] old(self).documents@[k]
                    == pre.documents@[k],
            old(self).documents@[idx as int].doc == pre.documents@[idx as int].doc,
            old(self).documents@[idx as int].payments == pre.documents@[idx as int].payments,
            old(self).parties == pre.parties,
            old(self).inventory == pre.inventory,
            old(self).order_history == pre.order_history,
            old(self).sale_history == pre.sale_history,
            old(self).transaction_history == pre.transaction_history,
            old(self).client_history == pre.client_history,
            old(self).supplier_history == pre.supplier_history,
            old(self).inventory_history == pre.inventory_history,
            pre.change_fits(
                idx as int,
                sum_totals(old(self).documents@[idx as int].items@),
                removed@,
                added@,
            ),
            pre.plan_matches(
                *plan,
                idx as int,
                sum_totals(old(self).documents@[idx as int].items@),
                removed@,
                added@,
            ),
        ensures
            pre.change_applied(
                *final(self),
                idx as int,
                old(self).documents@[idx as int].items@,
                removed@,
                added@,
                removed_note@,
                added_tag@,
                added_note@,
            ),
            final(self).documents@[idx as int].items == old(self).documents@[idx as int].items,
            final(self).order_history == old(self).order_history,
            final(self).sale_history == old(self).sale_history,
            final(self).transaction_history == old(self).transaction_history,
    {
        let total: i64 = match total_of(&self.documents[idx].items) {
            Some(t) => t,
            None => plan.total,
        };
        let paid: i64 = self.documents[idx].doc.paid_amount;
        self.documents[idx].doc.total_amount = total;
        self.documents[idx].doc.payment_status = derive_payment_status(paid, total);
        self.documents[idx].doc.updated_at = timestamp_now();
        if plan.completed {
            let flow = self.documents[idx].doc.transaction_type;
            let sign: i64 = sign_of(flow);
            let party_kind = self.documents[idx].doc.party_kind;
            let party_id = self.documents[idx].doc.party_id.clone();
            let id = self.documents[idx].doc.id.clone();
            let number = self.documents[idx].doc.number.clone();
            commit_stock(&mut self.inventory, &plan.stock);
            let ghost h0 = self.inventory_history@;
            push_stock_events(
                &mut self.inventory_history,
                removed,
                -sign,
                "Adjustment",
                removed_note,
                &id,
            );
            let ghost h1 = self.inventory_history@;
            push_stock_events(&mut self.inventory_history, added, sign, added_tag, added_note, &id);
            proof {
                stock_history_grew_twice(
                    h0,
                    h1,
                    self.inventory_history@,
                    stock_notes(removed@, -(sign as int), "Adjustment"@, removed_note@, id@),
                    stock_notes(added@, sign as int, added_tag@, added_note@, id@),
                );
            }
            self.parties[plan.party].credit_balance = Some(plan.balance);
            let ghost before_party = *self;
            if reaches_threshold(plan.delta) {
                let note = crate::effects::phrase(
                    "Document ",
                    &number,
                    " total recalculated (items changed)",
                );
                push_party_event(
                    self,
                    party_kind,
                    &party_id,
                    "Balance Adjusted",
                    note,
                    plan.delta,
                    None,
                );
            } else {
                proof {
                    party_history_unchanged(before_party, *self, party_kind);
                }
            }
            proof {
                let e = pre.documents@[idx as int];
                assert forall|k: int| 0 <= k < pre.parties@.len() implies #[trigger] self.parties@[k]
                    == if pre.parties@[k].kind == e.doc.party_kind && pre.parties@[k].id@
                    == e.doc.party_id@ {
                    crate::records::Party {
                        credit_balance: Some(
                            (level(pre.parties@[k].credit_balance) + plan.delta) as i64,
                        ),
                        ..pre.parties@[k]
                    }
                } else {
                    pre.parties@[k]
                } by {
                    if pre.is_party(k, e.doc.party_kind, e.doc.party_id@) {
                        pre.party_index_is(k, e.doc.party_kind, e.doc.party_id@);
                        pre.party_index_is(plan.party as int, e.doc.party_kind, e.doc.party_id@);
                    }
                }
            }
        }
    }
}

/// Whether the line items of a document after a change are well formed for
/// the document at place `i` of the ledger: each is well formed and belongs
/// to the document, no two share an identifier, and each catalog item that
/// one names is known.
pub open spec fn lines_fit(ledger: Ledger, i: int, items: Seq<LineItem>) -> bool {
    &&& forall|k: int|
        0 <= k < items.len() ==> (#[trigger] items[k]).valid() && items[k].document_id@
            == ledger.documents@[i].doc.id@
    &&& forall|k: int, l: int|
        #![trigger items[k], items[l]]
        0 <= k < l < items.len() ==> items[k].id@ != items[l].id@
    &&& forall|k: int|
        0 <= k < items.len() && (#[trigger] items[k]).item_id is Some ==> ledger.has_item(
            items[k].item_id->0@,
        )
}

/// A change of line items that leaves them well formed keeps the ledger's
/// invariant.
pub proof fn change_keeps_wf(
    pre: Ledger,
    post: Ledger,
    i: int,
    items: Seq<LineItem>,
    removed: Seq<LineItem>,
    added: Seq<LineItem>,
    removed_note: Seq<char>,
    added_tag: Seq<char>,
    added_note: Seq<char>,
)
    requires
        pre.wf(),
        0 <= i < pre.documents@.len(),
        lines_fit(pre, i, items),
        fits_i64(sum_totals(items)),
        pre.change_applied(post, i, items, removed, added, removed_note, added_tag, added_note),
    ensures
        post.wf(),
{
    let e = pre.documents@[i];
    assert(crate::ledger::same_party_keys(pre.parties@, post.parties@));
    assert(crate::ledger::same_item_keys(pre.inventory@, post.inventory@));
    assert(e.wf());
    assert(post.documents@[i].wf());
    assert forall|k: int| 0 <= k < post.documents@.len() implies (#[trigger] post.documents@[k]).wf() by {
        if k != i {
            assert(pre.documents@[k].wf());
        }
    }
    assert forall|k: int| 0 <= k < post.documents@.len() implies post.has_party(
        (#[trigger] post.documents@[k]).doc.party_kind,
        post.documents@[k].doc.party_id@,
    ) by {
        crate::ledger::party_stays_known(
            pre,
            post,
            pre.documents@[k].doc.party_kind,
            pre.documents@[k].doc.party_id@,
        );
    }
    assert forall|k: int, l: int|
        0 <= k < post.documents@.len() && 0 <= l < post.documents@[k].items@.len() && (
        #[trigger] post.documents@[k].items@[l]).item_id is Some implies pre.has_item(
        post.documents@[k].items@[l].item_id->0@,
    ) by {
        if k != i {
            assert(post.documents@[k] == pre.documents@[k]);
        } else {
            assert(items[l].item_id is Some);
        }
    }
    crate::ledger::wf_survives(pre, post);
}

/// A change that removes nothing and adds nothing always fits.
pub proof fn no_change_fits(ledger: Ledger, i: int)
    requires
        ledger.wf(),
        0 <= i < ledger.documents@.len(),
    ensures
        ledger.change_fits(
            i,
            sum_totals(ledger.documents@[i].items@),
            Seq::<LineItem>::empty(),
            Seq::<LineItem>::empty(),
        ),
{
    let e = ledger.documents@[i];
    assert(e.wf());
}

} // verus!
