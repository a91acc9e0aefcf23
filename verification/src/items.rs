//! The line-item ledger: adding, changing and removing the line items of a
//! document.

use vstd::prelude::*;
use crate::effects::{
    document_history_grew, document_history_unchanged, phrase, push_document_event, DocNote,
};
use crate::error::LedgerError;
use crate::kinds::DocumentKind;
use crate::ledger::{find_line, has_line, line_index, line_index_is, Ledger};
use crate::posting::{
    change_keeps_wf, lines_fit, no_change_fits, sum_totals_push, sum_totals_remove,
    sum_totals_update,
};
use crate::records::{sum_totals, LineItem};
use crate::wording::{stock_tag, stock_tag_text};

verus! {

/// What the catalog's trail says of a line added to a completed document.
pub open spec fn addition_note(number: Seq<char>) -> Seq<char> {
    "Added item to completed document "@ + number
}

/// What the catalog's trail says of a line removed from a completed document.
pub open spec fn removal_note(number: Seq<char>) -> Seq<char> {
    "Removed item from completed document "@ + number
}

/// What the catalog's trail says of a line changed in a completed document.
pub open spec fn update_note(number: Seq<char>) -> Seq<char> {
    "Updated item in completed document "@ + number
}

/// The one line item, as a run.
pub open spec fn one(item: LineItem) -> Seq<LineItem> {
    Seq::<LineItem>::empty().push(item)
}

/// No line items.
pub open spec fn no_lines() -> Seq<LineItem> {
    Seq::<LineItem>::empty()
}

/// One note of a document's trail, with nobody named as its author.
pub open spec fn one_note(id: Seq<char>, event_type: Seq<char>, details: Seq<char>) -> Seq<
    DocNote,
> {
    seq![DocNote { document_id: id, event_type, details, changed_by: None }]
}

impl Ledger {
    /// What `add_item` does.  It refuses, in this order: a line item whose
    /// document the ledger does not hold; one that is not well formed; one
    /// whose identifier another line of the document has; one that names an
    /// unknown catalog item; one that would take a figure out of range.
    /// Otherwise the line joins the document, and the document's trail says so.
    pub open spec fn adds_item(
        self,
        kind: DocumentKind,
        item: LineItem,
        post: Ledger,
        r: Result<(), LedgerError>,
    ) -> bool {
        if !self.has_document(kind, item.document_id@) {
            r == Err::<(), LedgerError>(LedgerError::DocumentNotFound) && post == self
        } else {
            let i = self.document_index(kind, item.document_id@);
            let e = self.documents@[i];
            if !item.valid() {
                r == Err::<(), LedgerError>(LedgerError::InvalidItem) && post == self
            } else if has_line(e.items@, item.id@) {
                r == Err::<(), LedgerError>(LedgerError::DuplicateId) && post == self
            } else if item.item_id is Some && !self.has_item(item.item_id->0@) {
                r == Err::<(), LedgerError>(LedgerError::CatalogItemNotFound) && post == self
            } else if !self.change_fits(
                i,
                sum_totals(e.items@.push(item)),
                no_lines(),
                one(item),
            ) {
                r == Err::<(), LedgerError>(LedgerError::AmountOverflow) && post == self
            } else {
                &&& r == Ok::<(), LedgerError>(())
                &&& self.change_applied(
                    post,
                    i,
                    e.items@.push(item),
                    no_lines(),
                    one(item),
                    addition_note(e.doc.number@),
                    stock_tag(e.doc.transaction_type),
                    addition_note(e.doc.number@),
                )
                &&& document_history_grew(
                    self,
                    post,
                    kind,
                    one_note(e.doc.id@, "item_added"@, "Added item: "@ + item.item_name@),
                )
            }
        }
    }

    /// Adds a line item to the document that it names.
    pub fn add_item(&mut self, kind: DocumentKind, item: LineItem) -> (r: Result<(), LedgerError>)
        requires
            old(self).wf(),
        ensures
            final(self).wf(),
            old(self).adds_item(kind, item, *final(self), r),
    {
        let idx: usize = match self.find_document(kind, &item.document_id) {
            Some(i) => i,
            None => {
                return Err(LedgerError::DocumentNotFound);
            },
        };
        proof {
            self.document_index_is(idx as int, kind, item.document_id@);
        }
        if !item.is_valid() {
            return Err(LedgerError::InvalidItem);
        }
        if find_line(&self.documents[idx].items, &item.id).is_some() {
            return Err(LedgerError::DuplicateId);
        }
        match &item.item_id {
            Some(c) => {
                if self.find_item(c).is_none() {
                    return Err(LedgerError::CatalogItemNotFound);
                }
            },
            None => {},
        }
        let ghost pre = *self;
        let ghost e = pre.documents@[idx as int];
        let ghost items = e.items@.push(item);
        proof {
            sum_totals_push(e.items@, item);
            assert(e.wf());
        }
        let total: i128 = self.documents[idx].doc.total_amount as i128 + item.total_price as i128;
        let removed: Vec<LineItem> = Vec::new();
        let mut added: Vec<LineItem> = Vec::new();
        added.push(item.copy());
        let plan = match self.plan_change(idx, total, &removed, &added) {
            Ok(p) => p,
            Err(_) => {
                return Err(LedgerError::AmountOverflow);
            },
        };
        let flow = self.documents[idx].doc.transaction_type;
        let number = self.documents[idx].doc.number.clone();
        let id = self.documents[idx].doc.id.clone();
        let name = item.item_name.clone();
        proof {
            reveal_strlit("");
        }
        let note = phrase("Added item to completed document ", &number, "");
        assert(note@ =~= addition_note(number@));
        self.documents[idx].items.push(item);
        self.commit_change(
            Ghost(pre),
            idx,
            &plan,
            &removed,
            &added,
            &note,
            stock_tag_text(flow),
            &note,
        );
        let details = phrase("Added item: ", &name, "");
        assert(details@ =~= "Added item: "@ + name@);
        push_document_event(self, kind, &id, "item_added", details, None);
        proof {
            assert(lines_fit(pre, idx as int, items)) by {
                assert forall|k: int| 0 <= k < items.len() implies (#[trigger] items[k]).valid()
                    && items[k].document_id@ == e.doc.id@ by {
                    if k < e.items@.len() {
                        assert(items[k] == e.items@[k]);
                    }
                }
                assert forall|k: int, l: int|
                    #![trigger items[k], items[l]]
                    0 <= k < l < items.len() implies items[k].id@ != items[l].id@ by {
                    assert(items[k] == e.items@[k]);
                    if l < e.items@.len() {
                        assert(items[l] == e.items@[l]);
                    }
                }
                assert forall|k: int|
                    0 <= k < items.len() && (#[trigger] items[k]).item_id is Some implies pre.has_item(
                    items[k].item_id->0@,
                ) by {
                    if k < e.items@.len() {
                        assert(items[k] == e.items@[k]);
                        assert(e.items@[k].item_id is Some);
                    }
                }
            }
            change_keeps_wf(
                pre,
                *self,
                idx as int,
                items,
                no_lines(),
                one(item),
                addition_note(number@),
                stock_tag(flow),
                addition_note(number@),
            );
        }
        Ok(())
    }

    /// What `remove_item` does.  It refuses a document that the ledger does
    /// not hold.  Where the document has no line of the identifier, nothing
    /// moves, the total is recomputed all the same, and the document's trail
    /// names an unknown item.  Otherwise it refuses a removal that would
    /// take a figure out of range, or takes the line out and says so in the
    /// document's trail.
    pub open spec fn removes_item(
        self,
        kind: DocumentKind,
        item_id: Seq<char>,
        document_id: Seq<char>,
        post: Ledger,
        r: Result<(), LedgerError>,
    ) -> bool {
        if !self.has_document(kind, document_id) {
            r == Err::<(), LedgerError>(LedgerError::DocumentNotFound) && post == self
        } else {
            let i = self.document_index(kind, document_id);
            let e = self.documents@[i];
            if !has_line(e.items@, item_id) {
                &&& r == Ok::<(), LedgerError>(())
                &&& self.change_applied(
                    post,
                    i,
                    e.items@,
                    no_lines(),
                    no_lines(),
                    removal_note(e.doc.number@),
                    "Adjustment"@,
                    removal_note(e.doc.number@),
                )
                &&& document_history_grew(
                    self,
                    post,
                    kind,
                    one_note(e.doc.id@, "item_removed"@, "Removed item: Unknown Item"@),
                )
            } else {
                let j = line_index(e.items@, item_id);
                let gone = e.items@[j];
                if !self.change_fits(i, sum_totals(e.items@.remove(j)), one(gone), no_lines()) {
                    r == Err::<(), LedgerError>(LedgerError::AmountOverflow) && post == self
                } else {
                    &&& r == Ok::<(), LedgerError>(())
                    &&& self.change_applied(
                        post,
                        i,
                        e.items@.remove(j),
                        one(gone),
                        no_lines(),
                        removal_note(e.doc.number@),
                        "Adjustment"@,
                        removal_note(e.doc.number@),
                    )
                    &&& document_history_grew(
                        self,
                        post,
                        kind,
                        one_note(e.doc.id@, "item_removed"@, "Removed item: "@ + gone.item_name@),
                    )
                }
            }
        }
    }

    /// Removes a line item from a document.
    pub fn remove_item(&mut self, kind: DocumentKind, item_id: &String, document_id: &String) -> (r:
        Result<(), LedgerError>)
        requires
            old(self).wf(),
        ensures
            final(self).wf(),
            old(self).removes_item(kind, item_id@, document_id@, *final(self), r),
    {
        let idx: usize = match self.find_document(kind, document_id) {
            Some(i) => i,
            None => {
                return Err(LedgerError::DocumentNotFound);
            },
        };
        proof {
            self.document_index_is(idx as int, kind, document_id@);
            reveal_strlit("");
        }
        let ghost pre = *self;
        let ghost e = pre.documents@[idx as int];
        assert(e.wf());
        let number = self.documents[idx].doc.number.clone();
        let id = self.documents[idx].doc.id.clone();
        let note = phrase("Removed item from completed document ", &number, "");
        assert(note@ =~= removal_note(number@));
        let removed_none: Vec<LineItem> = Vec::new();
        let added: Vec<LineItem> = Vec::new();
        let j: usize = match find_line(&self.documents[idx].items, item_id) {
            Some(j) => j,
            None => {
                proof {
                    no_change_fits(pre, idx as int);
                }
                let total: i128 = self.documents[idx].doc.total_amount as i128;
                let plan = match self.plan_change(idx, total, &removed_none, &added) {
                    Ok(p) => p,
                    Err(_) => {
                        return Err(LedgerError::AmountOverflow);
                    },
                };
                self.commit_change(
                    Ghost(pre),
                    idx,
                    &plan,
                    &removed_none,
                    &added,
                    &note,
                    "Adjustment",
                    &note,
                );
                push_document_event(
                    self,
                    kind,
                    &id,
                    "item_removed",
                    String::from_str("Removed item: Unknown Item"),
                    None,
                );
                proof {
                    assert(lines_fit(pre, idx as int, e.items@));
                    change_keeps_wf(
                        pre,
                        *self,
                        idx as int,
                        e.items@,
                        no_lines(),
                        no_lines(),
                        removal_note(number@),
                        "Adjustment"@,
                        removal_note(number@),
                    );
                }
                return Ok(());
            },
        };
        proof {
            line_index_is(e.items@, j as int, item_id@);
            sum_totals_remove(e.items@, j as int);
        }
        let gone = self.documents[idx].items[j].copy();
        let total: i128 = self.documents[idx].doc.total_amount as i128 - gone.total_price as i128;
        let mut removed: Vec<LineItem> = Vec::new();
        removed.push(gone.copy());
        let plan = match self.plan_change(idx, total, &removed, &added) {
            Ok(p) => p,
            Err(_) => {
                return Err(LedgerError::AmountOverflow);
            },
        };
        let _ = self.documents[idx].items.remove(j);
        let ghost items = e.items@.remove(j as int);
        self.commit_change(Ghost(pre), idx, &plan, &removed, &added, &note, "Adjustment", &note);
        let details = phrase("Removed item: ", &gone.item_name, "");
        assert(details@ =~= "Removed item: "@ + gone.item_name@);
        push_document_event(self, kind, &id, "item_removed", details, None);
        proof {
            assert(lines_fit(pre, idx as int, items)) by {
                assert forall|k: int| 0 <= k < items.len() implies (#[trigger] items[k]).valid()
                    && items[k].document_id@ == e.doc.id@ by {
                    if k < j {
                        assert(items[k] == e.items@[k]);
                    } else {
                        assert(items[k] == e.items@[k + 1]);
                    }
                }
                assert forall|k: int, l: int|
                    #![trigger items[k], items[l]]
                    0 <= k < l < items.len() implies items[k].id@ != items[l].id@ by {
                    let k0 = if k < j { k } else { k + 1 };
                    let l0 = if l < j { l } else { l + 1 };
                    assert(items[k] == e.items@[k0]);
                    assert(items[l] == e.items@[l0]);
                }
                assert forall|k: int|
                    0 <= k < items.len() && (#[trigger] items[k]).item_id is Some implies pre.has_item(
                    items[k].item_id->0@,
                ) by {
                    let k0 = if k < j { k } else { k + 1 };
                    assert(items[k] == e.items@[k0]);
                    assert(e.items@[k0].item_id is Some);
                }
            }
            change_keeps_wf(
                pre,
                *self,
                idx as int,
                items,
                one(gone),
                no_lines(),
                removal_note(number@),
                "Adjustment"@,
                removal_note(number@),
            );
        }
        Ok(())
    }

    /// What `update_item` does.  It refuses, in this order: a line item whose
    /// document the ledger does not hold; one that is not well formed.
    /// Where the document has no line of the identifier, nothing moves and
    /// the total is recomputed all the same.  Otherwise it refuses a line
    /// that names an unknown catalog item and one that would take a figure
    /// out of range, or puts the line in the place of the old one and says so
    /// in the document's trail.
    pub open spec fn updates_item(
        self,
        kind: DocumentKind,
        item: LineItem,
        post: Ledger,
        r: Result<(), LedgerError>,
    ) -> bool {
        if !self.has_document(kind, item.document_id@) {
            r == Err::<(), LedgerError>(LedgerError::DocumentNotFound) && post == self
        } else {
            let i = self.document_index(kind, item.document_id@);
            let e = self.documents@[i];
            if !item.valid() {
                r == Err::<(), LedgerError>(LedgerError::InvalidItem) && post == self
            } else if !has_line(e.items@, item.id@) {
                &&& r == Ok::<(), LedgerError>(())
                &&& self.change_applied(
                    post,
                    i,
                    e.items@,
                    no_lines(),
                    no_lines(),
                    update_note(e.doc.number@),
                    "Adjustment"@,
                    update_note(e.doc.number@),
                )
                &&& document_history_grew(self, post, kind, Seq::<DocNote>::empty())
            } else {
                let j = line_index(e.items@, item.id@);
                let gone = e.items@[j];
                if item.item_id is Some && !self.has_item(item.item_id->0@) {
                    r == Err::<(), LedgerError>(LedgerError::CatalogItemNotFound) && post == self
                } else if !self.change_fits(
                    i,
                    sum_totals(e.items@.update(j, item)),
                    one(gone),
                    one(item),
                ) {
                    r == Err::<(), LedgerError>(LedgerError::AmountOverflow) && post == self
                } else {
                    &&& r == Ok::<(), LedgerError>(())
                    &&& self.change_applied(
                        post,
                        i,
                        e.items@.update(j, item),
                        one(gone),
                        one(item),
                        update_note(e.doc.number@),
                        "Adjustment"@,
                        update_note(e.doc.number@),
                    )
                    &&& document_history_grew(
                        self,
                        post,
                        kind,
                        one_note(e.doc.id@, "updated"@, "Updated item: "@ + item.item_name@),
                    )
                }
            }
        }
    }

    /// Puts a line item in the place of the one that has its identifier.
    pub fn update_item(&mut self, kind: DocumentKind, item: LineItem) -> (r: Result<
        (),
        LedgerError,
    >)
        requires
            old(self).wf(),
        ensures
            final(self).wf(),
            old(self).updates_item(kind, item, *final(self), r),
    {
        let idx: usize = match self.find_document(kind, &item.document_id) {
            Some(i) => i,
            None => {
                return Err(LedgerError::DocumentNotFound);
            },
        };
        proof {
            self.document_index_is(idx as int, kind, item.document_id@);
            reveal_strlit("");
        }
        if !item.is_valid() {
            return Err(LedgerError::InvalidItem);
        }
        let ghost pre = *self;
        let ghost e = pre.documents@[idx as int];
        assert(e.wf());
        let number = self.documents[idx].doc.number.clone();
        let id = self.documents[idx].doc.id.clone();
        let note = phrase("Updated item in completed document ", &number, "");
        assert(note@ =~= update_note(number@));
        let j: usize = match find_line(&self.documents[idx].items, &item.id) {
            Some(j) => j,
            None => {
                proof {
                    no_change_fits(pre, idx as int);
                }
                let none: Vec<LineItem> = Vec::new();
                let total: i128 = self.documents[idx].doc.total_amount as i128;
                let plan = match self.plan_change(idx, total, &none, &none) {
                    Ok(p) => p,
                    Err(_) => {
                        return Err(LedgerError::AmountOverflow);
                    },
                };
                self.commit_change(
                    Ghost(pre),
                    idx,
                    &plan,
                    &none,
                    &none,
                    &note,
                    "Adjustment",
                    &note,
                );
                proof {
                    document_history_unchanged(pre, *self, kind);
                    assert(lines_fit(pre, idx as int, e.items@));
                    change_keeps_wf(
                        pre,
                        *self,
                        idx as int,
                        e.items@,
                        no_lines(),
                        no_lines(),
                        update_note(number@),
                        "Adjustment"@,
                        update_note(number@),
                    );
                }
                return Ok(());
            },
        };
        proof {
            line_index_is(e.items@, j as int, item.id@);
            sum_totals_update(e.items@, j as int, item);
        }
        match &item.item_id {
            Some(c) => {
                if self.find_item(c).is_none() {
                    return Err(LedgerError::CatalogItemNotFound);
                }
            },
            None => {},
        }
        let gone = self.documents[idx].items[j].copy();
        let total: i128 = self.documents[idx].doc.total_amount as i128 - gone.total_price as i128
            + item.total_price as i128;
        let mut removed: Vec<LineItem> = Vec::new();
        removed.push(gone);
        let mut added: Vec<LineItem> = Vec::new();
        added.push(item.copy());
        let plan = match self.plan_change(idx, total, &removed, &added) {
            Ok(p) => p,
            Err(_) => {
                return Err(LedgerError::AmountOverflow);
            },
        };
        let name = item.item_name.clone();
        self.documents[idx].items[j] = item;
        let ghost items = e.items@.update(j as int, item);
        self.commit_change(Ghost(pre), idx, &plan, &removed, &added, &note, "Adjustment", &note);
        let details = phrase("Updated item: ", &name, "");
        assert(details@ =~= "Updated item: "@ + name@);
        push_document_event(self, kind, &id, "updated", details, None);
        proof {
            assert(lines_fit(pre, idx as int, items)) by {
                assert forall|k: int| 0 <= k < items.len() implies (#[trigger] items[k]).valid()
                    && items[k].document_id@ == e.doc.id@ by {
                    if k != j {
                        assert(items[k] == e.items@[k]);
                    }
                }
                assert forall|k: int, l: int|
                    #![trigger items[k], items[l]]
                    0 <= k < l < items.len() implies items[k].id@ != items[l].id@ by {
                    assert(e.items@[k].id@ != e.items@[l].id@);
                    assert(items[k].id@ == e.items@[k].id@);
                    assert(items[l].id@ == e.items@[l].id@);
                }
                assert forall|k: int|
                    0 <= k < items.len() && (#[trigger] items[k]).item_id is Some implies pre.has_item(
                    items[k].item_id->0@,
                ) by {
                    if k != j {
                        assert(items[k] == e.items@[k]);
                        assert(e.items@[k].item_id is Some);
                    }
                }
            }
            change_keeps_wf(
                pre,
                *self,
                idx as int,
                items,
                one(gone),
                one(item),
                update_note(number@),
                "Adjustment"@,
                update_note(number@),
            );
        }
        Ok(())
    }
}

} // verus!
