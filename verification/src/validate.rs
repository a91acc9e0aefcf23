//! Checking, at run time, that a ledger put together outside the engine is
//! well formed.

use vstd::prelude::*;
use crate::kinds::check_kind_admits;
use crate::ledger::{DocumentEntry, Ledger};
use crate::money::derive_payment_status;
use crate::records::{paid_of, total_of, LineItem, Payment};

verus! {

/// Tells whether every line item is well formed, belongs to the document of
/// the given identifier, and has an identifier of its own.
pub fn lines_are_wf(items: &Vec<LineItem>, document_id: &String) -> (b: bool)
    ensures
        b == ({
            &&& forall|i: int|
                0 <= i < items@.len() ==> (#[trigger] items@[i]).valid() && items@[i].document_id@
                    == document_id@
            &&& forall|i: int, j: int|
                #![trigger items@[i], items@[j]]
                0 <= i < j < items@.len() ==> items@[i].id@ != items@[j].id@
        }),
{
    let mut j: usize = 0;
    while j < items.len()
        invariant
            j <= items@.len(),
            forall|i: int|
                0 <= i < j ==> (#[trigger] items@[i]).valid() && items@[i].document_id@
                    == document_id@,
            forall|i: int, k: int|
                #![trigger items@[i], items@[k]]
                0 <= i < k < j ==> items@[i].id@ != items@[k].id@,
        decreases items@.len() - j,
    {
        if !items[j].is_valid() || !(items[j].document_id == *document_id) {
            assert(!((#[trigger] items@[j as int]).valid() && items@[j as int].document_id@
                == document_id@));
            return false;
        }
        let mut i: usize = 0;
        while i < j
            invariant
                i <= j,
                j < items@.len(),
                forall|k: int| 0 <= k < i ==> (#[trigger] items@[k]).id@ != items@[j as int].id@,
            decreases j - i,
        {
            if items[i].id == items[j].id {
                assert(items@[i as int].id@ == items@[j as int].id@);
                return false;
            }
            i += 1;
        }
        j += 1;
    }
    true
}

/// Tells whether every payment is positive, belongs to the document of the
/// given identifier, and has an identifier of its own.
pub fn payments_are_wf(payments: &Vec<Payment>, document_id: &String) -> (b: bool)
    ensures
        b == ({
            &&& forall|i: int|
                0 <= i < payments@.len() ==> (#[trigger] payments@[i]).valid()
                    && payments@[i].document_id@ == document_id@
            &&& forall|i: int, j: int|
                #![trigger payments@[i], payments@[j]]
                0 <= i < j < payments@.len() ==> payments@[i].id@ != payments@[j].id@
        }),
{
    let mut j: usize = 0;
    while j < payments.len()
        invariant
            j <= payments@.len(),
            forall|i: int|
                0 <= i < j ==> (#[trigger] payments@[i]).valid() && payments@[i].document_id@
                    == document_id@,
            forall|i: int, k: int|
                #![trigger payments@[i], payments@[k]]
                0 <= i < k < j ==> payments@[i].id@ != payments@[k].id@,
        decreases payments@.len() - j,
    {
        if payments[j].amount <= 0 || !(payments[j].document_id == *document_id) {
            assert(!((#[trigger] payments@[j as int]).valid() && payments@[j as int].document_id@
                == document_id@));
            return false;
        }
        let mut i: usize = 0;
        while i < j
            invariant
                i <= j,
                j < payments@.len(),
                forall|k: int|
                    0 <= k < i ==> (#[trigger] payments@[k]).id@ != payments@[j as int].id@,
            decreases j - i,
        {
            if payments[i].id == payments[j].id {
                assert(payments@[i as int].id@ == payments@[j as int].id@);
                return false;
            }
            i += 1;
        }
        j += 1;
    }
    true
}

impl DocumentEntry {
    /// Tells whether the document with its line items and payments is well
    /// formed.
    pub fn is_wf(&self) -> (b: bool)
        ensures
            b == self.wf(),
    {
        if !check_kind_admits(self.doc.kind, self.doc.transaction_type, self.doc.party_kind) {
            return false;
        }
        if !lines_are_wf(&self.items, &self.doc.id) {
            return false;
        }
        if !payments_are_wf(&self.payments, &self.doc.id) {
            return false;
        }
        match total_of(&self.items) {
            Some(t) => {
                if t != self.doc.total_amount {
                    return false;
                }
            },
            None => {
                return false;
            },
        }
        match paid_of(&self.payments) {
            Some(p) => {
                if p != self.doc.paid_amount {
                    return false;
                }
            },
            None => {
                return false;
            },
        }
        self.doc.payment_status == derive_payment_status(
            self.doc.paid_amount,
            self.doc.total_amount,
        )
    }
}

impl Ledger {
    /// Tells whether no two documents of one kind share an identifier or a
    /// number.
    pub fn documents_are_distinct(&self) -> (b: bool)
        ensures
            b == self.documents_distinct(),
    {
        let mut j: usize = 0;
        while j < self.documents.len()
            invariant
                j <= self.documents@.len(),
                forall|i: int, k: int|
                    #![trigger self.documents@[i], self.documents@[k]]
                    0 <= i < k < j && self.documents@[i].doc.kind == self.documents@[k].doc.kind
                        ==> self.documents@[i].doc.id@ != self.documents@[k].doc.id@
                        && self.documents@[i].doc.number@ != self.documents@[k].doc.number@,
            decreases self.documents@.len() - j,
        {
            let mut i: usize = 0;
            while i < j
                invariant
                    i <= j,
                    j < self.documents@.len(),
                    forall|k: int|
                        0 <= k < i && (#[trigger] self.documents@[k]).doc.kind
                            == self.documents@[j as int].doc.kind ==> self.documents@[k].doc.id@
                            != self.documents@[j as int].doc.id@ && self.documents@[k].doc.number@
                            != self.documents@[j as int].doc.number@,
                decreases j - i,
            {
                if self.documents[i].doc.kind == self.documents[j].doc.kind && (
                self.documents[i].doc.id == self.documents[j].doc.id
                    || self.documents[i].doc.number == self.documents[j].doc.number) {
                    assert(!(self.documents@[i as int].doc.id@ != self.documents@[j as int].doc.id@
                        && self.documents@[i as int].doc.number@
                        != self.documents@[j as int].doc.number@));
                    return false;
                }
                i += 1;
            }
            j += 1;
        }
        true
    }

    /// Tells whether no two counterparties of one sort share an identifier.
    pub fn parties_are_distinct(&self) -> (b: bool)
        ensures
            b == self.parties_distinct(),
    {
        let mut j: usize = 0;
        while j < self.parties.len()
            invariant
                j <= self.parties@.len(),
                forall|i: int, k: int|
                    #![trigger self.parties@[i], self.parties@[k]]
                    0 <= i < k < j && self.parties@[i].kind == self.parties@[k].kind
                        ==> self.parties@[i].id@ != self.parties@[k].id@,
            decreases self.parties@.len() - j,
        {
            let mut i: usize = 0;
            while i < j
                invariant
                    i <= j,
                    j < self.parties@.len(),
                    forall|k: int|
                        0 <= k < i && (#[trigger] self.parties@[k]).kind
                            == self.parties@[j as int].kind ==> self.parties@[k].id@
                            != self.parties@[j as int].id@,
                decreases j - i,
            {
                if self.parties[i].kind == self.parties[j].kind && self.parties[i].id
                    == self.parties[j].id {
                    assert(self.parties@[i as int].id@ == self.parties@[j as int].id@);
                    return false;
                }
                i += 1;
            }
            j += 1;
        }
        true
    }

    /// Tells whether no two catalog items share an identifier.
    pub fn inventory_is_distinct(&self) -> (b: bool)
        ensures
            b == self.inventory_distinct(),
    {
        let mut j: usize = 0;
        while j < self.inventory.len()
            invariant
                j <= self.inventory@.len(),
                forall|i: int, k: int|
                    #![trigger self.inventory@[i], self.inventory@[k]]
                    0 <= i < k < j ==> self.inventory@[i].id@ != self.inventory@[k].id@,
            decreases self.inventory@.len() - j,
        {
            let mut i: usize = 0;
            while i < j
                invariant
                    i <= j,
                    j < self.inventory@.len(),
                    forall|k: int|
                        0 <= k < i ==> (#[trigger] self.inventory@[k]).id@
                            != self.inventory@[j as int].id@,
                decreases j - i,
            {
                if self.inventory[i].id == self.inventory[j].id {
                    assert(self.inventory@[i as int].id@ == self.inventory@[j as int].id@);
                    return false;
                }
                i += 1;
            }
            j += 1;
        }
        true
    }

    /// Tells whether every document names a counterparty that the ledger
    /// holds, and every line item that names a catalog item names one that
    /// the ledger holds.
    pub fn references_are_resolved(&self) -> (b: bool)
        ensures
            b == self.references_resolve(),
    {
        let mut i: usize = 0;
        while i < self.documents.len()
            invariant
                i <= self.documents@.len(),
                forall|d: int|
                    0 <= d < i ==> self.has_party(
                        (#[trigger] self.documents@[d]).doc.party_kind,
                        self.documents@[d].doc.party_id@,
                    ),
                forall|d: int, k: int|
                    0 <= d < i && 0 <= k < self.documents@[d].items@.len() && (
                    #[trigger] self.documents@[d].items@[k]).item_id is Some ==> self.has_item(
                        self.documents@[d].items@[k].item_id->0@,
                    ),
            decreases self.documents@.len() - i,
        {
            let e = &self.documents[i];
            if self.find_party(e.doc.party_kind, &e.doc.party_id).is_none() {
                assert(!self.has_party(
                    (#[trigger] self.documents@[i as int]).doc.party_kind,
                    self.documents@[i as int].doc.party_id@,
                ));
                return false;
            }
            let mut k: usize = 0;
            while k < e.items.len()
                invariant
                    k <= e.items@.len(),
                    i < self.documents@.len(),
                    *e == self.documents@[i as int],
                    forall|l: int|
                        0 <= l < k && (#[trigger] e.items@[l]).item_id is Some ==> self.has_item(
                            e.items@[l].item_id->0@,
                        ),
                decreases e.items@.len() - k,
            {
                match &e.items[k].item_id {
                    Some(c) => {
                        if self.find_item(c).is_none() {
                            assert((#[trigger] self.documents@[i as int].items@[k as int]).item_id
                                is Some);
                            return false;
                        }
                    },
                    None => {},
                }
                k += 1;
            }
            i += 1;
        }
        true
    }

    /// Tells whether the ledger is well formed.  A ledger that was put
    /// together outside the engine is checked with this before the engine
    /// works on it.
    pub fn is_consistent(&self) -> (b: bool)
        ensures
            b == self.wf(),
    {
        let mut i: usize = 0;
        while i < self.documents.len()
            invariant
                i <= self.documents@.len(),
                forall|d: int| 0 <= d < i ==> (#[trigger] self.documents@[d]).wf(),
            decreases self.documents@.len() - i,
        {
            if !self.documents[i].is_wf() {
                return false;
            }
            i += 1;
        }
        self.documents_are_distinct() && self.parties_are_distinct()
            && self.inventory_is_distinct() && self.references_are_resolved()
    }
}

} // verus!
