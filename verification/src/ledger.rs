//! The ledger: documents with their line items and payments, counterparties,
//! catalog items, and the audit trails of all three.

use vstd::prelude::*;
use crate::kinds::{kind_admits, DocumentKind, PartyKind};
use crate::money::payment_status_of;
use crate::records::{
    sum_payments, sum_totals, ClientHistoryEvent, Document, InventoryHistoryEvent,
    InventoryItem, LineItem, OrderHistory, Party, Payment, SaleHistory, SupplierHistoryEvent,
    TransactionHistory,
};

verus! {

/// A document as the ledger holds it: the header with the line items and the
/// payments that belong to it.
#[derive(Debug)]
pub struct DocumentEntry {
    pub doc: Document,
    pub items: Vec<LineItem>,
    pub payments: Vec<Payment>,
}

/// The whole state that the engine keeps consistent.
#[derive(Debug)]
pub struct Ledger {
    pub documents: Vec<DocumentEntry>,
    pub parties: Vec<Party>,
    pub inventory: Vec<InventoryItem>,
    pub order_history: Vec<OrderHistory>,
    pub sale_history: Vec<SaleHistory>,
    pub transaction_history: Vec<TransactionHistory>,
    pub client_history: Vec<ClientHistoryEvent>,
    pub supplier_history: Vec<SupplierHistoryEvent>,
    pub inventory_history: Vec<InventoryHistoryEvent>,
}

impl DocumentEntry {
    /// Whether every line item is well formed, belongs to this document and
    /// has an identifier of its own.
    pub open spec fn items_wf(self) -> bool {
        &&& forall|i: int|
            0 <= i < self.items@.len() ==> (#[trigger] self.items@[i]).valid()
                && self.items@[i].document_id@ == self.doc.id@
        &&& forall|i: int, j: int|
            #![trigger self.items@[i], self.items@[j]]
            0 <= i < j < self.items@.len() ==> self.items@[i].id@ != self.items@[j].id@
    }

    /// Whether every payment is positive, belongs to this document and has an
    /// identifier of its own.
    pub open spec fn payments_wf(self) -> bool {
        &&& forall|i: int|
            0 <= i < self.payments@.len() ==> (#[trigger] self.payments@[i]).valid()
                && self.payments@[i].document_id@ == self.doc.id@
        &&& forall|i: int, j: int|
            #![trigger self.payments@[i], self.payments@[j]]
            0 <= i < j < self.payments@.len() ==> self.payments@[i].id@ != self.payments@[j].id@
    }

    /// Whether the derived fields of the header agree with their sources: the
    /// total is the sum of the line items, the paid amount is the sum of the
    /// payments, and the payment status follows from the two.
    pub open spec fn derived_wf(self) -> bool {
        &&& self.doc.total_amount == sum_totals(self.items@)
        &&& self.doc.paid_amount == sum_payments(self.payments@)
        &&& self.doc.payment_status == payment_status_of(
            self.doc.paid_amount as int,
            self.doc.total_amount as int,
        )
    }

    /// The invariant of a document with its line items and payments.
    pub open spec fn wf(self) -> bool {
        &&& kind_admits(self.doc.kind, self.doc.transaction_type, self.doc.party_kind)
        &&& self.items_wf()
        &&& self.payments_wf()
        &&& self.derived_wf()
    }
}

impl Ledger {
    /// Whether the document at index `i` is the one of this kind and identifier.
    pub open spec fn is_document(self, i: int, kind: DocumentKind, id: Seq<char>) -> bool {
        &&& 0 <= i < self.documents@.len()
        &&& self.documents@[i].doc.kind == kind
        &&& self.documents@[i].doc.id@ == id
    }

    /// Whether the ledger holds a document of this kind and identifier.
    pub open spec fn has_document(self, kind: DocumentKind, id: Seq<char>) -> bool {
        exists|i: int| self.is_document(i, kind, id)
    }

    /// Whether the counterparty at index `i` is the one of this sort and identifier.
    pub open spec fn is_party(self, i: int, kind: PartyKind, id: Seq<char>) -> bool {
        &&& 0 <= i < self.parties@.len()
        &&& self.parties@[i].kind == kind
        &&& self.parties@[i].id@ == id
    }

    /// Whether the ledger holds a counterparty of this sort and identifier.
    pub open spec fn has_party(self, kind: PartyKind, id: Seq<char>) -> bool {
        exists|i: int| self.is_party(i, kind, id)
    }

    /// Whether the catalog item at index `i` has this identifier.
    pub open spec fn is_item(self, i: int, id: Seq<char>) -> bool {
        &&& 0 <= i < self.inventory@.len()
        &&& self.inventory@[i].id@ == id
    }

    /// Whether the ledger holds a catalog item of this identifier.
    pub open spec fn has_item(self, id: Seq<char>) -> bool {
        exists|i: int| self.is_item(i, id)
    }

    /// Whether some document of the kind has this number.
    pub open spec fn number_taken(self, kind: DocumentKind, number: Seq<char>) -> bool {
        exists|i: int|
            0 <= i < self.documents@.len() && (#[trigger] self.documents@[i]).doc.kind == kind
                && self.documents@[i].doc.number@ == number
    }

    /// Whether no two documents of one kind share an identifier or a number.
    pub open spec fn documents_distinct(self) -> bool {
        forall|i: int, j: int|
            #![trigger self.documents@[i], self.documents@[j]]
            0 <= i < j < self.documents@.len() && self.documents@[i].doc.kind
                == self.documents@[j].doc.kind ==> self.documents@[i].doc.id@
                != self.documents@[j].doc.id@ && self.documents@[i].doc.number@
                != self.documents@[j].doc.number@
    }

    /// Whether no two counterparties of one sort share an identifier.
    pub open spec fn parties_distinct(self) -> bool {
        forall|i: int, j: int|
            #![trigger self.parties@[i], self.parties@[j]]
            0 <= i < j < self.parties@.len() && self.parties@[i].kind == self.parties@[j].kind
                ==> self.parties@[i].id@ != self.parties@[j].id@
    }

    /// Whether no two catalog items share an identifier.
    pub open spec fn inventory_distinct(self) -> bool {
        forall|i: int, j: int|
            #![trigger self.inventory@[i], self.inventory@[j]]
            0 <= i < j < self.inventory@.len() ==> self.inventory@[i].id@ != self.inventory@[j].id@
    }

    /// Whether every document names a counterparty that the ledger holds, and
    /// every line item that names a catalog item names one that the ledger
    /// holds.
    pub open spec fn references_resolve(self) -> bool {
        &&& forall|i: int|
            0 <= i < self.documents@.len() ==> self.has_party(
                (#[trigger] self.documents@[i]).doc.party_kind,
                self.documents@[i].doc.party_id@,
            )
        &&& forall|i: int, k: int|
            0 <= i < self.documents@.len() && 0 <= k < self.documents@[i].items@.len() && (
            #[trigger] self.documents@[i].items@[k]).item_id is Some ==> self.has_item(
                self.documents@[i].items@[k].item_id->0@,
            )
    }

    /// The invariant of the ledger.  Every operation of the engine keeps it.
    pub open spec fn wf(self) -> bool {
        &&& forall|i: int| 0 <= i < self.documents@.len() ==> (#[trigger] self.documents@[i]).wf()
        &&& self.documents_distinct()
        &&& self.parties_distinct()
        &&& self.inventory_distinct()
        &&& self.references_resolve()
    }

    /// The place of the document of this kind and identifier, where the
    /// ledger holds one.
    pub open spec fn document_index(self, kind: DocumentKind, id: Seq<char>) -> int {
        choose|i: int| self.is_document(i, kind, id)
    }

    /// The place of the counterparty of this sort and identifier, where the
    /// ledger holds one.
    pub open spec fn party_index(self, kind: PartyKind, id: Seq<char>) -> int {
        choose|i: int| self.is_party(i, kind, id)
    }

    /// Where documents are distinct, a document is found at one place only.
    pub proof fn document_index_is(self, i: int, kind: DocumentKind, id: Seq<char>)
        requires
            self.documents_distinct(),
            self.is_document(i, kind, id),
        ensures
            self.document_index(kind, id) == i,
            self.has_document(kind, id),
    {
        let j = self.document_index(kind, id);
        assert(self.is_document(j, kind, id));
        if i < j {
            assert(self.documents@[i].doc.id@ != self.documents@[j].doc.id@);
        } else if j < i {
            assert(self.documents@[j].doc.id@ != self.documents@[i].doc.id@);
        }
    }

    /// Where counterparties are distinct, a counterparty is found at one
    /// place only.
    pub proof fn party_index_is(self, i: int, kind: PartyKind, id: Seq<char>)
        requires
            self.parties_distinct(),
            self.is_party(i, kind, id),
        ensures
            self.party_index(kind, id) == i,
            self.has_party(kind, id),
    {
        let j = self.party_index(kind, id);
        assert(self.is_party(j, kind, id));
        if i < j {
            assert(self.parties@[i].id@ != self.parties@[j].id@);
        } else if j < i {
            assert(self.parties@[j].id@ != self.parties@[i].id@);
        }
    }

    /// An empty ledger.
    pub fn new() -> (ledger: Ledger)
        ensures
            ledger.wf(),
            ledger.documents@.len() == 0,
            ledger.parties@.len() == 0,
            ledger.inventory@.len() == 0,
            ledger.order_history@.len() == 0,
            ledger.sale_history@.len() == 0,
            ledger.transaction_history@.len() == 0,
            ledger.client_history@.len() == 0,
            ledger.supplier_history@.len() == 0,
            ledger.inventory_history@.len() == 0,
    {
        Ledger {
            documents: Vec::new(),
            parties: Vec::new(),
            inventory: Vec::new(),
            order_history: Vec::new(),
            sale_history: Vec::new(),
            transaction_history: Vec::new(),
            client_history: Vec::new(),
            supplier_history: Vec::new(),
            inventory_history: Vec::new(),
        }
    }

    /// Looks a document up by kind and identifier.
    pub fn find_document(&self, kind: DocumentKind, id: &String) -> (r: Option<usize>)
        ensures
            r is Some ==> self.is_document(r->0 as int, kind, id@),
            r is None ==> !self.has_document(kind, id@),
    {
        let mut i: usize = 0;
        while i < self.documents.len()
            invariant
                i <= self.documents@.len(),
                forall|k: int| 0 <= k < i ==> !self.is_document(k, kind, id@),
            decreases self.documents@.len() - i,
        {
            if self.documents[i].doc.kind == kind && self.documents[i].doc.id == *id {
                return Some(i);
            }
            i += 1;
        }
        None
    }

    /// Looks a counterparty up by sort and identifier.
    pub fn find_party(&self, kind: PartyKind, id: &String) -> (r: Option<usize>)
        ensures
            r is Some ==> self.is_party(r->0 as int, kind, id@),
            r is None ==> !self.has_party(kind, id@),
    {
        let mut i: usize = 0;
        while i < self.parties.len()
            invariant
                i <= self.parties@.len(),
                forall|k: int| 0 <= k < i ==> !self.is_party(k, kind, id@),
            decreases self.parties@.len() - i,
        {
            if self.parties[i].kind == kind && self.parties[i].id == *id {
                return Some(i);
            }
            i += 1;
        }
        None
    }

    /// Looks a catalog item up by identifier.
    pub fn find_item(&self, id: &String) -> (r: Option<usize>)
        ensures
            r is Some ==> self.is_item(r->0 as int, id@),
            r is None ==> !self.has_item(id@),
    {
        let mut i: usize = 0;
        while i < self.inventory.len()
            invariant
                i <= self.inventory@.len(),
                forall|k: int| 0 <= k < i ==> !self.is_item(k, id@),
            decreases self.inventory@.len() - i,
        {
            if self.inventory[i].id == *id {
                return Some(i);
            }
            i += 1;
        }
        None
    }

    /// Tells whether some document of the kind has this number.
    pub fn is_number_taken(&self, kind: DocumentKind, number: &String) -> (r: bool)
        ensures
            r == self.number_taken(kind, number@),
    {
        let mut i: usize = 0;
        while i < self.documents.len()
            invariant
                i <= self.documents@.len(),
                forall|k: int|
                    0 <= k < i ==> !((#[trigger] self.documents@[k]).doc.kind == kind
                        && self.documents@[k].doc.number@ == number@),
            decreases self.documents@.len() - i,
        {
            if self.documents[i].doc.kind == kind && self.documents[i].doc.number == *number {
                return true;
            }
            i += 1;
        }
        false
    }
}

/// Whether one of the line items has this identifier.
pub open spec fn has_line(items: Seq<LineItem>, id: Seq<char>) -> bool {
    exists|k: int| 0 <= k < items.len() && (#[trigger] items[k]).id@ == id
}

/// The place of the line item with this identifier, where there is one.
pub open spec fn line_index(items: Seq<LineItem>, id: Seq<char>) -> int {
    choose|k: int| 0 <= k < items.len() && (#[trigger] items[k]).id@ == id
}

/// Where no two line items share an identifier, a line item is found at one
/// place only.
pub proof fn line_index_is(items: Seq<LineItem>, j: int, id: Seq<char>)
    requires
        forall|k: int, l: int|
            #![trigger items[k], items[l]]
            0 <= k < l < items.len() ==> items[k].id@ != items[l].id@,
        0 <= j < items.len(),
        items[j].id@ == id,
    ensures
        has_line(items, id),
        line_index(items, id) == j,
{
    let c = line_index(items, id);
    if c < j {
        assert(items[c].id@ != items[j].id@);
    } else if j < c {
        assert(items[j].id@ != items[c].id@);
    }
}

/// Finds the line item with an identifier among the line items of a document.
pub fn find_line(items: &Vec<LineItem>, id: &String) -> (r: Option<usize>)
    ensures
        r is Some ==> r->0 < items@.len() && items@[r->0 as int].id@ == id@,
        r is None ==> forall|k: int| 0 <= k < items@.len() ==> (#[trigger] items@[k]).id@ != id@,
{
    let mut i: usize = 0;
    while i < items.len()
        invariant
            i <= items@.len(),
            forall|k: int| 0 <= k < i ==> (#[trigger] items@[k]).id@ != id@,
        decreases items@.len() - i,
    {
        if items[i].id == *id {
            return Some(i);
        }
        i += 1;
    }
    None
}

/// Finds the payment with an identifier among the payments of a document.
pub fn find_payment(payments: &Vec<Payment>, id: &String) -> (r: Option<usize>)
    ensures
        r is Some ==> r->0 < payments@.len() && payments@[r->0 as int].id@ == id@,
        r is None ==> forall|k: int|
            0 <= k < payments@.len() ==> (#[trigger] payments@[k]).id@ != id@,
{
    let mut i: usize = 0;
    while i < payments.len()
        invariant
            i <= payments@.len(),
            forall|k: int| 0 <= k < i ==> (#[trigger] payments@[k]).id@ != id@,
        decreases payments@.len() - i,
    {
        if payments[i].id == *id {
            return Some(i);
        }
        i += 1;
    }
    None
}

/// Whether two runs of counterparties hold the same counterparties in the
/// same places, whatever their balances.
pub open spec fn same_party_keys(pre: Seq<Party>, post: Seq<Party>) -> bool {
    &&& post.len() == pre.len()
    &&& forall|i: int|
        0 <= i < pre.len() ==> (#[trigger] post[i]).id@ == pre[i].id@ && post[i].kind
            == pre[i].kind
}

/// Whether two runs of catalog items hold the same items in the same places,
/// whatever their stock.
pub open spec fn same_item_keys(pre: Seq<InventoryItem>, post: Seq<InventoryItem>) -> bool {
    &&& post.len() == pre.len()
    &&& forall|i: int| 0 <= i < pre.len() ==> (#[trigger] post[i]).id@ == pre[i].id@
}

/// A counterparty that was known stays known while the keys stay.
pub proof fn party_stays_known(pre: Ledger, post: Ledger, kind: PartyKind, id: Seq<char>)
    requires
        pre.has_party(kind, id),
        same_party_keys(pre.parties@, post.parties@),
    ensures
        post.has_party(kind, id),
{
    let i = choose|i: int| pre.is_party(i, kind, id);
    assert(post.parties@[i].id@ == pre.parties@[i].id@);
    assert(post.is_party(i, kind, id));
}

/// A catalog item that was known stays known while the keys stay.
pub proof fn item_stays_known(pre: Ledger, post: Ledger, id: Seq<char>)
    requires
        pre.has_item(id),
        same_item_keys(pre.inventory@, post.inventory@),
    ensures
        post.has_item(id),
{
    let i = choose|i: int| pre.is_item(i, id);
    assert(post.inventory@[i].id@ == pre.inventory@[i].id@);
    assert(post.is_item(i, id));
}

/// The invariant survives a change that keeps the keys of counterparties
/// and catalog items, keeps every document's identity and references, and
/// leaves every document well formed.
pub proof fn wf_survives(pre: Ledger, post: Ledger)
    requires
        pre.wf(),
        same_party_keys(pre.parties@, post.parties@),
        same_item_keys(pre.inventory@, post.inventory@),
        post.documents@.len() == pre.documents@.len(),
        forall|i: int| 0 <= i < post.documents@.len() ==> (#[trigger] post.documents@[i]).wf(),
        forall|i: int|
            0 <= i < post.documents@.len() ==> (#[trigger] post.documents@[i]).doc.id@
                == pre.documents@[i].doc.id@ && post.documents@[i].doc.kind
                == pre.documents@[i].doc.kind && post.documents@[i].doc.number@
                == pre.documents@[i].doc.number@,
        forall|i: int|
            0 <= i < post.documents@.len() ==> post.has_party(
                (#[trigger] post.documents@[i]).doc.party_kind,
                post.documents@[i].doc.party_id@,
            ),
        forall|i: int, k: int|
            0 <= i < post.documents@.len() && 0 <= k < post.documents@[i].items@.len() && (
            #[trigger] post.documents@[i].items@[k]).item_id is Some ==> pre.has_item(
                post.documents@[i].items@[k].item_id->0@,
            ),
    ensures
        post.wf(),
{
    assert(post.documents_distinct()) by {
        assert forall|i: int, j: int|
            #![trigger post.documents@[i], post.documents@[j]]
            0 <= i < j < post.documents@.len() && post.documents@[i].doc.kind
                == post.documents@[j].doc.kind implies post.documents@[i].doc.id@
            != post.documents@[j].doc.id@ && post.documents@[i].doc.number@
            != post.documents@[j].doc.number@ by {
            assert(pre.documents@[i].doc.id@ != pre.documents@[j].doc.id@);
        }
    }
    assert(post.parties_distinct()) by {
        assert forall|i: int, j: int|
            #![trigger post.parties@[i], post.parties@[j]]
            0 <= i < j < post.parties@.len() && post.parties@[i].kind
                == post.parties@[j].kind implies post.parties@[i].id@ != post.parties@[j].id@ by {
            assert(pre.parties@[i].id@ != pre.parties@[j].id@);
        }
    }
    assert(post.inventory_distinct()) by {
        assert forall|i: int, j: int|
            #![trigger post.inventory@[i], post.inventory@[j]]
            0 <= i < j < post.inventory@.len() implies post.inventory@[i].id@
            != post.inventory@[j].id@ by {
            assert(pre.inventory@[i].id@ != pre.inventory@[j].id@);
        }
    }
    assert(post.references_resolve()) by {
        assert forall|i: int, k: int|
            0 <= i < post.documents@.len() && 0 <= k < post.documents@[i].items@.len() && (
            #[trigger] post.documents@[i].items@[k]).item_id is Some implies post.has_item(
            post.documents@[i].items@[k].item_id->0@,
        ) by {
            item_stays_known(pre, post, post.documents@[i].items@[k].item_id->0@);
        }
    }
}

} // verus!
