//! Keeping a copy of the ledger, to go back to.

use vstd::prelude::*;
use crate::ledger::{DocumentEntry, Ledger};
use crate::payments::copy_payments;
use crate::records::{
    copy_lines, ClientHistoryEvent, InventoryHistoryEvent, InventoryItem, OrderHistory, Party,
    SaleHistory, SupplierHistoryEvent, TransactionHistory,
};

verus! {

impl Ledger {
    /// Whether two ledgers hold the same records in the same order.
    pub open spec fn same_contents(self, other: Ledger) -> bool {
        &&& self.documents@.len() == other.documents@.len()
        &&& forall|i: int|
            0 <= i < self.documents@.len() ==> (#[trigger] self.documents@[i]).doc
                == other.documents@[i].doc && self.documents@[i].items@
                == other.documents@[i].items@ && self.documents@[i].payments@
                == other.documents@[i].payments@
        &&& self.parties@ == other.parties@
        &&& self.inventory@ == other.inventory@
        &&& self.order_history@ == other.order_history@
        &&& self.sale_history@ == other.sale_history@
        &&& self.transaction_history@ == other.transaction_history@
        &&& self.client_history@ == other.client_history@
        &&& self.supplier_history@ == other.supplier_history@
        &&& self.inventory_history@ == other.inventory_history@
    }

    /// Copies the ledger.
    pub fn copy(&self) -> (r: Ledger)
        ensures
            r.same_contents(*self),
    {
        let mut documents: Vec<DocumentEntry> = Vec::new();
        let mut d: usize = 0;
        while d < self.documents.len()
            invariant
                d <= self.documents@.len(),
                documents@.len() == d,
                forall|k: int|
                    0 <= k < d ==> (#[trigger] documents@[k]).doc == self.documents@[k].doc
                        && documents@[k].items@ == self.documents@[k].items@
                        && documents@[k].payments@ == self.documents@[k].payments@,
            decreases self.documents@.len() - d,
        {
            documents.push(
                DocumentEntry {
                    doc: self.documents[d].doc.copy(),
                    items: copy_lines(&self.documents[d].items),
                    payments: copy_payments(&self.documents[d].payments),
                },
            );
            d += 1;
        }
        let mut parties: Vec<Party> = Vec::new();
        let mut i: usize = 0;
        while i < self.parties.len()
            invariant
                i <= self.parties@.len(),
                parties@ == self.parties@.subrange(0, i as int),
            decreases self.parties@.len() - i,
        {
            parties.push(self.parties[i].copy());
            assert(self.parties@.subrange(0, i + 1) =~= self.parties@.subrange(0, i as int).push(
                self.parties@[i as int],
            ));
            i += 1;
        }
        assert(self.parties@.subrange(0, i as int) =~= self.parties@);
        let mut inventory: Vec<InventoryItem> = Vec::new();
        let mut i: usize = 0;
        while i < self.inventory.len()
            invariant
                i <= self.inventory@.len(),
                inventory@ == self.inventory@.subrange(0, i as int),
            decreases self.inventory@.len() - i,
        {
            inventory.push(self.inventory[i].copy());
            assert(self.inventory@.subrange(0, i + 1) =~= self.inventory@.subrange(0, i as int).push(
                self.inventory@[i as int],
            ));
            i += 1;
        }
        assert(self.inventory@.subrange(0, i as int) =~= self.inventory@);
        let mut order_history: Vec<OrderHistory> = Vec::new();
        let mut i: usize = 0;
        while i < self.order_history.len()
            invariant
                i <= self.order_history@.len(),
                order_history@ == self.order_history@.subrange(0, i as int),
            decreases self.order_history@.len() - i,
        {
            order_history.push(self.order_history[i].copy());
            assert(self.order_history@.subrange(0, i + 1) =~= self.order_history@.subrange(0, i as int).push(
                self.order_history@[i as int],
            ));
            i += 1;
        }
        assert(self.order_history@.subrange(0, i as int) =~= self.order_history@);
        let mut sale_history: Vec<SaleHistory> = Vec::new();
        let mut i: usize = 0;
        while i < self.sale_history.len()
            invariant
                i <= self.sale_history@.len(),
                sale_history@ == self.sale_history@.subrange(0, i as int),
            decreases self.sale_history@.len() - i,
        {
            sale_history.push(self.sale_history[i].copy());
            assert(self.sale_history@.subrange(0, i + 1) =~= self.sale_history@.subrange(0, i as int).push(
                self.sale_history@[i as int],
            ));
            i += 1;
        }
        assert(self.sale_history@.subrange(0, i as int) =~= self.sale_history@);
        let mut transaction_history: Vec<TransactionHistory> = Vec::new();
        let mut i: usize = 0;
        while i < self.transaction_history.len()
            invariant
                i <= self.transaction_history@.len(),
                transaction_history@ == self.transaction_history@.subrange(0, i as int),
            decreases self.transaction_history@.len() - i,
        {
            transaction_history.push(self.transaction_history[i].copy());
            assert(self.transaction_history@.subrange(0, i + 1) =~= self.transaction_history@.subrange(0, i as int).push(
                self.transaction_history@[i as int],
            ));
            i += 1;
        }
        assert(self.transaction_history@.subrange(0, i as int) =~= self.transaction_history@);
        let mut client_history: Vec<ClientHistoryEvent> = Vec::new();
        let mut i: usize = 0;
        while i < self.client_history.len()
            invariant
                i <= self.client_history@.len(),
                client_history@ == self.client_history@.subrange(0, i as int),
            decreases self.client_history@.len() - i,
        {
            client_history.push(self.client_history[i].copy());
            assert(self.client_history@.subrange(0, i + 1) =~= self.client_history@.subrange(0, i as int).push(
                self.client_history@[i as int],
            ));
            i += 1;
        }
        assert(self.client_history@.subrange(0, i as int) =~= self.client_history@);
        let mut supplier_history: Vec<SupplierHistoryEvent> = Vec::new();
        let mut i: usize = 0;
        while i < self.supplier_history.len()
            invariant
                i <= self.supplier_history@.len(),
                supplier_history@ == self.supplier_history@.subrange(0, i as int),
            decreases self.supplier_history@.len() - i,
        {
            supplier_history.push(self.supplier_history[i].copy());
            assert(self.supplier_history@.subrange(0, i + 1) =~= self.supplier_history@.subrange(0, i as int).push(
                self.supplier_history@[i as int],
            ));
            i += 1;
        }
        assert(self.supplier_history@.subrange(0, i as int) =~= self.supplier_history@);
        let mut inventory_history: Vec<InventoryHistoryEvent> = Vec::new();
        let mut i: usize = 0;
        while i < self.inventory_history.len()
            invariant
                i <= self.inventory_history@.len(),
                inventory_history@ == self.inventory_history@.subrange(0, i as int),
            decreases self.inventory_history@.len() - i,
        {
            inventory_history.push(self.inventory_history[i].copy());
            assert(self.inventory_history@.subrange(0, i + 1) =~= self.inventory_history@.subrange(0, i as int).push(
                self.inventory_history@[i as int],
            ));
            i += 1;
        }
        assert(self.inventory_history@.subrange(0, i as int) =~= self.inventory_history@);
        Ledger {
            documents,
            parties,
            inventory,
            order_history,
            sale_history,
            transaction_history,
            client_history,
            supplier_history,
            inventory_history,
        }
    }
}

} // verus!
