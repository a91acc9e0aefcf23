//! The two adjusters: the one that moves the stock of a catalog item and the
//! one that moves the balance of a counterparty, each with its audit record;
//! and the registration of counterparties and catalog items.

use vstd::prelude::*;
use crate::effects::{
    balance_moved, party_history_grew, party_history_unchanged, push_party_event,
    push_stock_event, recorded, stock_history_grew, PartyNote, StockNote,
};
use crate::error::LedgerError;
use crate::kinds::PartyKind;
use crate::ledger::{
    party_stays_known, same_item_keys, same_party_keys, wf_survives, Ledger,
};
use crate::money::{fits_i64, reaches_threshold};
use crate::records::{level, level_of, InventoryItem, Party};

verus! {

/// What a manual adjustment's record says where the caller gives no notes.
pub open spec fn manual_entry() -> Seq<char> {
    "Manual entry"@
}

/// The notes of a manual adjustment: the caller's, or the standard words.
pub open spec fn manual_notes(notes: Option<String>) -> Seq<char> {
    match notes {
        Some(n) => n@,
        None => manual_entry(),
    }
}

impl Ledger {
    /// What `adjust_balance` does.  It refuses a counterparty that the ledger
    /// does not hold and an amount that would take the balance out of range.
    /// Otherwise the amount is added to the balance, none counting as zero;
    /// the counterparty's trail takes a record where the amount reaches a
    /// thousandth of the currency unit in magnitude, and none below that.
    /// All else is as it was.
    pub open spec fn adjusts_balance(
        self,
        kind: PartyKind,
        party_id: Seq<char>,
        amount: int,
        event_type: Seq<char>,
        notes: Seq<char>,
        changed_by: Option<String>,
        post: Ledger,
        r: Result<(), LedgerError>,
    ) -> bool {
        if !self.has_party(kind, party_id) {
            r == Err::<(), LedgerError>(LedgerError::PartyNotFound) && post == self
        } else if !fits_i64(
            level(self.parties@[self.party_index(kind, party_id)].credit_balance) + amount,
        ) {
            r == Err::<(), LedgerError>(LedgerError::AmountOverflow) && post == self
        } else {
            &&& r == Ok::<(), LedgerError>(())
            &&& balance_moved(self.parties@, post.parties@, kind, party_id, amount)
            &&& party_history_grew(
                self,
                post,
                kind,
                recorded(
                    amount,
                    PartyNote { party_id, event_type, notes, amount, changed_by },
                ),
            )
            &&& post.documents == self.documents
            &&& post.inventory == self.inventory
            &&& post.inventory_history == self.inventory_history
            &&& post.order_history == self.order_history
            &&& post.sale_history == self.sale_history
            &&& post.transaction_history == self.transaction_history
        }
    }

    /// Adds a signed amount to the balance of a counterparty and records it.
    pub fn adjust_balance(
        &mut self,
        kind: PartyKind,
        party_id: &String,
        amount: i64,
        event_type: &str,
        notes: String,
        changed_by: Option<String>,
    ) -> (r: Result<(), LedgerError>)
        requires
            old(self).wf(),
        ensures
            final(self).wf(),
            old(self).adjusts_balance(
                kind,
                party_id@,
                amount as int,
                event_type@,
                notes@,
                changed_by,
                *final(self),
                r,
            ),
    {
        let p: usize = match self.find_party(kind, party_id) {
            Some(p) => p,
            None => {
                return Err(LedgerError::PartyNotFound);
            },
        };
        proof {
            self.party_index_is(p as int, kind, party_id@);
        }
        let balance: i128 = level_of(self.parties[p].credit_balance) as i128 + amount as i128;
        if balance < -0x8000_0000_0000_0000 || balance > 0x7fff_ffff_ffff_ffff {
            return Err(LedgerError::AmountOverflow);
        }
        let ghost pre = *self;
        self.parties[p].credit_balance = Some(balance as i64);
        let ghost mid = *self;
        if reaches_threshold(amount) {
            push_party_event(self, kind, party_id, event_type, notes, amount, changed_by);
        } else {
            proof {
                party_history_unchanged(mid, *self, kind);
            }
        }
        proof {
            let post = *self;
            assert forall|k: int| 0 <= k < pre.parties@.len() implies #[trigger] post.parties@[k]
                == if pre.parties@[k].kind == kind && pre.parties@[k].id@ == party_id@ {
                Party {
                    credit_balance: Some((level(pre.parties@[k].credit_balance) + amount) as i64),
                    ..pre.parties@[k]
                }
            } else {
                pre.parties@[k]
            } by {
                if pre.is_party(k, kind, party_id@) {
                    pre.party_index_is(k, kind, party_id@);
                }
            }
            keeps_wf_with_same_documents(pre, post);
        }
        Ok(())
    }

    /// Adds a signed amount to the balance of a client and records it as a
    /// manual adjustment.
    pub fn adjust_client_balance(
        &mut self,
        client_id: &String,
        amount: i64,
        notes: Option<String>,
    ) -> (r: Result<(), LedgerError>)
        requires
            old(self).wf(),
        ensures
            final(self).wf(),
            old(self).adjusts_balance(
                PartyKind::Client,
                client_id@,
                amount as int,
                "Balance Adjusted"@,
                manual_notes(notes),
                None,
                *final(self),
                r,
            ),
    {
        let text = match notes {
            Some(n) => n,
            None => String::from_str("Manual entry"),
        };
        self.adjust_balance(PartyKind::Client, client_id, amount, "Balance Adjusted", text, None)
    }

    /// Adds a signed amount to the balance of a supplier and records it as a
    /// manual adjustment.
    pub fn adjust_supplier_credit(
        &mut self,
        supplier_id: &String,
        amount: i64,
        notes: Option<String>,
    ) -> (r: Result<(), LedgerError>)
        requires
            old(self).wf(),
        ensures
            final(self).wf(),
            old(self).adjusts_balance(
                PartyKind::Supplier,
                supplier_id@,
                amount as int,
                "Balance Adjusted"@,
                manual_notes(notes),
                None,
                *final(self),
                r,
            ),
    {
        let text = match notes {
            Some(n) => n,
            None => String::from_str("Manual entry"),
        };
        self.adjust_balance(
            PartyKind::Supplier,
            supplier_id,
            amount,
            "Balance Adjusted",
            text,
            None,
        )
    }

    /// What `adjust_stock` does.  It refuses a catalog item that the ledger
    /// does not hold and a change that would take the stock out of range.
    /// Otherwise the change is added to the stock of the item, none counting
    /// as zero, and the catalog's trail takes one record.  All else is as it
    /// was.
    pub open spec fn adjusts_stock(
        self,
        item_id: Seq<char>,
        delta: int,
        event_type: Seq<char>,
        notes: Seq<char>,
        related_id: Seq<char>,
        post: Ledger,
        r: Result<(), LedgerError>,
    ) -> bool {
        if !self.has_item(item_id) {
            r == Err::<(), LedgerError>(LedgerError::CatalogItemNotFound) && post == self
        } else if exists|i: int|
            self.is_item(i, item_id) && !fits_i64(
                level(self.inventory@[i].quantity_in_stock) + delta,
            ) {
            r == Err::<(), LedgerError>(LedgerError::AmountOverflow) && post == self
        } else {
            &&& r == Ok::<(), LedgerError>(())
            &&& post.inventory@.len() == self.inventory@.len()
            &&& forall|i: int|
                0 <= i < self.inventory@.len() ==> #[trigger] post.inventory@[i]
                    == if self.inventory@[i].id@ == item_id {
                    InventoryItem {
                        quantity_in_stock: Some(
                            (level(self.inventory@[i].quantity_in_stock) + delta) as i64,
                        ),
                        ..self.inventory@[i]
                    }
                } else {
                    self.inventory@[i]
                }
            &&& stock_history_grew(
                self.inventory_history@,
                post.inventory_history@,
                seq![StockNote { item_id, event_type, quantity_change: delta, notes, related_id }],
            )
            &&& post.documents == self.documents
            &&& post.parties == self.parties
            &&& post.client_history == self.client_history
            &&& post.supplier_history == self.supplier_history
            &&& post.order_history == self.order_history
            &&& post.sale_history == self.sale_history
            &&& post.transaction_history == self.transaction_history
        }
    }

    /// Adds a signed quantity to the stock of a catalog item and records it.
    pub fn adjust_stock(
        &mut self,
        item_id: &String,
        delta: i64,
        event_type: &str,
        notes: &String,
        related_id: &String,
    ) -> (r: Result<(), LedgerError>)
        requires
            old(self).wf(),
        ensures
            final(self).wf(),
            old(self).adjusts_stock(
                item_id@,
                delta as int,
                event_type@,
                notes@,
                related_id@,
                *final(self),
                r,
            ),
    {
        let c: usize = match self.find_item(item_id) {
            Some(c) => c,
            None => {
                return Err(LedgerError::CatalogItemNotFound);
            },
        };
        let ghost pre = *self;
        proof {
            assert forall|i: int| pre.is_item(i, item_id@) implies i == c by {
                if i < c {
                    assert(pre.inventory@[i].id@ != pre.inventory@[c as int].id@);
                } else if c < i {
                    assert(pre.inventory@[c as int].id@ != pre.inventory@[i].id@);
                }
            }
        }
        let stock: i128 = level_of(self.inventory[c].quantity_in_stock) as i128 + delta as i128;
        if stock < -0x8000_0000_0000_0000 || stock > 0x7fff_ffff_ffff_ffff {
            assert(pre.is_item(c as int, item_id@));
            return Err(LedgerError::AmountOverflow);
        }
        self.inventory[c].quantity_in_stock = Some(stock as i64);
        push_stock_event(&mut self.inventory_history, item_id, event_type, delta, notes, related_id);
        proof {
            let post = *self;
            assert forall|i: int| 0 <= i < pre.inventory@.len() implies #[trigger] post.inventory@[i]
                == if pre.inventory@[i].id@ == item_id@ {
                InventoryItem {
                    quantity_in_stock: Some(
                        (level(pre.inventory@[i].quantity_in_stock) + delta) as i64,
                    ),
                    ..pre.inventory@[i]
                }
            } else {
                pre.inventory@[i]
            } by {
                if pre.inventory@[i].id@ == item_id@ {
                    assert(pre.is_item(i, item_id@));
                }
            }
            keeps_wf_with_same_documents(pre, post);
        }
        Ok(())
    }

    /// Registers a counterparty; it refuses one whose identifier another of
    /// its sort has.
    pub fn insert_party(&mut self, party: Party) -> (r: Result<(), LedgerError>)
        requires
            old(self).wf(),
        ensures
            final(self).wf(),
            old(self).has_party(party.kind, party.id@) ==> r == Err::<(), LedgerError>(
                LedgerError::DuplicateId,
            ) && *final(self) == *old(self),
            !old(self).has_party(party.kind, party.id@) ==> r == Ok::<(), LedgerError>(())
                && final(self).parties@ == old(self).parties@.push(party) && final(self).documents
                == old(self).documents && final(self).inventory == old(self).inventory
                && final(self).inventory_history == old(self).inventory_history
                && final(self).client_history == old(self).client_history
                && final(self).supplier_history == old(self).supplier_history
                && final(self).order_history == old(self).order_history
                && final(self).sale_history == old(self).sale_history
                && final(self).transaction_history == old(self).transaction_history,
    {
        if self.find_party(party.kind, &party.id).is_some() {
            return Err(LedgerError::DuplicateId);
        }
        let ghost pre = *self;
        self.parties.push(party);
        proof {
            let post = *self;
            assert forall|i: int, j: int|
                #![trigger post.parties@[i], post.parties@[j]]
                0 <= i < j < post.parties@.len() && post.parties@[i].kind
                    == post.parties@[j].kind implies post.parties@[i].id@
                != post.parties@[j].id@ by {
                assert(post.parties@[i] == pre.parties@[i]);
                if j < pre.parties@.len() {
                    assert(post.parties@[j] == pre.parties@[j]);
                } else {
                    assert(!pre.is_party(i, party.kind, party.id@));
                }
            }
            assert forall|i: int| 0 <= i < post.documents@.len() implies post.has_party(
                (#[trigger] post.documents@[i]).doc.party_kind,
                post.documents@[i].doc.party_id@,
            ) by {
                let k = pre.documents@[i].doc.party_kind;
                let p = pre.documents@[i].doc.party_id@;
                assert(pre.has_party(k, p));
                let w = choose|w: int| pre.is_party(w, k, p);
                assert(post.parties@[w] == pre.parties@[w]);
                assert(post.is_party(w, k, p));
            }
            assert forall|i: int, k: int|
                0 <= i < post.documents@.len() && 0 <= k < post.documents@[i].items@.len() && (
                #[trigger] post.documents@[i].items@[k]).item_id is Some implies post.has_item(
                post.documents@[i].items@[k].item_id->0@,
            ) by {
                let c = pre.documents@[i].items@[k].item_id->0@;
                assert(pre.has_item(c));
                let w = choose|w: int| pre.is_item(w, c);
                assert(post.is_item(w, c));
            }
        }
        Ok(())
    }

    /// Registers a catalog item; it refuses one whose identifier another has.
    pub fn insert_item(&mut self, item: InventoryItem) -> (r: Result<(), LedgerError>)
        requires
            old(self).wf(),
        ensures
            final(self).wf(),
            old(self).has_item(item.id@) ==> r == Err::<(), LedgerError>(LedgerError::DuplicateId)
                && *final(self) == *old(self),
            !old(self).has_item(item.id@) ==> r == Ok::<(), LedgerError>(())
                && final(self).inventory@ == old(self).inventory@.push(item)
                && final(self).documents == old(self).documents && final(self).parties
                == old(self).parties && final(self).inventory_history
                == old(self).inventory_history && final(self).client_history
                == old(self).client_history && final(self).supplier_history
                == old(self).supplier_history && final(self).order_history
                == old(self).order_history && final(self).sale_history == old(self).sale_history
                && final(self).transaction_history == old(self).transaction_history,
    {
        if self.find_item(&item.id).is_some() {
            return Err(LedgerError::DuplicateId);
        }
        let ghost pre = *self;
        self.inventory.push(item);
        proof {
            let post = *self;
            assert forall|i: int, j: int|
                #![trigger post.inventory@[i], post.inventory@[j]]
                0 <= i < j < post.inventory@.len() implies post.inventory@[i].id@
                != post.inventory@[j].id@ by {
                assert(post.inventory@[i] == pre.inventory@[i]);
                if j < pre.inventory@.len() {
                    assert(post.inventory@[j] == pre.inventory@[j]);
                } else {
                    assert(!pre.is_item(i, item.id@));
                }
            }
            assert forall|i: int| 0 <= i < post.documents@.len() implies post.has_party(
                (#[trigger] post.documents@[i]).doc.party_kind,
                post.documents@[i].doc.party_id@,
            ) by {
                let k = pre.documents@[i].doc.party_kind;
                let p = pre.documents@[i].doc.party_id@;
                assert(pre.has_party(k, p));
                let w = choose|w: int| pre.is_party(w, k, p);
                assert(post.is_party(w, k, p));
            }
            assert forall|i: int, k: int|
                0 <= i < post.documents@.len() && 0 <= k < post.documents@[i].items@.len() && (
                #[trigger] post.documents@[i].items@[k]).item_id is Some implies post.has_item(
                post.documents@[i].items@[k].item_id->0@,
            ) by {
                let c = pre.documents@[i].items@[k].item_id->0@;
                assert(pre.has_item(c));
                let w = choose|w: int| pre.is_item(w, c);
                assert(post.inventory@[w] == pre.inventory@[w]);
                assert(post.is_item(w, c));
            }
        }
        Ok(())
    }
}

/// The invariant survives a change of balances and stock figures that leaves
/// the documents as they were.
pub proof fn keeps_wf_with_same_documents(pre: Ledger, post: Ledger)
    requires
        pre.wf(),
        post.documents == pre.documents,
        same_party_keys(pre.parties@, post.parties@),
        same_item_keys(pre.inventory@, post.inventory@),
    ensures
        post.wf(),
{
    assert forall|i: int| 0 <= i < post.documents@.len() implies post.has_party(
        (#[trigger] post.documents@[i]).doc.party_kind,
        post.documents@[i].doc.party_id@,
    ) by {
        party_stays_known(
            pre,
            post,
            pre.documents@[i].doc.party_kind,
            pre.documents@[i].doc.party_id@,
        );
    }
    wf_survives(pre, post);
}

} // verus!
