//! Cash sessions: the till is opened with a balance, and closed with what
//! was counted and what was withdrawn.

use vstd::prelude::*;
use crate::error::LedgerError;
use crate::kinds::DocumentKind;
use crate::ledger::{DocumentEntry, Ledger};
use crate::money::fits_i64;
use crate::records::{copy_text, Payment};
use crate::stamps::{fresh_id, timestamp_now};

verus! {

/// Whether a cash session is open or closed.
#[derive(Clone, Copy, Debug, PartialEq, Eq, Structural)]
pub enum SessionStatus {
    Open,
    Closed,
}

/// One cash session.
#[derive(Debug)]
pub struct DailySession {
    pub id: String,
    pub start_time: String,
    pub end_time: Option<String>,
    pub opening_balance: i64,
    pub closing_balance: Option<i64>,
    pub counted_amount: Option<i64>,
    pub withdrawal_amount: Option<i64>,
    pub status: SessionStatus,
    pub notes: Option<String>,
    pub created_by: Option<String>,
}

/// The cash sessions, in the order in which they were started.
#[derive(Debug)]
pub struct SessionBook {
    pub sessions: Vec<DailySession>,
}

impl DailySession {
    /// Copies the session.
    pub fn copy(&self) -> (r: DailySession)
        ensures
            r == *self,
    {
        DailySession {
            id: self.id.clone(),
            start_time: self.start_time.clone(),
            end_time: copy_text(&self.end_time),
            opening_balance: self.opening_balance,
            closing_balance: self.closing_balance,
            counted_amount: self.counted_amount,
            withdrawal_amount: self.withdrawal_amount,
            status: self.status,
            notes: copy_text(&self.notes),
            created_by: copy_text(&self.created_by),
        }
    }
}

/// The closing balance of the last of the sessions that is closed, or zero
/// where none is closed or the last closed one has no closing balance.
pub open spec fn last_closing_balance(sessions: Seq<DailySession>) -> int
    decreases sessions.len(),
{
    if sessions.len() == 0 {
        0
    } else if sessions.last().status == SessionStatus::Closed {
        match sessions.last().closing_balance {
            Some(b) => b as int,
            None => 0,
        }
    } else {
        last_closing_balance(sessions.drop_last())
    }
}

impl SessionBook {
    /// The invariant of the book: only the session started last can be open.
    pub open spec fn wf(self) -> bool {
        forall|i: int|
            0 <= i < self.sessions@.len() - 1 ==> (#[trigger] self.sessions@[i]).status
                == SessionStatus::Closed
    }

    /// Whether a session is open.
    pub open spec fn has_open(self) -> bool {
        self.sessions@.len() > 0 && self.sessions@.last().status == SessionStatus::Open
    }

    /// A book without sessions.
    pub fn new() -> (book: SessionBook)
        ensures
            book.wf(),
            book.sessions@.len() == 0,
    {
        SessionBook { sessions: Vec::new() }
    }

    /// Tells whether the book is well formed.
    pub fn is_consistent(&self) -> (b: bool)
        ensures
            b == self.wf(),
    {
        let n: usize = self.sessions.len();
        if n == 0 {
            return true;
        }
        let mut i: usize = 0;
        while i < n - 1
            invariant
                n == self.sessions@.len(),
                n > 0,
                i <= n - 1,
                forall|k: int|
                    0 <= k < i ==> (#[trigger] self.sessions@[k]).status == SessionStatus::Closed,
            decreases n - i,
        {
            if self.sessions[i].status != SessionStatus::Closed {
                return false;
            }
            i += 1;
        }
        true
    }

    /// Starts a session with an opening balance.  It refuses to start one
    /// while another is open.  The new session is open, has an identifier and
    /// a starting time of its own, and stands last in the book.
    pub fn start_session(
        &mut self,
        opening_balance: i64,
        notes: Option<String>,
        created_by: Option<String>,
    ) -> (r: Result<DailySession, LedgerError>)
        requires
            old(self).wf(),
        ensures
            final(self).wf(),
            old(self).has_open() ==> r == Err::<DailySession, LedgerError>(
                LedgerError::SessionAlreadyOpen,
            ) && *final(self) == *old(self),
            !old(self).has_open() ==> r is Ok && final(self).sessions@ == old(self).sessions@.push(
                r->Ok_0,
            ) && r->Ok_0 == (DailySession {
                id: r->Ok_0.id,
                start_time: r->Ok_0.start_time,
                end_time: None,
                opening_balance,
                closing_balance: None,
                counted_amount: None,
                withdrawal_amount: None,
                status: SessionStatus::Open,
                notes,
                created_by,
            }),
    {
        let n: usize = self.sessions.len();
        if n > 0 && self.sessions[n - 1].status == SessionStatus::Open {
            return Err(LedgerError::SessionAlreadyOpen);
        }
        let session = DailySession {
            id: fresh_id(),
            start_time: timestamp_now(),
            end_time: None,
            opening_balance,
            closing_balance: None,
            counted_amount: None,
            withdrawal_amount: None,
            status: SessionStatus::Open,
            notes,
            created_by,
        };
        let answer = session.copy();
        self.sessions.push(session);
        Ok(answer)
    }

    /// Reads the open session, if there is one.
    pub fn get_current_session(&self) -> (r: Option<DailySession>)
        requires
            self.wf(),
        ensures
            r is Some <==> self.has_open(),
            r is Some ==> r->0 == self.sessions@.last(),
    {
        let n: usize = self.sessions.len();
        if n > 0 && self.sessions[n - 1].status == SessionStatus::Open {
            Some(self.sessions[n - 1].copy())
        } else {
            None
        }
    }

    /// What `close_session` does.  It refuses an identifier that is not that
    /// of the open session, and amounts whose difference does not fit the
    /// amount type.  Otherwise the session is closed: its closing balance is
    /// the amount counted less the amount withdrawn, it has an ending time of
    /// its own, and it takes the new notes where some are given.
    pub open spec fn closes(
        self,
        id: Seq<char>,
        counted_amount: i64,
        withdrawal_amount: i64,
        notes: Option<String>,
        post: SessionBook,
        r: Result<(), LedgerError>,
    ) -> bool {
        if !(self.has_open() && self.sessions@.last().id@ == id) {
            r == Err::<(), LedgerError>(LedgerError::SessionNotOpen) && post == self
        } else if !fits_i64(counted_amount - withdrawal_amount) {
            r == Err::<(), LedgerError>(LedgerError::AmountOverflow) && post == self
        } else {
            &&& r == Ok::<(), LedgerError>(())
            &&& post.sessions@.len() == self.sessions@.len()
            &&& post.sessions@.drop_last() == self.sessions@.drop_last()
            &&& post.sessions@.last().end_time is Some
            &&& post.sessions@.last() == (DailySession {
                end_time: post.sessions@.last().end_time,
                closing_balance: Some((counted_amount - withdrawal_amount) as i64),
                counted_amount: Some(counted_amount),
                withdrawal_amount: Some(withdrawal_amount),
                status: SessionStatus::Closed,
                notes: if notes is Some {
                    notes
                } else {
                    self.sessions@.last().notes
                },
                ..self.sessions@.last()
            })
        }
    }

    /// Closes the open session of the given identifier with the amount
    /// counted and the amount withdrawn.
    pub fn close_session(
        &mut self,
        id: &String,
        counted_amount: i64,
        withdrawal_amount: i64,
        notes: Option<String>,
    ) -> (r: Result<(), LedgerError>)
        requires
            old(self).wf(),
        ensures
            final(self).wf(),
            old(self).closes(id@, counted_amount, withdrawal_amount, notes, *final(self), r),
    {
        let n: usize = self.sessions.len();
        if !(n > 0 && self.sessions[n - 1].status == SessionStatus::Open && self.sessions[n
            - 1].id == *id) {
            return Err(LedgerError::SessionNotOpen);
        }
        let closing: i128 = counted_amount as i128 - withdrawal_amount as i128;
        if closing < -0x8000_0000_0000_0000 || closing > 0x7fff_ffff_ffff_ffff {
            return Err(LedgerError::AmountOverflow);
        }
        self.sessions[n - 1].end_time = Some(timestamp_now());
        self.sessions[n - 1].status = SessionStatus::Closed;
        self.sessions[n - 1].counted_amount = Some(counted_amount);
        self.sessions[n - 1].withdrawal_amount = Some(withdrawal_amount);
        self.sessions[n - 1].closing_balance = Some(closing as i64);
        match notes {
            Some(text) => {
                self.sessions[n - 1].notes = Some(text);
            },
            None => {},
        }
        assert(self.sessions@.drop_last() =~= old(self).sessions@.drop_last());
        Ok(())
    }

    /// Reads the closing balance of the session that was closed last, or
    /// zero where none was.
    pub fn get_last_session_closing_balance(&self) -> (r: i64)
        ensures
            r == last_closing_balance(self.sessions@),
    {
        let mut i: usize = self.sessions.len();
        assert(self.sessions@.subrange(0, i as int) =~= self.sessions@);
        while i > 0
            invariant
                i <= self.sessions@.len(),
                last_closing_balance(self.sessions@) == last_closing_balance(
                    self.sessions@.subrange(0, i as int),
                ),
            decreases i,
        {
            assert(self.sessions@.subrange(0, i as int).drop_last() =~= self.sessions@.subrange(
                0,
                i - 1,
            ));
            assert(self.sessions@.subrange(0, i as int).last() == self.sessions@[i - 1]);
            if self.sessions[i - 1].status == SessionStatus::Closed {
                return match self.sessions[i - 1].closing_balance {
                    Some(b) => b,
                    None => 0,
                };
            }
            i -= 1;
        }
        0
    }
}

/// A payment after the payments without a session have been taken into a
/// session: it names the session where it named none, and is as it was
/// where it named one.
pub open spec fn taken_into(before: Payment, session_id: Seq<char>, after: Payment) -> bool {
    if before.session_id is None {
        &&& after == (Payment { session_id: after.session_id, ..before })
        &&& after.session_id is Some
        &&& after.session_id->0@ == session_id
    } else {
        after == before
    }
}

/// Whether a kind of document has its payments taken into cash sessions:
/// purchase orders and customer sales have.
pub open spec fn joins_sessions(kind: DocumentKind) -> bool {
    kind == DocumentKind::PurchaseOrder || kind == DocumentKind::CustomerSale
}

/// Whether a document after the payments without a session have been taken
/// into a session is the document before, but for its payments.
pub open spec fn entry_taken_into(
    before: DocumentEntry,
    session_id: Seq<char>,
    after: DocumentEntry,
) -> bool {
    &&& after.doc == before.doc
    &&& after.items == before.items
    &&& after.payments@.len() == before.payments@.len()
    &&& forall|j: int|
        0 <= j < before.payments@.len() ==> if joins_sessions(before.doc.kind) {
            taken_into(before.payments@[j], session_id, #[trigger] after.payments@[j])
        } else {
            after.payments@[j] == before.payments@[j]
        }
}

impl Ledger {
    /// Whether `post` is `self` after every payment of a purchase order or a
    /// customer sale that named no cash session has been taken into the
    /// session of the given identifier, all else being as it was.
    pub open spec fn session_assigned(self, session_id: Seq<char>, post: Ledger) -> bool {
        &&& post.documents@.len() == self.documents@.len()
        &&& forall|i: int|
            0 <= i < self.documents@.len() ==> entry_taken_into(
                self.documents@[i],
                session_id,
                #[trigger] post.documents@[i],
            )
        &&& post.parties == self.parties
        &&& post.inventory == self.inventory
        &&& post.order_history == self.order_history
        &&& post.sale_history == self.sale_history
        &&& post.transaction_history == self.transaction_history
        &&& post.client_history == self.client_history
        &&& post.supplier_history == self.supplier_history
        &&& post.inventory_history == self.inventory_history
    }

    /// Takes every payment of a purchase order or a customer sale that names
    /// no cash session into the session of the given identifier.
    pub fn assign_session(&mut self, session_id: &String)
        requires
            old(self).wf(),
        ensures
            final(self).wf(),
            old(self).session_assigned(session_id@, *final(self)),
    {
        let mut i: usize = 0;
        while i < self.documents.len()
            invariant
                i <= self.documents@.len(),
                self.documents@.len() == old(self).documents@.len(),
                forall|k: int|
                    0 <= k < i ==> entry_taken_into(
                        old(self).documents@[k],
                        session_id@,
                        #[trigger] self.documents@[k],
                    ),
                forall|k: int|
                    i <= k < self.documents@.len() ==> self.documents@[k] == old(
                        self,
                    ).documents@[k],
                self.parties == old(self).parties,
                self.inventory == old(self).inventory,
                self.order_history == old(self).order_history,
                self.sale_history == old(self).sale_history,
                self.transaction_history == old(self).transaction_history,
                self.client_history == old(self).client_history,
                self.supplier_history == old(self).supplier_history,
                self.inventory_history == old(self).inventory_history,
            decreases self.documents@.len() - i,
        {
            let kind = self.documents[i].doc.kind;
            if kind == DocumentKind::PurchaseOrder || kind == DocumentKind::CustomerSale {
                let ghost start = *self;
                let mut j: usize = 0;
                while j < self.documents[i].payments.len()
                    invariant
                        i < self.documents@.len(),
                        self.documents@.len() == start.documents@.len(),
                        joins_sessions(start.documents@[i as int].doc.kind),
                        forall|k: int|
                            0 <= k < self.documents@.len() && k != i ==> self.documents@[k]
                                == start.documents@[k],
                        self.documents@[i as int].doc == start.documents@[i as int].doc,
                        self.documents@[i as int].items == start.documents@[i as int].items,
                        self.documents@[i as int].payments@.len()
                            == start.documents@[i as int].payments@.len(),
                        j <= self.documents@[i as int].payments@.len(),
                        forall|l: int|
                            0 <= l < j ==> taken_into(
                                start.documents@[i as int].payments@[l],
                                session_id@,
                                #[trigger] self.documents@[i as int].payments@[l],
                            ),
                        forall|l: int|
                            j <= l < self.documents@[i as int].payments@.len()
                                ==> self.documents@[i as int].payments@[l]
                                == start.documents@[i as int].payments@[l],
                        self.parties == start.parties,
                        self.inventory == start.inventory,
                        self.order_history == start.order_history,
                        self.sale_history == start.sale_history,
                        self.transaction_history == start.transaction_history,
                        self.client_history == start.client_history,
                        self.supplier_history == start.supplier_history,
                        self.inventory_history == start.inventory_history,
                    decreases self.documents@[i as int].payments@.len() - j,
                {
                    if self.documents[i].payments[j].session_id.is_none() {
                        self.documents[i].payments[j].session_id = Some(session_id.clone());
                    }
                    j += 1;
                }
                assert(start.documents@[i as int] == old(self).documents@[i as int]);
                assert(entry_taken_into(
                    old(self).documents@[i as int],
                    session_id@,
                    self.documents@[i as int],
                ));
                assert forall|k: int| 0 <= k < i implies entry_taken_into(
                    old(self).documents@[k],
                    session_id@,
                    #[trigger] self.documents@[k],
                ) by {
                    assert(self.documents@[k] == start.documents@[k]);
                }
            } else {
                assert(entry_taken_into(
                    old(self).documents@[i as int],
                    session_id@,
                    self.documents@[i as int],
                ));
            }
            i += 1;
        }
        proof {
            session_assignment_keeps_wf(*old(self), *self, session_id@);
        }
    }
}

/// Taking payments into a session keeps the ledger's invariant.
pub proof fn session_assignment_keeps_wf(pre: Ledger, post: Ledger, session_id: Seq<char>)
    requires
        pre.wf(),
        post.documents@.len() == pre.documents@.len(),
        forall|i: int|
            0 <= i < pre.documents@.len() ==> entry_taken_into(
                pre.documents@[i],
                session_id,
                #[trigger] post.documents@[i],
            ),
        post.parties == pre.parties,
        post.inventory == pre.inventory,
    ensures
        post.wf(),
{
    assert forall|i: int| 0 <= i < post.documents@.len() implies (#[trigger] post.documents@[i]).wf() by {
        let a = pre.documents@[i];
        let b = post.documents@[i];
        assert(a.wf());
        assert(entry_taken_into(a, session_id, b));
        assert forall|j: int| 0 <= j < b.payments@.len() implies (#[trigger] b.payments@[j]).valid()
            && b.payments@[j].document_id@ == b.doc.id@ && b.payments@[j].id == a.payments@[j].id
            && b.payments@[j].amount == a.payments@[j].amount by {
            assert(a.payments@[j].valid());
        }
        assert(b.payments_wf()) by {
            assert forall|j: int, l: int|
                #![trigger b.payments@[j], b.payments@[l]]
                0 <= j < l < b.payments@.len() implies b.payments@[j].id@ != b.payments@[l].id@ by {
                assert(a.payments@[j].id@ != a.payments@[l].id@);
            }
        }
        same_amounts_same_sum(a.payments@, b.payments@);
    }
    assert forall|i: int| 0 <= i < post.documents@.len() implies (#[trigger] post.documents@[i]).doc.id@
        == pre.documents@[i].doc.id@ && post.documents@[i].doc.kind == pre.documents@[i].doc.kind
        && post.documents@[i].doc.number@ == pre.documents@[i].doc.number@ by {
        assert(entry_taken_into(pre.documents@[i], session_id, post.documents@[i]));
    }
    assert forall|i: int| 0 <= i < post.documents@.len() implies post.has_party(
        (#[trigger] post.documents@[i]).doc.party_kind,
        post.documents@[i].doc.party_id@,
    ) by {
        assert(entry_taken_into(pre.documents@[i], session_id, post.documents@[i]));
        let k = pre.documents@[i].doc.party_kind;
        let p = pre.documents@[i].doc.party_id@;
        assert(pre.has_party(k, p));
        let w = choose|w: int| pre.is_party(w, k, p);
        assert(post.is_party(w, k, p));
    }
    assert forall|i: int, k: int|
        0 <= i < post.documents@.len() && 0 <= k < post.documents@[i].items@.len() && (
        #[trigger] post.documents@[i].items@[k]).item_id is Some implies pre.has_item(
        post.documents@[i].items@[k].item_id->0@,
    ) by {
        assert(entry_taken_into(pre.documents@[i], session_id, post.documents@[i]));
        assert(pre.documents@[i].items@[k].item_id is Some);
    }
    crate::ledger::wf_survives(pre, post);
}

/// Payments with the same amounts in the same places have the same sum.
pub proof fn same_amounts_same_sum(a: Seq<Payment>, b: Seq<Payment>)
    requires
        a.len() == b.len(),
        forall|j: int| 0 <= j < a.len() ==> (#[trigger] b[j]).amount == a[j].amount,
    ensures
        crate::records::sum_payments(a) == crate::records::sum_payments(b),
    decreases a.len(),
{
    if a.len() > 0 {
        assert forall|j: int| 0 <= j < a.drop_last().len() implies (#[trigger] b.drop_last()[j]).amount
            == a.drop_last()[j].amount by {
            assert(b[j].amount == a[j].amount);
        }
        same_amounts_same_sum(a.drop_last(), b.drop_last());
        assert(b[a.len() - 1].amount == a[a.len() - 1].amount);
    }
}

/// Closes the open cash session of the given identifier and, where that
/// succeeds, takes the payments that name no session into it.  Where the
/// closing is refused the ledger is as it was.
pub fn close_session(
    book: &mut SessionBook,
    ledger: &mut Ledger,
    id: &String,
    counted_amount: i64,
    withdrawal_amount: i64,
    notes: Option<String>,
) -> (r: Result<(), LedgerError>)
    requires
        old(book).wf(),
        old(ledger).wf(),
    ensures
        final(book).wf(),
        final(ledger).wf(),
        old(book).closes(id@, counted_amount, withdrawal_amount, notes, *final(book), r),
        r is Ok ==> old(ledger).session_assigned(id@, *final(ledger)),
        r is Err ==> *final(ledger) == *old(ledger),
{
    match book.close_session(id, counted_amount, withdrawal_amount, notes) {
        Ok(_) => {
            ledger.assign_session(id);
            Ok(())
        },
        Err(e) => Err(e),
    }
}

} // verus!
