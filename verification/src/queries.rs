//! Reading documents out of the ledger.

use vstd::prelude::*;
use crate::kinds::{DocumentKind, DocumentStatus, TransactionType};
use crate::ledger::{DocumentEntry, Ledger};
use crate::payments::copy_payments;
use crate::records::{copy_lines, Document, DocumentWithDetails};
use crate::text::{
    insert_adds_one, lex_less, lex_less_irreflexive, lex_less_transitive, text_less,
};

verus! {

/// Whether a document passes a filter on its kind and, where they are given,
/// on its type and on its status.
pub open spec fn passes(
    doc: Document,
    kind: DocumentKind,
    type_filter: Option<TransactionType>,
    status_filter: Option<DocumentStatus>,
) -> bool {
    &&& doc.kind == kind
    &&& type_filter is Some ==> doc.transaction_type == type_filter->0
    &&& status_filter is Some ==> doc.status == status_filter->0
}

/// The headers of the documents that pass a filter, in the order in which the
/// ledger holds them.
pub open spec fn selected(
    documents: Seq<DocumentEntry>,
    kind: DocumentKind,
    type_filter: Option<TransactionType>,
    status_filter: Option<DocumentStatus>,
) -> Seq<Document>
    decreases documents.len(),
{
    if documents.len() == 0 {
        Seq::<Document>::empty()
    } else {
        let rest = selected(documents.drop_last(), kind, type_filter, status_filter);
        if passes(documents.last().doc, kind, type_filter, status_filter) {
            rest.push(documents.last().doc)
        } else {
            rest
        }
    }
}

/// Whether the headers stand with the latest time of creation first, the
/// times being compared as texts.
pub open spec fn newest_first(documents: Seq<Document>) -> bool {
    forall|i: int, j: int|
        #![trigger documents[i], documents[j]]
        0 <= i < j < documents.len() ==> !lex_less(
            documents[i].created_at@,
            documents[j].created_at@,
        )
}

/// Rearranges headers so that the latest time of creation comes first;
/// headers of one time keep their order.
pub fn sort_newest_first(documents: &Vec<Document>) -> (r: Vec<Document>)
    ensures
        r@.to_multiset() == documents@.to_multiset(),
        newest_first(r@),
{
    let mut r: Vec<Document> = Vec::new();
    let mut i: usize = 0;
    assert(documents@.subrange(0, 0) =~= r@);
    while i < documents.len()
        invariant
            i <= documents@.len(),
            r@.to_multiset() == documents@.subrange(0, i as int).to_multiset(),
            newest_first(r@),
        decreases documents@.len() - i,
    {
        let x = documents[i].copy();
        let mut k: usize = 0;
        while k < r.len() && !text_less(&r[k].created_at, &x.created_at)
            invariant
                k <= r@.len(),
                forall|m: int|
                    0 <= m < k ==> !lex_less((#[trigger] r@[m]).created_at@, x.created_at@),
            decreases r@.len() - k,
        {
            k += 1;
        }
        let ghost before = r@;
        r.insert(k, x);
        proof {
            insert_adds_one(before, k as int, x);
            let done = documents@.subrange(0, i as int);
            let more = documents@.subrange(0, i + 1);
            assert(more =~= done.push(x));
            vstd::seq_lib::to_multiset_build(done, x);
            assert forall|a: int, b: int|
                #![trigger r@[a], r@[b]]
                0 <= a < b < r@.len() implies !lex_less(r@[a].created_at@, r@[b].created_at@) by {
                let key = x.created_at@;
                if b < k {
                    assert(r@[a] == before[a] && r@[b] == before[b]);
                } else if b == k {
                    assert(r@[a] == before[a]);
                } else if a == k {
                    let other = before[b - 1];
                    assert(r@[b] == other);
                    let here = before[k as int];
                    assert(lex_less(here.created_at@, key));
                    if lex_less(key, other.created_at@) {
                        lex_less_transitive(here.created_at@, key, other.created_at@);
                        if b - 1 == k {
                            lex_less_irreflexive(here.created_at@);
                        } else {
                            assert(!lex_less(before[k as int].created_at@, before[b - 1].created_at@));
                        }
                    }
                } else if a < k {
                    assert(r@[a] == before[a] && r@[b] == before[b - 1]);
                } else {
                    assert(r@[a] == before[a - 1] && r@[b] == before[b - 1]);
                }
            }
        }
        i += 1;
    }
    assert(documents@.subrange(0, i as int) =~= documents@);
    r
}

impl Ledger {
    /// The headers of the documents of a kind, of one type only and of one
    /// status only where these are given, in the order in which the ledger
    /// holds them.
    pub fn headers_of(
        &self,
        kind: DocumentKind,
        type_filter: Option<TransactionType>,
        status_filter: Option<DocumentStatus>,
    ) -> (r: Vec<Document>)
        ensures
            r@ == selected(self.documents@, kind, type_filter, status_filter),
    {
        let mut r: Vec<Document> = Vec::new();
        let mut i: usize = 0;
        while i < self.documents.len()
            invariant
                i <= self.documents@.len(),
                r@ == selected(
                    self.documents@.subrange(0, i as int),
                    kind,
                    type_filter,
                    status_filter,
                ),
            decreases self.documents@.len() - i,
        {
            assert(self.documents@.subrange(0, i + 1).drop_last() =~= self.documents@.subrange(
                0,
                i as int,
            ));
            assert(self.documents@.subrange(0, i + 1).last() == self.documents@[i as int]);
            let doc = &self.documents[i].doc;
            let type_ok: bool = match type_filter {
                Some(t) => doc.transaction_type == t,
                None => true,
            };
            let status_ok: bool = match status_filter {
                Some(s) => doc.status == s,
                None => true,
            };
            if doc.kind == kind && type_ok && status_ok {
                r.push(doc.copy());
            }
            i += 1;
        }
        assert(self.documents@.subrange(0, i as int) =~= self.documents@);
        r
    }

    /// Lists the documents of a kind, of one type only and of one status only
    /// where these are given, the latest created first.
    pub fn documents_of(
        &self,
        kind: DocumentKind,
        type_filter: Option<TransactionType>,
        status_filter: Option<DocumentStatus>,
    ) -> (r: Vec<Document>)
        ensures
            r@.to_multiset() == selected(
                self.documents@,
                kind,
                type_filter,
                status_filter,
            ).to_multiset(),
            newest_first(r@),
    {
        let found = self.headers_of(kind, type_filter, status_filter);
        sort_newest_first(&found)
    }

    /// Reads a document with its line items, its payments and the name of its
    /// counterparty; there is none where the ledger does not hold the
    /// document.
    pub fn document_with_details(&self, kind: DocumentKind, id: &String) -> (r: Option<
        DocumentWithDetails,
    >)
        requires
            self.wf(),
        ensures
            r is Some <==> self.has_document(kind, id@),
            r is Some ==> {
                let e = self.documents@[self.document_index(kind, id@)];
                &&& r->0.document == e.doc
                &&& r->0.items@ == e.items@
                &&& r->0.payments@ == e.payments@
                &&& r->0.party_name == self.parties@[self.party_index(
                    e.doc.party_kind,
                    e.doc.party_id@,
                )].name
            },
    {
        let idx: usize = match self.find_document(kind, id) {
            Some(i) => i,
            None => {
                return None;
            },
        };
        proof {
            self.document_index_is(idx as int, kind, id@);
        }
        let e = &self.documents[idx];
        assert(self.has_party(e.doc.party_kind, e.doc.party_id@));
        let party_name: String = match self.find_party(e.doc.party_kind, &e.doc.party_id) {
            Some(p) => {
                proof {
                    self.party_index_is(p as int, e.doc.party_kind, e.doc.party_id@);
                }
                self.parties[p].name.clone()
            },
            None => String::from_str("Unknown"),
        };
        Some(
            DocumentWithDetails {
                document: e.doc.copy(),
                items: copy_lines(&e.items),
                payments: copy_payments(&e.payments),
                party_name,
            },
        )
    }
}

} // verus!
