//! The numbering service: the next human-readable number of a document.

use vstd::prelude::*;
use crate::kinds::{number_prefix, prefix_text, DocumentKind, TransactionType};
use crate::ledger::Ledger;
use crate::text::{
    has_prefix, is_prefix, last_segment, lex_less, lex_less_connected, lex_less_irreflexive,
    lex_less_transitive, padded3, parsed_number, render_padded3, text_less, trailing_number,
};

verus! {

/// What all numbers of one kind, type and year begin with: the prefix, the
/// year, and a hyphen after each.
pub open spec fn number_stem(kind: DocumentKind, t: TransactionType, year: Seq<char>) -> Seq<
    char,
> {
    number_prefix(kind, t) + "-"@ + year + "-"@
}

/// The sequence number that follows a document number: one more than the
/// number after its last hyphen, or one where no number stands there.
pub open spec fn sequence_after(number: Seq<char>) -> int {
    match parsed_number(last_segment(number, '-')) {
        Some(n) => n + 1,
        None => 1,
    }
}

impl Ledger {
    /// Whether the document at place `i` is of the kind and has a number that
    /// begins with the stem.
    pub open spec fn matches_stem(self, i: int, kind: DocumentKind, stem: Seq<char>) -> bool {
        &&& 0 <= i < self.documents@.len()
        &&& self.documents@[i].doc.kind == kind
        &&& is_prefix(stem, self.documents@[i].doc.number@)
    }

    /// Whether the document at place `i` has the greatest of the numbers of
    /// its kind that begin with the stem.
    pub open spec fn is_greatest_number(self, i: int, kind: DocumentKind, stem: Seq<char>) -> bool {
        &&& self.matches_stem(i, kind, stem)
        &&& forall|j: int|
            self.matches_stem(j, kind, stem) ==> !lex_less(
                self.documents@[i].doc.number@,
                #[trigger] self.documents@[j].doc.number@,
            )
    }

    /// Whether `n` is the next number of the kind under the stem: the stem
    /// and `001` where no number of the kind begins with the stem, and
    /// otherwise the stem and the sequence number that follows the greatest
    /// of them, written with three digits at least.
    pub open spec fn is_next_number(self, kind: DocumentKind, stem: Seq<char>, n: Seq<char>) -> bool {
        &&& (forall|i: int| !self.matches_stem(i, kind, stem)) ==> n == stem + padded3(1)
        &&& forall|i: int|
            self.is_greatest_number(i, kind, stem) ==> n == stem + padded3(
                sequence_after(self.documents@[i].doc.number@),
            )
    }

    /// Generates the next number for a document of a kind and type in a year.
    pub fn next_number(&self, kind: DocumentKind, t: TransactionType, year: &String) -> (n: String)
        ensures
            self.is_next_number(kind, number_stem(kind, t, year@), n@),
    {
        let mut stem = String::from_str(prefix_text(kind, t));
        stem.append("-");
        stem.append(year.as_str());
        stem.append("-");
        assert(stem@ == number_stem(kind, t, year@));
        let mut best: Option<usize> = None;
        let mut i: usize = 0;
        while i < self.documents.len()
            invariant
                i <= self.documents@.len(),
                best is None ==> forall|j: int| 0 <= j < i ==> !self.matches_stem(j, kind, stem@),
                best is Some ==> best->0 < i && self.matches_stem(best->0 as int, kind, stem@),
                best is Some ==> forall|j: int|
                    0 <= j < i && self.matches_stem(j, kind, stem@) ==> !lex_less(
                        self.documents@[best->0 as int].doc.number@,
                        #[trigger] self.documents@[j].doc.number@,
                    ),
            decreases self.documents@.len() - i,
        {
            if self.documents[i].doc.kind == kind && has_prefix(
                &self.documents[i].doc.number,
                &stem,
            ) {
                let better: bool = match best {
                    None => true,
                    Some(b) => text_less(
                        &self.documents[b].doc.number,
                        &self.documents[i].doc.number,
                    ),
                };
                if better {
                    proof {
                        let here = self.documents@[i as int].doc.number@;
                        lex_less_irreflexive(here);
                        if best is Some {
                            let was = self.documents@[best->0 as int].doc.number@;
                            assert forall|j: int|
                                0 <= j < i && self.matches_stem(j, kind, stem@) implies !lex_less(
                                here,
                                #[trigger] self.documents@[j].doc.number@,
                            ) by {
                                let other = self.documents@[j].doc.number@;
                                if lex_less(here, other) {
                                    lex_less_transitive(was, here, other);
                                }
                            }
                        }
                    }
                    best = Some(i);
                }
            }
            i += 1;
        }
        let next: u64 = match best {
            None => 1,
            Some(b) => match trailing_number(&self.documents[b].doc.number) {
                Some(v) => (v + 1) as u64,
                None => 1,
            },
        };
        let digits = render_padded3(next);
        let ghost stem_text = stem@;
        stem.append(digits.as_str());
        proof {
            if best is Some {
                let b = best->0 as int;
                let found = self.documents@[b].doc.number@;
                assert(next == sequence_after(found));
                assert(stem@ == stem_text + padded3(sequence_after(found)));
                assert forall|g: int| self.is_greatest_number(g, kind, stem_text) implies stem@
                    == stem_text + padded3(sequence_after(self.documents@[g].doc.number@)) by {
                    let other = self.documents@[g].doc.number@;
                    assert(self.matches_stem(b, kind, stem_text));
                    assert(!lex_less(other, found));
                    assert(!lex_less(found, other));
                    if other != found {
                        lex_less_connected(other, found);
                    }
                }
                assert(self.matches_stem(b, kind, stem_text));
            } else {
                assert forall|g: int| self.is_greatest_number(g, kind, stem_text) implies stem@
                    == stem_text + padded3(sequence_after(self.documents@[g].doc.number@)) by {
                    assert(self.matches_stem(g, kind, stem_text));
                }
            }
        }
        stem
    }
}

} // verus!
