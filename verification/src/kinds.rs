//! The closed sets of tags that classify documents and counterparties.

use vstd::prelude::*;
use crate::error::LedgerError;
use crate::text::reads;

verus! {

/// What sort of commercial document a record is.
#[derive(Clone, Copy, Debug, PartialEq, Eq, Structural)]
pub enum DocumentKind {
    PurchaseOrder,
    CustomerSale,
    Transaction,
}

/// Whether a document sells goods to its counterparty or buys goods from it.
#[derive(Clone, Copy, Debug, PartialEq, Eq, Structural)]
pub enum TransactionType {
    Sale,
    Purchase,
}

/// Whether a counterparty is a client or a supplier.
#[derive(Clone, Copy, Debug, PartialEq, Eq, Structural)]
pub enum PartyKind {
    Client,
    Supplier,
}

/// Where a document stands in its life cycle.
#[derive(Clone, Copy, Debug, PartialEq, Eq, Structural)]
pub enum DocumentStatus {
    Draft,
    Completed,
    Cancelled,
}

/// The direction in which a completed document of this type moves stock:
/// a purchase adds to it, a sale takes from it.
pub open spec fn stock_sign(t: TransactionType) -> int {
    match t {
        TransactionType::Purchase => 1,
        TransactionType::Sale => -1,
    }
}

/// Whether a document of this kind may have this type and this sort of
/// counterparty: a purchase order buys from a supplier, a customer sale sells
/// to a client, a generic transaction is free in both.
pub open spec fn kind_admits(kind: DocumentKind, t: TransactionType, party: PartyKind) -> bool {
    match kind {
        DocumentKind::PurchaseOrder => t == TransactionType::Purchase && party == PartyKind::Supplier,
        DocumentKind::CustomerSale => t == TransactionType::Sale && party == PartyKind::Client,
        DocumentKind::Transaction => true,
    }
}

/// Tests whether a document of this kind may have this type and this sort of
/// counterparty.
pub fn check_kind_admits(kind: DocumentKind, t: TransactionType, party: PartyKind) -> (r: bool)
    ensures
        r == kind_admits(kind, t, party),
{
    match kind {
        DocumentKind::PurchaseOrder => t == TransactionType::Purchase && party
            == PartyKind::Supplier,
        DocumentKind::CustomerSale => t == TransactionType::Sale && party == PartyKind::Client,
        DocumentKind::Transaction => true,
    }
}

/// The prefix of the numbers given to documents of a kind and type.
pub open spec fn number_prefix(kind: DocumentKind, t: TransactionType) -> Seq<char> {
    match kind {
        DocumentKind::PurchaseOrder => "ORD"@,
        DocumentKind::CustomerSale => "SALE"@,
        DocumentKind::Transaction => match t {
            TransactionType::Sale => "SALE"@,
            TransactionType::Purchase => "PUR"@,
        },
    }
}

/// The prefix of the numbers given to documents of a kind and type.
pub fn prefix_text(kind: DocumentKind, t: TransactionType) -> (p: &'static str)
    ensures
        p@ == number_prefix(kind, t),
{
    match kind {
        DocumentKind::PurchaseOrder => "ORD",
        DocumentKind::CustomerSale => "SALE",
        DocumentKind::Transaction => match t {
            TransactionType::Sale => "SALE",
            TransactionType::Purchase => "PUR",
        },
    }
}

/// The word that the store keeps for a status.
pub open spec fn status_word(s: DocumentStatus) -> Seq<char> {
    match s {
        DocumentStatus::Draft => "draft"@,
        DocumentStatus::Completed => "completed"@,
        DocumentStatus::Cancelled => "cancelled"@,
    }
}

/// The word that the store keeps for a type of document.
pub open spec fn type_word(t: TransactionType) -> Seq<char> {
    match t {
        TransactionType::Sale => "Sale"@,
        TransactionType::Purchase => "Purchase"@,
    }
}

/// The word that the store keeps for a sort of counterparty.
pub open spec fn party_word(k: PartyKind) -> Seq<char> {
    match k {
        PartyKind::Client => "Client"@,
        PartyKind::Supplier => "Supplier"@,
    }
}

impl DocumentStatus {
    /// The word that the store keeps for the status.
    pub fn as_str(&self) -> (w: &'static str)
        ensures
            w@ == status_word(*self),
    {
        match self {
            DocumentStatus::Draft => "draft",
            DocumentStatus::Completed => "completed",
            DocumentStatus::Cancelled => "cancelled",
        }
    }

    /// Reads a status from its word; any other text is refused.
    pub fn parse(word: &String) -> (r: Result<DocumentStatus, LedgerError>)
        ensures
            r is Ok ==> word@ == status_word(r->Ok_0),
            r is Err ==> r->Err_0 == LedgerError::InvalidStatus && forall|s: DocumentStatus|
                word@ != #[trigger] status_word(s),
    {
        if reads(word, "draft") {
            Ok(DocumentStatus::Draft)
        } else if reads(word, "completed") {
            Ok(DocumentStatus::Completed)
        } else if reads(word, "cancelled") {
            Ok(DocumentStatus::Cancelled)
        } else {
            Err(LedgerError::InvalidStatus)
        }
    }
}

impl TransactionType {
    /// The word that the store keeps for the type.
    pub fn as_str(&self) -> (w: &'static str)
        ensures
            w@ == type_word(*self),
    {
        match self {
            TransactionType::Sale => "Sale",
            TransactionType::Purchase => "Purchase",
        }
    }

    /// Reads a type from its word; any other text is refused.
    pub fn parse(word: &String) -> (r: Result<TransactionType, LedgerError>)
        ensures
            r is Ok ==> word@ == type_word(r->Ok_0),
            r is Err ==> r->Err_0 == LedgerError::InvalidStatus && forall|t: TransactionType|
                word@ != #[trigger] type_word(t),
    {
        if reads(word, "Sale") {
            Ok(TransactionType::Sale)
        } else if reads(word, "Purchase") {
            Ok(TransactionType::Purchase)
        } else {
            Err(LedgerError::InvalidStatus)
        }
    }
}

impl PartyKind {
    /// The word that the store keeps for the sort of counterparty.
    pub fn as_str(&self) -> (w: &'static str)
        ensures
            w@ == party_word(*self),
    {
        match self {
            PartyKind::Client => "Client",
            PartyKind::Supplier => "Supplier",
        }
    }

    /// Reads a sort of counterparty from its word; any other text is refused.
    pub fn parse(word: &String) -> (r: Result<PartyKind, LedgerError>)
        ensures
            r is Ok ==> word@ == party_word(r->Ok_0),
            r is Err ==> r->Err_0 == LedgerError::InvalidStatus && forall|k: PartyKind|
                word@ != #[trigger] party_word(k),
    {
        if reads(word, "Client") {
            Ok(PartyKind::Client)
        } else if reads(word, "Supplier") {
            Ok(PartyKind::Supplier)
        } else {
            Err(LedgerError::InvalidStatus)
        }
    }
}

} // verus!
