//! Why the ledger refuses an operation.

use vstd::prelude::*;

verus! {

/// The reasons for which an operation on the ledger is refused.  A refused
/// operation leaves the ledger as it was.
#[derive(Clone, Copy, Debug, PartialEq, Eq, Structural)]
pub enum LedgerError {
    /// No document of the kind has the identifier.
    DocumentNotFound,
    /// No counterparty of the sort has the identifier.
    PartyNotFound,
    /// No catalog item has the identifier.
    CatalogItemNotFound,
    /// A record of the same sort already has the identifier.
    DuplicateId,
    /// A document of the same kind already has the number.
    DuplicateNumber,
    /// The document's kind, type and sort of counterparty do not go together.
    InvalidDocument,
    /// The text is not one of the status values.
    InvalidStatus,
    /// The line item has a negative quantity, or its total is not its
    /// quantity times its unit price, or it names another document.
    InvalidItem,
    /// The payment's amount is not positive, or it names another document.
    InvalidPayment,
    /// A total, a balance or a stock figure would leave the range of the
    /// amount type.
    AmountOverflow,
    /// A cash session is already open.
    SessionAlreadyOpen,
    /// No open cash session has the identifier.
    SessionNotOpen,
}

impl LedgerError {
    /// The message shown to the caller.
    pub fn message(&self) -> (m: &'static str)
        ensures
            m@ == error_text(*self),
    {
        match self {
            LedgerError::DocumentNotFound => "Document not found",
            LedgerError::PartyNotFound => "Counterparty not found",
            LedgerError::CatalogItemNotFound => "Inventory item not found",
            LedgerError::DuplicateId => "Identifier already in use",
            LedgerError::DuplicateNumber => "Document number already in use",
            LedgerError::InvalidDocument => "Document kind, type and counterparty do not match",
            LedgerError::InvalidStatus => "Invalid status value",
            LedgerError::InvalidItem => "Invalid line item",
            LedgerError::InvalidPayment => "Invalid payment",
            LedgerError::AmountOverflow => "Amount out of range",
            LedgerError::SessionAlreadyOpen =>
                "A session is already open. Close it before starting a new one.",
            LedgerError::SessionNotOpen => "No open session with this identifier",
        }
    }
}

/// The message that belongs to an error.
pub open spec fn error_text(e: LedgerError) -> Seq<char> {
    match e {
        LedgerError::DocumentNotFound => "Document not found"@,
        LedgerError::PartyNotFound => "Counterparty not found"@,
        LedgerError::CatalogItemNotFound => "Inventory item not found"@,
        LedgerError::DuplicateId => "Identifier already in use"@,
        LedgerError::DuplicateNumber => "Document number already in use"@,
        LedgerError::InvalidDocument => "Document kind, type and counterparty do not match"@,
        LedgerError::InvalidStatus => "Invalid status value"@,
        LedgerError::InvalidItem => "Invalid line item"@,
        LedgerError::InvalidPayment => "Invalid payment"@,
        LedgerError::AmountOverflow => "Amount out of range"@,
        LedgerError::SessionAlreadyOpen =>
            "A session is already open. Close it before starting a new one."@,
        LedgerError::SessionNotOpen => "No open session with this identifier"@,
    }
}

} // verus!
