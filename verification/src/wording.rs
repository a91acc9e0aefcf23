//! The words that the audit trails use.

use vstd::prelude::*;
use crate::effects::phrase;
use crate::kinds::{PartyKind, TransactionType};
use crate::money::{amount_text, format_amount};

verus! {

/// The tag of a stock record that applies a document's line: goods bought or
/// goods sold.
pub open spec fn stock_tag(t: TransactionType) -> Seq<char> {
    match t {
        TransactionType::Purchase => "Purchased"@,
        TransactionType::Sale => "Sold"@,
    }
}

/// The tag of a stock record that applies a document's line.
pub fn stock_tag_text(t: TransactionType) -> (s: &'static str)
    ensures
        s@ == stock_tag(t),
{
    match t {
        TransactionType::Purchase => "Purchased",
        TransactionType::Sale => "Sold",
    }
}

/// The tag of a counterparty record that applies a completed document.
pub open spec fn completion_tag(kind: PartyKind) -> Seq<char> {
    match kind {
        PartyKind::Client => "Sale Completed"@,
        PartyKind::Supplier => "Purchase Order Completed"@,
    }
}

/// The tag of a counterparty record that applies a completed document.
pub fn completion_tag_text(kind: PartyKind) -> (s: &'static str)
    ensures
        s@ == completion_tag(kind),
{
    match kind {
        PartyKind::Client => "Sale Completed",
        PartyKind::Supplier => "Purchase Order Completed",
    }
}

/// The tag of a counterparty record that takes a completed document back.
pub open spec fn reversal_tag(kind: PartyKind) -> Seq<char> {
    match kind {
        PartyKind::Client => "Sale Reverted to Draft"@,
        PartyKind::Supplier => "Purchase Order Reverted to Draft"@,
    }
}

/// The tag of a counterparty record that takes a completed document back.
pub fn reversal_tag_text(kind: PartyKind) -> (s: &'static str)
    ensures
        s@ == reversal_tag(kind),
{
    match kind {
        PartyKind::Client => "Sale Reverted to Draft",
        PartyKind::Supplier => "Purchase Order Reverted to Draft",
    }
}

/// The tag of a counterparty record of a payment.
pub open spec fn payment_tag(kind: PartyKind) -> Seq<char> {
    match kind {
        PartyKind::Client => "Payment Received"@,
        PartyKind::Supplier => "Payment Made"@,
    }
}

/// The tag of a counterparty record of a payment.
pub fn payment_tag_text(kind: PartyKind) -> (s: &'static str)
    ensures
        s@ == payment_tag(kind),
{
    match kind {
        PartyKind::Client => "Payment Received",
        PartyKind::Supplier => "Payment Made",
    }
}

/// What the document's own trail says of a payment.
pub open spec fn payment_details(amount: int) -> Seq<char> {
    "Payment of $"@ + amount_text(amount) + " added"@
}

/// What the document's own trail says of a payment.
pub fn payment_details_text(amount: i64) -> (s: String)
    ensures
        s@ == payment_details(amount as int),
{
    let a = format_amount(amount);
    phrase("Payment of $", &a, " added")
}

} // verus!
