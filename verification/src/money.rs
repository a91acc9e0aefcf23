//! Amounts of money and the payment status derived from them.

use vstd::prelude::*;
use crate::error::LedgerError;
use crate::text::{digit_char, digit_text, digits_of, reads, render_number};

verus! {

/// How many stored units make one whole currency unit.
pub const UNITS_PER_WHOLE: i64 = 1_000_000;

/// A balance adjustment smaller in magnitude than this (a thousandth of the
/// currency unit) changes the balance without leaving an audit record.
pub const HISTORY_THRESHOLD: i64 = 1_000;

/// How far a document has been paid.
#[derive(Clone, Copy, Debug, PartialEq, Eq, Structural)]
pub enum PaymentStatus {
    Unpaid,
    Partial,
    Paid,
}

/// The payment status that belongs to a paid amount and a total.
pub open spec fn payment_status_of(paid: int, total: int) -> PaymentStatus {
    if paid >= total {
        PaymentStatus::Paid
    } else if paid > 0 {
        PaymentStatus::Partial
    } else {
        PaymentStatus::Unpaid
    }
}

/// Derives the payment status from the paid amount and the total.
pub fn derive_payment_status(paid: i64, total: i64) -> (status: PaymentStatus)
    ensures
        status == payment_status_of(paid as int, total as int),
        status == PaymentStatus::Paid <==> paid >= total,
        status == PaymentStatus::Partial <==> 0 < paid && paid < total,
        status == PaymentStatus::Unpaid <==> paid <= 0 && paid < total,
{
    if paid >= total {
        PaymentStatus::Paid
    } else if paid > 0 {
        PaymentStatus::Partial
    } else {
        PaymentStatus::Unpaid
    }
}

/// Whether an adjustment of this size is recorded in a counterparty's history.
pub open spec fn is_recorded(amount: int) -> bool {
    amount >= HISTORY_THRESHOLD || amount <= -HISTORY_THRESHOLD
}

/// Tells whether an adjustment reaches the audit threshold.
pub fn reaches_threshold(amount: i64) -> (r: bool)
    ensures
        r == is_recorded(amount as int),
{
    amount >= HISTORY_THRESHOLD || amount <= -HISTORY_THRESHOLD
}

/// Whether a mathematical integer fits the stored amount type.
pub open spec fn fits_i64(v: int) -> bool {
    i64::MIN <= v <= i64::MAX
}

/// For every paid amount that is not negative, and every total, the derived
/// status is `Paid` exactly when the paid amount reaches the total, `Partial`
/// exactly when it lies strictly between zero and the total, and `Unpaid`
/// exactly when nothing was paid, provided that something is owed.
pub proof fn payment_status_cases(paid: int, total: int)
    requires
        paid >= 0,
        !(paid == 0 && total <= 0),
    ensures
        payment_status_of(paid, total) == PaymentStatus::Paid <==> paid >= total,
        payment_status_of(paid, total) == PaymentStatus::Partial <==> 0 < paid < total,
        payment_status_of(paid, total) == PaymentStatus::Unpaid <==> paid == 0,
{
}

/// An amount that is not negative, rounded to hundredths of the currency
/// unit, halves going up.
pub open spec fn hundredths_of(amount: int) -> int {
    (amount + 5_000) / 10_000
}

/// An amount that is not negative, written with two decimal places.
pub open spec fn unsigned_amount_text(amount: int) -> Seq<char> {
    let h = hundredths_of(amount);
    digits_of(h / 100) + seq!['.', digit_char((h % 100) / 10), digit_char(h % 10)]
}

/// An amount written with two decimal places, with a minus sign in front
/// where it is negative.
pub open spec fn amount_text(amount: int) -> Seq<char> {
    if amount < 0 {
        seq!['-'] + unsigned_amount_text(-amount)
    } else {
        unsigned_amount_text(amount)
    }
}

/// Writes an amount with two decimal places.
pub fn format_amount(amount: i64) -> (s: String)
    ensures
        s@ == amount_text(amount as int),
{
    proof {
        reveal_strlit("-");
        reveal_strlit("");
        reveal_strlit(".");
    }
    let wide: i128 = amount as i128;
    let magnitude: i128 = if wide < 0 {
        -wide
    } else {
        wide
    };
    let h: u64 = ((magnitude + 5_000) / 10_000) as u64;
    let mut s = if amount < 0 {
        String::from_str("-")
    } else {
        String::from_str("")
    };
    let whole = render_number(h / 100);
    s.append(whole.as_str());
    s.append(".");
    s.append(digit_text((h % 100) / 10));
    s.append(digit_text(h % 10));
    assert(s@ =~= amount_text(amount as int));
    s
}

/// The word that the store keeps for a payment status.
pub open spec fn payment_word(s: PaymentStatus) -> Seq<char> {
    match s {
        PaymentStatus::Unpaid => "unpaid"@,
        PaymentStatus::Partial => "partial"@,
        PaymentStatus::Paid => "paid"@,
    }
}

impl PaymentStatus {
    /// The word that the store keeps for the payment status.
    pub fn as_str(&self) -> (w: &'static str)
        ensures
            w@ == payment_word(*self),
    {
        match self {
            PaymentStatus::Unpaid => "unpaid",
            PaymentStatus::Partial => "partial",
            PaymentStatus::Paid => "paid",
        }
    }

    /// Reads a payment status from its word; any other text is refused.
    pub fn parse(word: &String) -> (r: Result<PaymentStatus, LedgerError>)
        ensures
            r is Ok ==> word@ == payment_word(r->Ok_0),
            r is Err ==> r->Err_0 == LedgerError::InvalidStatus && forall|s: PaymentStatus|
                word@ != #[trigger] payment_word(s),
    {
        if reads(word, "unpaid") {
            Ok(PaymentStatus::Unpaid)
        } else if reads(word, "partial") {
            Ok(PaymentStatus::Partial)
        } else if reads(word, "paid") {
            Ok(PaymentStatus::Paid)
        } else {
            Err(LedgerError::InvalidStatus)
        }
    }
}

} // verus!
