//! Identifiers and timestamps that the environment supplies.

use vstd::prelude::*;

verus! {

/// Draws a new random identifier, written in the hyphenated form of 36
/// characters.
///
/// Calls `uuid::Uuid::new_v4` and formats the result with its `Display`
/// impl.  Nothing is claimed of the identifier but its length; in
/// particular two calls may or may not give different identifiers.
#[verifier::external_body]
pub(crate) fn fresh_id() -> (id: String)
    ensures
        id@.len() == 36,
{
    uuid::Uuid::new_v4().to_string()
}

/// Reads the clock and writes the current instant in UTC in RFC 3339 form.
///
/// Calls `chrono::Utc::now` and `chrono::DateTime::to_rfc3339`.  Nothing is
/// claimed of the text.  The clock is assumed not to stand before 1970.
#[verifier::external_body]
pub(crate) fn timestamp_now() -> (t: String)
{
    chrono::Utc::now().to_rfc3339()
}

/// Reads the clock and writes the current year in UTC.
///
/// Calls `chrono::Utc::now` and `chrono::DateTime::format` with the pattern
/// `%Y`.  Nothing is claimed of the text.  The clock is assumed not to stand
/// before 1970.
#[verifier::external_body]
pub(crate) fn current_year() -> (y: String)
{
    chrono::Utc::now().format("%Y").to_string()
}

} // verus!
