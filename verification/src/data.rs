//! Recognition of calendar dates, left to `chrono`.

use vstd::prelude::*;

verus! {

/// The format in which a deadline is written: year, month and day.
pub open spec fn formato_prazo() -> Seq<char> {
    "%Y-%m-%d"@
}

/// Whether `chrono::NaiveDate::parse_from_str` reads `texto` as a date
/// under the format `formato`.
pub uninterp spec fn data_reconhecida(texto: Seq<char>, formato: Seq<char>) -> bool;

/// Calls `chrono::NaiveDate::parse_from_str` and tells whether it returned a
/// date. The contract claims only that the answer depends on the two texts
/// alone. It is limited to the year-month-day format: under it the parser
/// answers every text with a date or an error and does not panic.
#[verifier::external_body]
pub(crate) fn reconhecer_data(texto: &str, formato: &str) -> (aceita: bool)
    requires
        formato@ == formato_prazo(),
    ensures
        aceita == data_reconhecida(texto@, formato@),
{
    chrono::NaiveDate::parse_from_str(texto, formato).is_ok()
}

} // verus!
