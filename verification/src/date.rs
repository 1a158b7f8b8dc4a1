//! The calendar date carried on invoices and VAT rates. The library never
//! looks inside a date; it only carries `chrono::NaiveDate` values through.

use vstd::prelude::*;

verus! {

/// Makes `chrono::NaiveDate` usable in the library's types, as an opaque value.
#[verifier::external_type_specification]
#[verifier::external_body]
pub struct ExNaiveDate(chrono::NaiveDate);

/// `<chrono::NaiveDate as Clone>::clone`. chrono derives `Copy` and `Clone`
/// for `NaiveDate`, so a clone is a copy of the same date.
pub assume_specification[ <chrono::NaiveDate as Clone>::clone ](d: &chrono::NaiveDate) -> (r:
    chrono::NaiveDate)
    ensures
        r == *d,
;

} // verus!
