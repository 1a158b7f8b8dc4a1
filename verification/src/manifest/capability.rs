//! Capability strings advertised in a manifest. Presence gates optional calls,
//! so an older peer missing one degrades gracefully instead of erroring.

use vstd::prelude::*;

verus! {

pub const BOOK_SALES_INVOICE: &'static str = "book_sales_invoice";

pub const PAYMENT_STATUS: &'static str = "payment_status";

pub const VAT_RATES: &'static str = "vat_rates";

} // verus!
