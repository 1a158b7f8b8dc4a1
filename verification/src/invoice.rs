//! The invoice contract: the data shape that crosses the seam from an
//! invoicing app to a bookkeeping app. It is deliberately bookkeeping-neutral:
//! no ledger accounts, no VAT codes, no journal lines. The sender describes an
//! invoice; the receiver maps it to its own bookkeeping.
//!
//! Optional fields may be absent on the wire and unknown fields are ignored,
//! so an older reader tolerates a newer sender and vice versa within a major.
//! All money travels as decimal strings.

use chrono::NaiveDate;
use vstd::prelude::*;

use crate::vat::VatTreatment;
use crate::version::ContractVersion;

verus! {

/// A complete sales invoice handed over for booking.
#[derive(Clone, Debug, PartialEq, Eq)]
pub struct Invoice {
    /// The negotiated contract version this payload is written against.
    pub contract: ContractVersion,
    /// Which app produced it, e.g. "facturix".
    pub source: String,
    /// The sender's own stable id for this invoice: the idempotency key.
    /// Booking the same `external_id` twice must not double-book.
    pub external_id: String,
    /// The sender's human-visible invoice number.
    pub invoice_number: String,
    pub issue_date: NaiveDate,
    pub due_date: Option<NaiveDate>,
    /// ISO-4217, e.g. "EUR".
    pub currency: String,
    pub customer: Customer,
    pub lines: Vec<InvoiceLine>,
    /// Totals computed by the sender. The receiver verifies rather than
    /// trusts them (see [`Totals`]).
    pub totals: Totals,
    pub notes: Option<String>,
    pub reference: Option<String>,
}

#[derive(Clone, Debug, PartialEq, Eq)]
pub struct Customer {
    /// Shared master-data id when coupled; `None` when the sender owns the
    /// customer standalone.
    pub external_id: Option<String>,
    pub name: String,
    pub vat_number: Option<String>,
    pub address: Option<Address>,
    pub email: Option<String>,
    /// ISO-3166 alpha-2; the receiver assumes "NL" when absent.
    pub country: Option<String>,
}

#[derive(Clone, Debug, PartialEq, Eq)]
pub struct Address {
    pub line1: Option<String>,
    pub line2: Option<String>,
    pub postal_code: Option<String>,
    pub city: Option<String>,
}

#[derive(Clone, Debug, PartialEq, Eq)]
pub struct InvoiceLine {
    pub description: String,
    /// Decimal as a string.
    pub quantity: String,
    /// "stuk", "uur", ... Free-form; the receiver does not interpret it.
    pub unit: Option<String>,
    /// Unit price excluding VAT, decimal as a string.
    pub unit_price: String,
    /// Which rate band applies. The receiver maps it to its own VAT code and
    /// revenue account.
    pub vat: VatTreatment,
    /// Optional steer toward a revenue grouping. The receiver is free to
    /// ignore it; it must never be required to honour it.
    pub revenue_hint: Option<String>,
}

/// Sender-computed totals, decimal strings. They ride along so the receiver
/// can verify its own mapping against them and refuse a payload whose rounding
/// does not reconcile, rather than post a crooked booking.
#[derive(Clone, Debug, PartialEq, Eq)]
pub struct Totals {
    pub net: String,
    pub vat: String,
    pub gross: String,
}

} // verus!
