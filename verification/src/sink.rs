//! The values exchanged with the bookkeeping side: the outcome of booking an
//! invoice, the payment state of a booked invoice, and the ways a call across
//! the seam fails.

use vstd::prelude::*;

verus! {

/// The outcome of booking an invoice.
#[derive(Clone, Debug, PartialEq, Eq)]
pub struct BookResult {
    /// The receiver's own transaction id.
    pub booking_ref: String,
    /// The document/sequence number the receiver assigned.
    pub document_number: String,
    /// True when this call matched an already-booked `external_id`.
    pub already_booked: bool,
}

/// The payment state of a booked invoice.
#[derive(Clone, Debug, PartialEq, Eq)]
pub enum PaymentStatus {
    Open,
    /// Partly paid; `paid` is a decimal string.
    Partial { paid: String },
    Paid,
}

/// Failure modes on the seam. These map to i18n keys at the app layer; the
/// variants are neutral.
#[derive(Clone, Debug, PartialEq, Eq)]
pub enum BookError {
    /// No common contract version; `theirs`/`ours` are the advertised bands.
    ContractMismatch { theirs: String, ours: String },
    /// Sender totals do not reconcile with the receiver's mapping.
    TotalsMismatch,
    /// The target period is closed for mutations.
    ClosedPeriod,
    /// The document number collides with an existing one.
    DuplicateNumber,
    /// Transport/connection failure; carries a detail string for logging.
    Transport(String),
}

} // verus!
