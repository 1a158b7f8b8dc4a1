//! # trix-connect
//!
//! The neutral coupling layer shared by the -trix application family: an
//! invoicing app, a bookkeeping app and a master-data app talk over the seam
//! described here, and each stays usable on its own.
//!
//! * [`version`]: the contract version, its text form, and handshake
//!   negotiation. Only this number governs wire compatibility.
//! * [`manifest`]: the data and the decisions behind local discovery.
//! * [`invoice`]: the bookkeeping-neutral invoice contract.
//! * [`vat`] / [`sink`]: VAT treatments and the values exchanged with the
//!   bookkeeping side.
//!
//! Additive change bumps the minor; changing how an existing field is read
//! bumps the major. Different majors never negotiate to a common version.

mod date;
pub mod decimal;
pub mod invoice;
pub mod manifest;
pub mod sink;
pub mod vat;
pub mod version;

pub use invoice::{Address, Customer, Invoice, InvoiceLine, Totals};
pub use manifest::{capability, AppManifest};
pub use sink::{BookError, BookResult, PaymentStatus};
pub use vat::{VatRate, VatTreatment};
pub use version::{negotiate, ContractRange, ContractVersion};

use vstd::prelude::*;

verus! {

/// The contract version this build of the crate implements. An app
/// advertises a [`ContractRange`], not this bare value, but this is the natural
/// upper bound for a freshly built app.
pub fn contract() -> (v: ContractVersion)
    ensures
        v.major == 1,
        v.minor == 0,
{
    ContractVersion::new(1, 0)
}

} // verus!
