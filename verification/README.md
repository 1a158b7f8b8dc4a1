# trix-connect

The neutral coupling layer of the -trix application family, as a Verus
library whose behaviour is stated in contracts and proved.

- `src/version.rs`: contract versions, their text form (`"1.0"`), reading one
  back, and handshake negotiation, with the laws of negotiation and of the
  text round trip. `src/version/order.rs` gives versions their comparison
  operators.
- `src/decimal.rs`: reading and writing the decimal numbers of a version.
- `src/manifest.rs`: the discovery manifest and the decisions discovery makes
  (directory, file name, which entries are manifests, capabilities, lookup).
- `src/invoice.rs`, `src/vat.rs`, `src/sink.rs`: the data that crosses the
  seam. `src/date.rs` lets these types carry `chrono::NaiveDate`.
- `app/`: the host side: serde/thiserror copies of the types, the async
  bookkeeping traits, and the file access of discovery.
