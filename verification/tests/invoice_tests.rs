use chrono::NaiveDate;
use trix_connect::invoice::{Customer, Invoice, InvoiceLine, Totals};
use trix_connect::vat::{VatRate, VatTreatment};
use trix_connect::version::ContractVersion;

fn sample() -> Invoice {
    Invoice {
        contract: ContractVersion::new(1, 0),
        source: "facturix".into(),
        external_id: "FX-2026-0001".into(),
        invoice_number: "2026-0001".into(),
        issue_date: NaiveDate::from_ymd_opt(2026, 9, 10).unwrap(),
        due_date: None,
        currency: "EUR".into(),
        customer: Customer {
            external_id: None,
            name: "Voorbeeld BV".into(),
            vat_number: Some("NL001234567B01".into()),
            address: None,
            email: None,
            country: None,
        },
        lines: vec![InvoiceLine {
            description: "Advies".into(),
            quantity: "2".into(),
            unit: Some("uur".into()),
            unit_price: "95.00".into(),
            vat: VatTreatment::Standard,
            revenue_hint: None,
        }],
        totals: Totals {
            net: "190.00".into(),
            vat: "39.90".into(),
            gross: "229.90".into(),
        },
        notes: None,
        reference: None,
    }
}

#[test]
fn invoice_copies_keep_their_dates() {
    let inv = sample();
    let copy = inv.clone();
    assert_eq!(copy, inv);
    assert_eq!(copy.issue_date, NaiveDate::from_ymd_opt(2026, 9, 10).unwrap());
}

#[test]
fn rate_row_holds_its_window() {
    let r = VatRate {
        treatment: VatTreatment::Standard,
        percentage: Some("21.00".into()),
        valid_from: NaiveDate::from_ymd_opt(2019, 1, 1).unwrap(),
        valid_to: None,
        label_key: "vat.standard".into(),
    };
    assert_eq!(r.clone(), r);
    assert_ne!(VatTreatment::Reduced, VatTreatment::Reverse);
}
