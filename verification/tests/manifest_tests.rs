use trix_connect::manifest::{
    capability, find, is_manifest_file, manifest_dir, manifest_file_name, AppManifest,
};
use trix_connect::version::{ContractRange, ContractVersion};

fn sample(app: &str) -> AppManifest {
    AppManifest {
        app: app.into(),
        app_version: "0.96.0".into(),
        base_url: "http://localhost:8080".into(),
        contract: ContractRange::new(ContractVersion::new(1, 0), ContractVersion::new(1, 2)),
        capabilities: vec![
            capability::BOOK_SALES_INVOICE.into(),
            capability::VAT_RATES.into(),
        ],
    }
}

#[test]
fn capability_presence_is_reported() {
    let m = sample("ledgerix");
    assert!(m.has_capability(capability::VAT_RATES));
    assert!(m.has_capability(capability::BOOK_SALES_INVOICE));
    assert!(!m.has_capability(capability::PAYMENT_STATUS));
    assert!(!m.has_capability("vat_rate"));
    assert!(!m.has_capability(""));
}

#[test]
fn capability_strings_are_stable() {
    assert_eq!(capability::BOOK_SALES_INVOICE, "book_sales_invoice");
    assert_eq!(capability::PAYMENT_STATUS, "payment_status");
    assert_eq!(capability::VAT_RATES, "vat_rates");
}

#[test]
fn find_returns_the_first_matching_manifest() {
    let mut second = sample("ledgerix");
    second.app_version = "1.0.0".into();
    let all = vec![sample("facturix"), sample("ledgerix"), second];
    let found = find(all.clone(), "ledgerix").expect("manifest should be discoverable");
    assert_eq!(found, sample("ledgerix"));
    assert_eq!(find(all.clone(), "facturix"), Some(sample("facturix")));
    assert_eq!(find(all, "referix"), None);
    assert_eq!(find(Vec::new(), "ledgerix"), None);
}

#[test]
fn manifest_file_is_named_after_the_app() {
    assert_eq!(manifest_file_name("ledgerix"), "ledgerix.json");
    assert_eq!(manifest_file_name(""), ".json");
}

#[test]
fn only_json_entries_are_manifests() {
    assert!(is_manifest_file("ledgerix.json"));
    assert!(is_manifest_file("a.b.json"));
    assert!(is_manifest_file("..json"));
    assert!(!is_manifest_file(".json"));
    assert!(!is_manifest_file("json"));
    assert!(!is_manifest_file("ledgerix.JSON"));
    assert!(!is_manifest_file("ledgerix.json.bak"));
    assert!(!is_manifest_file("ledgerix.jsonx"));
    assert!(!is_manifest_file(""));
}

#[test]
fn override_directory_wins() {
    assert_eq!(
        manifest_dir(Some("/tmp/trix".to_string()), "/var/lib/trix".to_string()),
        "/tmp/trix"
    );
    assert_eq!(manifest_dir(None, "/var/lib/trix".to_string()), "/var/lib/trix");
}
