use trix_connect::version::{negotiate, ContractRange, ContractVersion};

#[test]
fn parses_and_renders() {
    let v: ContractVersion = "1.2".parse().unwrap();
    assert_eq!(v, ContractVersion::new(1, 2));
    assert_eq!(v.to_string(), "1.2");
}

#[test]
fn orders_by_major_then_minor() {
    assert!(ContractVersion::new(1, 9) < ContractVersion::new(2, 0));
    assert!(ContractVersion::new(1, 2) > ContractVersion::new(1, 1));
}

#[test]
fn negotiate_picks_highest_common_minor() {
    let a = ContractRange::new(ContractVersion::new(1, 0), ContractVersion::new(2, 3));
    let b = ContractRange::new(ContractVersion::new(1, 5), ContractVersion::new(1, 9));
    assert_eq!(negotiate(a, b), Some(ContractVersion::new(1, 9)));
}

#[test]
fn negotiate_refuses_disjoint_majors() {
    let a = ContractRange::exact(ContractVersion::new(1, 2));
    let b = ContractRange::exact(ContractVersion::new(2, 0));
    assert_eq!(negotiate(a, b), None);
}

// The wire form of a version is its bare text inside a JSON string.
#[test]
fn version_survives_json_roundtrip() {
    let v = ContractVersion::new(1, 4);
    let json = serde_json::to_string(&v.to_string()).unwrap();
    assert_eq!(json, "\"1.4\"");
    let text: String = serde_json::from_str(&json).unwrap();
    assert_eq!(ContractVersion::parse(&text).unwrap(), v);
}

#[test]
fn parse_reports_missing_separator() {
    assert_eq!(
        ContractVersion::parse("12"),
        Err("invalid contract version: 12".to_string())
    );
    assert_eq!(
        ContractVersion::parse(""),
        Err("invalid contract version: ".to_string())
    );
}

#[test]
fn parse_reports_bad_major() {
    assert_eq!(
        ContractVersion::parse("x.1"),
        Err("invalid major in contract version: x.1".to_string())
    );
    assert_eq!(
        ContractVersion::parse(".1"),
        Err("invalid major in contract version: .1".to_string())
    );
    assert_eq!(
        ContractVersion::parse("-1.0"),
        Err("invalid major in contract version: -1.0".to_string())
    );
    assert_eq!(
        ContractVersion::parse("+.0"),
        Err("invalid major in contract version: +.0".to_string())
    );
    assert_eq!(
        ContractVersion::parse("65536.0"),
        Err("invalid major in contract version: 65536.0".to_string())
    );
    // The major is checked before the minor.
    assert_eq!(
        ContractVersion::parse("a.b"),
        Err("invalid major in contract version: a.b".to_string())
    );
}

#[test]
fn parse_reports_bad_minor() {
    assert_eq!(
        ContractVersion::parse("1.x"),
        Err("invalid minor in contract version: 1.x".to_string())
    );
    assert_eq!(
        ContractVersion::parse("1."),
        Err("invalid minor in contract version: 1.".to_string())
    );
    // Only the first dot separates; the rest belongs to the minor.
    assert_eq!(
        ContractVersion::parse("1.2.3"),
        Err("invalid minor in contract version: 1.2.3".to_string())
    );
    assert_eq!(
        ContractVersion::parse("1.99999"),
        Err("invalid minor in contract version: 1.99999".to_string())
    );
    assert_eq!(
        ContractVersion::parse("1. 2"),
        Err("invalid minor in contract version: 1. 2".to_string())
    );
}

#[test]
fn parse_accepts_what_u16_accepts() {
    assert_eq!(ContractVersion::parse("+1.+2"), Ok(ContractVersion::new(1, 2)));
    assert_eq!(ContractVersion::parse("007.010"), Ok(ContractVersion::new(7, 10)));
    assert_eq!(
        ContractVersion::parse("65535.65535"),
        Ok(ContractVersion::new(65535, 65535))
    );
    assert_eq!(ContractVersion::parse("0.0"), Ok(ContractVersion::new(0, 0)));
    let via_trait: Result<ContractVersion, String> = "3.14".parse();
    assert_eq!(via_trait, Ok(ContractVersion::new(3, 14)));
}

#[test]
fn renders_shortest_decimal() {
    assert_eq!(ContractVersion::new(0, 0).to_string(), "0.0");
    assert_eq!(ContractVersion::new(10, 205).to_string(), "10.205");
    assert_eq!(ContractVersion::new(65535, 9).to_string(), "65535.9");
    assert_eq!("007.010".parse::<ContractVersion>().unwrap().to_string(), "7.10");
}

#[test]
fn render_then_parse_gives_back_the_version() {
    for major in [0u16, 1, 9, 10, 99, 100, 1000, 65535] {
        for minor in [0u16, 5, 42, 65534, 65535] {
            let v = ContractVersion::new(major, minor);
            assert_eq!(ContractVersion::parse(&v.to_string()), Ok(v));
        }
    }
}

#[test]
fn negotiation_is_symmetric_and_common() {
    let a = ContractRange::new(ContractVersion::new(1, 0), ContractVersion::new(1, 4));
    let b = ContractRange::new(ContractVersion::new(1, 2), ContractVersion::new(3, 0));
    assert_eq!(negotiate(a, b), Some(ContractVersion::new(1, 4)));
    assert_eq!(negotiate(b, a), Some(ContractVersion::new(1, 4)));
}

#[test]
fn exact_range_negotiates_to_its_version() {
    let v = ContractVersion::new(1, 3);
    let r = ContractRange::new(ContractVersion::new(1, 0), ContractVersion::new(1, 5));
    assert_eq!(negotiate(ContractRange::exact(v), r), Some(v));
    assert_eq!(negotiate(ContractRange::exact(v), ContractRange::exact(v)), Some(v));
    let outside = ContractVersion::new(1, 6);
    assert_eq!(negotiate(ContractRange::exact(outside), r), None);
}

#[test]
fn distinct_majors_refuse_even_when_wide() {
    let a = ContractRange::new(ContractVersion::new(1, 0), ContractVersion::new(1, 65535));
    let b = ContractRange::new(ContractVersion::new(2, 0), ContractVersion::new(2, 7));
    assert_eq!(negotiate(a, b), None);
    assert_eq!(negotiate(b, a), None);
}

#[test]
fn current_contract_is_one_zero() {
    assert_eq!(trix_connect::contract(), ContractVersion::new(1, 0));
    assert_eq!(trix_connect::contract().to_string(), "1.0");
}

#[test]
fn range_constructors_keep_their_ends() {
    let lo = ContractVersion::new(1, 0);
    let hi = ContractVersion::new(1, 2);
    let r = ContractRange::new(lo, hi);
    assert_eq!(r.min, lo);
    assert_eq!(r.max, hi);
    let e = ContractRange::exact(hi);
    assert_eq!((e.min, e.max), (hi, hi));
}
