use uic_ticket::dosipas::{
    date_from_year_ordinal, DataType, DosipasTicket, Level1Data, Level2Data, Record,
    UicBarcodeHeader, UtcDateTime,
};
use uic_ticket::flex::FlexData;
use uic_ticket::{Error, Ticket};

fn header(format: &str) -> UicBarcodeHeader {
    UicBarcodeHeader {
        format: format.to_string(),
        level1_data: Level1Data {
            security_provider_num: Some(3703),
            security_provider_ia5: None,
            key_id: Some(5),
            data_sequence: vec![],
            level1_key_alg: Some(vec![1, 2, 840, 10045, 3, 1, 7]),
            level2_key_alg: None,
            level1_signing_alg: Some(vec![1, 2, 840, 10045, 4, 3, 2]),
            level2_signing_alg: None,
            level2_public_key: None,
            end_of_validity_year: None,
            end_of_validity_day: None,
            end_of_validity_time: None,
            validity_duration: None,
        },
        level1_data_encoded: vec![1, 2, 3],
        level1_signature: Some(vec![4, 5]),
        level2_data: None,
        level2_signed_data_encoded: vec![6, 7],
        level2_signature: Some(vec![8]),
    }
}

#[test]
fn header_fields_carry_over() {
    let t = DosipasTicket::try_from_v2(header("U2")).unwrap();
    assert_eq!(t.security_provider, "3703");
    assert_eq!(t.key_id, 5);
    assert_eq!(t.level1_signed_data, vec![1, 2, 3]);
    assert_eq!(t.level2_signed_data, vec![6, 7]);
    assert_eq!(t.level1_signature, vec![4, 5]);
    assert_eq!(t.level2_signature, Some(vec![8]));
    assert!(t.has_level2_signature());
    assert_eq!(t.level1_signing_alg, Some(vec![1, 2, 840, 10045, 4, 3, 2]));
    assert!(t.end_of_validity.is_none());
    assert!(t.validity_duration.is_none());
    assert!(t.level2_data.is_none());
}

#[test]
fn missing_parts_get_defaults() {
    let mut h = header("U1");
    h.level1_data.key_id = None;
    h.level1_signature = None;
    h.level2_signature = None;
    let t = DosipasTicket::try_from_v1(h).unwrap();
    assert_eq!(t.key_id, 0);
    assert!(t.level1_signature.is_empty());
    assert!(!t.has_level2_signature());
}

#[test]
fn provider_by_name() {
    let mut h = header("U1");
    h.level1_data.security_provider_num = None;
    h.level1_data.security_provider_ia5 = Some("SNCF".to_string());
    assert_eq!(DosipasTicket::try_from_v1(h).unwrap().security_provider, "SNCF");
}

#[test]
fn provider_is_required() {
    let mut h = header("U1");
    h.level1_data.security_provider_num = None;
    match DosipasTicket::try_from_v1(h) {
        Err(Error::InvalidFormat(m)) => {
            assert_eq!(m, "One of securityProviderNum or securityProviderIA5 must be set")
        }
        _ => panic!("expected a format error"),
    }
}

#[test]
fn format_must_match_version() {
    assert!(matches!(DosipasTicket::try_from_v1(header("U2")), Err(Error::UnknownBarcodeType)));
    assert!(matches!(DosipasTicket::try_from_v2(header("U1")), Err(Error::UnknownBarcodeType)));
}

#[test]
fn end_of_validity_and_duration() {
    let mut h = header("U2");
    h.level1_data.end_of_validity_year = Some(2024);
    h.level1_data.end_of_validity_day = Some(366);
    h.level1_data.end_of_validity_time = Some(1439);
    h.level1_data.validity_duration = Some(300);
    let t = DosipasTicket::try_from_v2(h.clone()).unwrap();
    assert_eq!(
        t.end_of_validity,
        Some(UtcDateTime { year: 2024, ordinal: 366, second_of_day: 86340 })
    );
    assert_eq!(t.validity_duration, Some(300));
    let t1 = DosipasTicket::try_from_v1({
        let mut h1 = h;
        h1.format = "U1".to_string();
        h1
    })
    .unwrap();
    assert!(t1.end_of_validity.is_none());
    assert!(t1.validity_duration.is_none());
}

#[test]
fn end_of_validity_out_of_range() {
    let mut h = header("U2");
    h.level1_data.end_of_validity_year = Some(2023);
    h.level1_data.end_of_validity_day = Some(366);
    h.level1_data.end_of_validity_time = Some(0);
    match DosipasTicket::try_from_v2(h.clone()) {
        Err(Error::InvalidFormat(m)) => assert_eq!(m, "End of Validity out of range"),
        _ => panic!("expected a format error"),
    }
    h.level1_data.end_of_validity_day = Some(1);
    h.level1_data.end_of_validity_time = Some(1440);
    match DosipasTicket::try_from_v2(h) {
        Err(Error::InvalidFormat(m)) => assert_eq!(m, "End of Validity out of range"),
        _ => panic!("expected a format error"),
    }
}

#[test]
fn end_of_validity_partly_set() {
    let mut h = header("U2");
    h.level1_data.end_of_validity_year = Some(2025);
    match DosipasTicket::try_from_v2(h) {
        Err(Error::InvalidFormat(m)) => assert_eq!(m, "End of Validity inconsistently set"),
        _ => panic!("expected a format error"),
    }
}

#[test]
fn leap_years() {
    assert_eq!(date_from_year_ordinal(2000, 366), Some((2000, 366)));
    assert_eq!(date_from_year_ordinal(1900, 366), None);
    assert_eq!(date_from_year_ordinal(2024, 366), Some((2024, 366)));
    assert_eq!(date_from_year_ordinal(2025, 0), None);
    assert_eq!(date_from_year_ordinal(262143, 1), None);
}

#[test]
fn records_by_format() {
    let mut h = header("U2");
    h.level1_data.data_sequence = vec![
        DataType { data_format: "FCB1".to_string(), data: vec![1] },
        DataType { data_format: "FCB2".to_string(), data: vec![2] },
        DataType { data_format: "FCB3".to_string(), data: vec![3] },
        DataType { data_format: "_5101PTIX".to_string(), data: vec![4] },
        DataType { data_format: "XYZ".to_string(), data: vec![5] },
    ];
    h.level2_data = Some(DataType { data_format: "FDC1".to_string(), data: vec![6] });
    let t = DosipasTicket::try_from_v2(h).unwrap();
    assert_eq!(t.records.len(), 5);
    assert!(matches!(&t.records[0], Record::Flex(FlexData::V1_3(d)) if d == &vec![1]));
    assert!(matches!(&t.records[1], Record::Flex(FlexData::V2(d)) if d == &vec![2]));
    assert!(matches!(&t.records[2], Record::Flex(FlexData::V3(d)) if d == &vec![3]));
    assert!(matches!(&t.records[3], Record::PretixTicket(p) if p.data == vec![4]));
    assert!(matches!(&t.records[4], Record::Custom(c) if c.record_id == "XYZ" && c.data == vec![5]));
    assert!(matches!(&t.level2_data, Some(Level2Data::DynamicContentData(d)) if d.data == vec![6]));
}

#[test]
fn other_level2_data_is_custom() {
    let mut h = header("U2");
    h.level2_data = Some(DataType { data_format: "ABC".to_string(), data: vec![6] });
    let t = DosipasTicket::try_from_v2(h).unwrap();
    assert!(matches!(&t.level2_data, Some(Level2Data::Custom(c)) if c.record_id == "ABC"));
}

#[test]
fn level2_key_must_read() {
    let mut h = header("U2");
    h.level1_data.level2_public_key = Some(vec![1, 2, 3]);
    assert!(matches!(DosipasTicket::try_from_v2(h), Err(Error::CryptographyError(_))));
}

#[test]
fn parse_prefers_version_2_header() {
    let t = Ticket::parse(b"\x01\x02", Some(header("U2")), Some(header("U1"))).unwrap();
    assert!(matches!(t, Ticket::UicDosipasTicket(_)));
    let t = Ticket::parse(b"\x01\x02", None, Some(header("U1"))).unwrap();
    assert!(matches!(t, Ticket::UicDosipasTicket(_)));
    assert!(matches!(
        Ticket::parse(b"\x01\x02", Some(header("U1")), Some(header("U1"))),
        Err(Error::UnknownBarcodeType)
    ));
}

#[test]
fn error_messages() {
    assert_eq!(Error::UnknownBarcodeType.message(), "unknown barcode type");
    assert_eq!(Error::InvalidFormat("x".to_string()).message(), "invalid barcode format: x");
    assert_eq!(Error::CryptographyError("y".to_string()).message(), "cryptography error: y");
    assert_eq!(Error::UnsupportedData("z".to_string()).message(), "unsupported data: z");
}
