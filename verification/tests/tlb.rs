use uic_ticket::dosipas::{Level1Data, UicBarcodeHeader};
use uic_ticket::helpers::{
    parse_padded_number, trim_bytes, u16_text, u32_text, FixedLengthStringNumber,
    LengthPrefixedString,
};
use uic_ticket::sig::PublicKeyDB;
use uic_ticket::tlb::{parse_records, Ticket as TlbTicket, TicketSignature};
use uic_ticket::tlb_records::Record;
use uic_ticket::Ticket;
use uic_ticket::helpers::EditionTime;
use uic_ticket::flex::FlexData;
use uic_ticket::Error;

const GLAUCA_PUBLIC_KEY: &str = "-----BEGIN PUBLIC KEY-----
MIIBvzCCATMGByqGSM44BAEwggEmAoGBANudcKJHbCxGh7Bm9j55Cpp6OcfUpUJQ
YZTcnSb0Zrc72Wq/tgXoJ/OFmsgyxgwWtjhg8J94rrLersfGUJejjahebXhB6kv0
gfyJw1DyD9vtnpJejI9vxg6+BL1vc82yItCNAEFzqXZylZK58NceES+CHng3Dso6
zZLUSTV+Ieq/Ah0AjaMThCPlD00bEhNXp1Maafe0dYhPgJ+DqigAxQKBgBnb6+GK
xgzil/ABMhRy0D19sFu+AlD3+ybLp1zLecpvwljaE0XDNpPRAK0fXu87oqzvD2dI
qgijIwjE9wwr8lv8XL8E4w67nGO2p1pLpV2fUQHDjBadomsAURpRB1GHEMq1LgGm
x+N3Ov27BCHEiII/JvmxvmHt3D7tBt20t7U/A4GFAAKBgQCZfpkvmoiGw30VK6jz
1x01BOXj3TP4RMynMvhemQ9FRO35KnrJ9CQiNGFK4av9Qw6Nw6sQkgCwFPqhv49D
FKOUQzCrZagvkQhbIhjWWxF3CGxZ0AxGY+XsdZbPjfVrIemwm8m4BaZnPMTyq4Q8
HbttD0ltz0MC2+YIDXxHSVvAjQ==
-----END PUBLIC KEY-----";

fn hex(s: &str) -> Vec<u8> {
    (0..s.len())
        .step_by(2)
        .map(|i| u8::from_str_radix(&s[i..i + 2], 16).unwrap())
        .collect()
}

const PRETIX_TLB: &str = "235554303235313031303030303100000000336eb61a6ab9591402bc6c78fba34bbbff70f079f6adf93ec1798a910000000041a2492135f04f4cbe40af72f39b3c448bca115434b1085f8ac7271e30303436789c333534300c883030343030b61460b23fd55af73f7a9aeba1f0cd0c2c40a0e8d268baf4ecd48d1b00e54f0d4f";

#[test]
fn test_decode_pretix_tlb() {
    let mut pk_db = PublicKeyDB::new();
    pk_db.load_key_pem("5101", "1", GLAUCA_PUBLIC_KEY).unwrap();

    let data = hex(PRETIX_TLB);
    let ticket = Ticket::parse(&data, None, None).unwrap();

    pk_db.verify_ticket(&ticket).unwrap();

    let ticket = match ticket {
        Ticket::UicTlbTicket(ticket) => ticket,
        _ => unreachable!(),
    };

    assert_eq!(ticket.version.value(), 2);
    assert!(ticket.security_provider_rics.eq_str("5101"));
    assert!(ticket.security_provider_key_id.eq_str("1"));
    assert_eq!(ticket.records.len(), 1);
    match &ticket.records[0] {
        Record::PretixTicket(_) => {}
        _ => unreachable!(),
    };
}

#[test]
fn trim_bytes_strips_only_leading_bytes_of_the_set() {
    assert_eq!(trim_bytes(b"  05 1 ", b" 0"), b"5 1 ");
    assert_eq!(trim_bytes(b"0000", b"0"), b"");
    assert_eq!(trim_bytes(b"abc", b""), b"abc");
}

#[test]
fn padded_numbers() {
    assert_eq!(parse_padded_number(b"0046"), Some(46));
    assert_eq!(parse_padded_number(b"  7 "), Some(7));
    assert_eq!(parse_padded_number(b"+12"), Some(12));
    assert_eq!(parse_padded_number(b"\t9\n"), Some(9));
    assert_eq!(parse_padded_number("\u{3000}5\u{a0}".as_bytes()), Some(5));
    assert_eq!(parse_padded_number(b"    "), None);
    assert_eq!(parse_padded_number(b"+"), None);
    assert_eq!(parse_padded_number(b"-1"), None);
    assert_eq!(parse_padded_number(b"1 2"), None);
    assert_eq!(parse_padded_number(&[0x31, 0xff]), None);
}

#[test]
fn number_field_consumes_its_width() {
    let (n, next) = FixedLengthStringNumber::<4>::read(b"xx0042yy", 2).unwrap();
    assert_eq!(n.value(), 42);
    assert_eq!(next, 6);
    assert!(FixedLengthStringNumber::<4>::read(b"xx004", 2).is_none());
}

#[test]
fn tlb_signature_follows_version() {
    let data = hex(PRETIX_TLB);
    let t = TlbTicket::read(&data).unwrap();
    assert!(matches!(t.signature, TicketSignature::RawSignature(_)));
    assert_eq!(t.payload_length.value(), t.signed_data.len());
}

fn record(id: &str, version: &str, body: &[u8]) -> Vec<u8> {
    let mut r = Vec::new();
    r.extend_from_slice(id.as_bytes());
    r.extend_from_slice(version.as_bytes());
    r.extend_from_slice(format!("{:04}", body.len() + 12).as_bytes());
    r.extend_from_slice(body);
    r
}

fn tlb_ticket(version: &str, signature_len: usize, payload: &[u8]) -> Vec<u8> {
    let compressed = miniz_oxide::deflate::compress_to_vec_zlib(payload, 6);
    let mut t = Vec::new();
    t.extend_from_slice(b"#UT");
    t.extend_from_slice(version.as_bytes());
    t.extend_from_slice(b"0080");
    t.extend_from_slice(b"00007");
    t.extend(std::iter::repeat(0u8).take(signature_len - 1));
    t.push(0x17);
    t.extend_from_slice(format!("{:04}", compressed.len()).as_bytes());
    t.extend_from_slice(&compressed);
    t
}

fn head_body() -> Vec<u8> {
    let mut b = Vec::new();
    b.extend_from_slice(b"0080");
    b.extend_from_slice(b"   ABC123XYZ        ");
    b.extend_from_slice(b"020120251230");
    b.push(0b0000_0101);
    b.extend_from_slice(b"DE");
    b.extend_from_slice(b" E");
    b
}

fn tlay_body() -> Vec<u8> {
    let mut b = Vec::new();
    b.extend_from_slice(b"RCT2");
    b.extend_from_slice(b"0002");
    b.extend_from_slice(b"01020304");
    b.push(0b0000_0011);
    b.extend_from_slice(b"0005Hallo");
    b.extend_from_slice(b"10112003");
    b.push(0b0000_0100);
    b.extend_from_slice(b"0000");
    b
}

fn sample_payload() -> Vec<u8> {
    let mut p = Vec::new();
    p.extend(record("U_HEAD", "01", &head_body()));
    p.extend(record("U_TLAY", "01", &tlay_body()));
    p.extend(record("U_FLEX", "13", &[1, 2, 3]));
    p.extend(record("U_FLEX", "02", &[4, 5]));
    p.extend(record("  ABCD", "07", b"xyz"));
    p
}

#[test]
fn records_of_each_kind() {
    let data = tlb_ticket("01", 50, &sample_payload());
    let t = TlbTicket::read(&data).unwrap();
    assert_eq!(t.version.value(), 1);
    assert!(t.security_provider_rics.eq_str("80"));
    assert!(t.security_provider_key_id.eq_str("7"));
    assert!(matches!(t.signature, TicketSignature::ASN1Signature(_)));
    assert_eq!(t.records.len(), 5);
    match &t.records[0] {
        Record::UHead(h) => {
            assert!(h.distributor_rics.eq_str("80"));
            assert!(h.ticket_id.eq_str("ABC123XYZ        "));
            assert_eq!(
                h.edition_time,
                EditionTime { year: 2025, month: 1, day: 2, hour: 12, minute: 30 }
            );
            assert!(h.flags.international_ticket);
            assert!(!h.flags.edited_by_agent);
            assert!(h.flags.specimen);
            assert!(h.language.eq_str("DE"));
            assert!(h.second_language.eq_str("E"));
        }
        _ => panic!("expected a header"),
    }
    match &t.records[1] {
        Record::UTlay(l) => {
            assert!(l.layout_standard.eq_str("RCT2"));
            assert_eq!(l.fields.len(), 2);
            assert_eq!(l.fields[0].line.value(), 1);
            assert_eq!(l.fields[0].column.value(), 2);
            assert_eq!(l.fields[0].height.value(), 3);
            assert_eq!(l.fields[0].width.value(), 4);
            assert!(l.fields[0].format.bold && l.fields[0].format.italic && !l.fields[0].format.small);
            assert_eq!(l.fields[0].text.as_str(), "Hallo");
            assert!(l.fields[1].format.small);
            assert_eq!(l.fields[1].text.as_str(), "");
        }
        _ => panic!("expected a layout"),
    }
    match &t.records[2] {
        Record::UFlex(FlexData::V1_3(d)) => assert_eq!(d, &vec![1, 2, 3]),
        _ => panic!("expected flexible content"),
    }
    match &t.records[3] {
        Record::Custom(c) => {
            assert_eq!(c.record_id, "U_FLEX");
            assert_eq!(c.record_version, "2");
            assert_eq!(c.data, vec![4, 5]);
        }
        _ => panic!("expected a custom record"),
    }
    match &t.records[4] {
        Record::Custom(c) => {
            assert_eq!(c.record_id, "ABCD");
            assert_eq!(c.record_version, "7");
            assert_eq!(c.data, b"xyz".to_vec());
        }
        _ => panic!("expected a custom record"),
    }
}

#[test]
fn header_that_does_not_read_is_custom() {
    let mut body = head_body();
    body[24..36].copy_from_slice(b"990120251230");
    let data = tlb_ticket("02", 64, &record("U_HEAD", "01", &body));
    let t = TlbTicket::read(&data).unwrap();
    match &t.records[0] {
        Record::Custom(c) => assert_eq!(c.record_id, "U_HEAD"),
        _ => panic!("expected a custom record"),
    }
}

#[test]
fn short_record_length_is_refused() {
    let mut p = b"ABCDEF010011".to_vec();
    p.extend_from_slice(b"0123456789");
    let data = tlb_ticket("02", 64, &p);
    assert!(TlbTicket::read(&data).is_none());
}

#[test]
fn few_trailing_payload_bytes_are_ignored() {
    let mut p = record("ABCDEF", "01", b"1");
    p.extend_from_slice(b"12345678");
    let data = tlb_ticket("02", 64, &p);
    assert_eq!(TlbTicket::read(&data).unwrap().records.len(), 1);
}

#[test]
fn bytes_after_the_payload_are_ignored() {
    let mut data = tlb_ticket("02", 64, &sample_payload());
    let before = TlbTicket::read(&data).unwrap().records.len();
    data.extend_from_slice(b"trailing");
    assert_eq!(TlbTicket::read(&data).unwrap().records.len(), before);
}

#[test]
fn unknown_version_is_refused() {
    let data = tlb_ticket("03", 64, &sample_payload());
    assert!(TlbTicket::read(&data).is_none());
    match Ticket::parse(&data, None, None) {
        Err(Error::InvalidFormat(m)) => assert_eq!(m, "malformed TLB ticket"),
        _ => panic!("expected a format error"),
    }
}

#[test]
fn payload_that_does_not_inflate_is_refused() {
    let mut data = tlb_ticket("02", 64, &sample_payload());
    let n = data.len();
    data[n - 6] ^= 0xff;
    data[n - 1] ^= 0xff;
    assert!(TlbTicket::read(&data).is_none());
}

#[test]
fn not_a_barcode() {
    assert!(matches!(Ticket::parse(b"hello", None, None), Err(Error::UnknownBarcodeType)));
    assert!(matches!(Ticket::parse(b"#U", None, None), Err(Error::UnknownBarcodeType)));
}

#[test]
fn record_identifier_text_replaces_invalid_bytes() {
    let mut p = Vec::new();
    p.extend_from_slice(&[0x41, 0xff, 0x42, 0x43, 0x44, 0x45]);
    p.extend_from_slice(b"010013z");
    let data = tlb_ticket("02", 64, &p);
    let t = TlbTicket::read(&data).unwrap();
    match &t.records[0] {
        Record::Custom(c) => {
            assert_eq!(c.record_id, "A\u{fffd}BCDE");
            assert_eq!(c.data, b"z".to_vec());
        }
        _ => panic!("expected a custom record"),
    }
}

#[test]
fn trimming_twice_trims_no_more() {
    let once = trim_bytes(b"  0  07x", b" 0");
    assert_eq!(once, b"7x");
    assert_eq!(trim_bytes(once, b" 0"), once);
}

#[test]
fn magic_decides_the_kind_of_barcode() {
    let header = UicBarcodeHeader {
        format: "U2".to_string(),
        level1_data: Level1Data {
            security_provider_num: Some(1),
            security_provider_ia5: None,
            key_id: None,
            data_sequence: vec![],
            level1_key_alg: None,
            level2_key_alg: None,
            level1_signing_alg: None,
            level2_signing_alg: None,
            level2_public_key: None,
            end_of_validity_year: None,
            end_of_validity_day: None,
            end_of_validity_time: None,
            validity_duration: None,
        },
        level1_data_encoded: vec![],
        level1_signature: None,
        level2_data: None,
        level2_signed_data_encoded: vec![],
        level2_signature: None,
    };
    let data = tlb_ticket("03", 64, &sample_payload());
    assert!(matches!(
        Ticket::parse(&data, Some(header.clone()), None),
        Err(Error::InvalidFormat(_))
    ));
    let data = tlb_ticket("02", 64, &sample_payload());
    assert!(matches!(Ticket::parse(&data, Some(header), None), Ok(Ticket::UicTlbTicket(_))));
}

#[test]
fn edition_time_of_an_impossible_date() {
    let mut body = head_body();
    body[24..36].copy_from_slice(b"300220251230");
    let data = tlb_ticket("02", 64, &record("U_HEAD", "01", &body));
    let t = TlbTicket::read(&data).unwrap();
    assert!(matches!(&t.records[0], Record::Custom(_)));
    let mut body = head_body();
    body[24..36].copy_from_slice(b"290220242359");
    let data = tlb_ticket("02", 64, &record("U_HEAD", "01", &body));
    let t = TlbTicket::read(&data).unwrap();
    match &t.records[0] {
        Record::UHead(h) => assert_eq!(
            h.edition_time,
            EditionTime { year: 2024, month: 2, day: 29, hour: 23, minute: 59 }
        ),
        _ => panic!("expected a header"),
    }
}

#[test]
fn length_prefixed_strings() {
    let (s, next) = LengthPrefixedString::read(b"0003abcXYZ", 0).unwrap();
    assert_eq!(s.as_str(), "abc");
    assert_eq!(next, 7);
    let (s, next) = LengthPrefixedString::read(b"0001\xff", 0).unwrap();
    assert_eq!(s.as_str(), "\u{FFFD}");
    assert_eq!(next, 5);
    assert!(LengthPrefixedString::read(b"0004abc", 0).is_none());
    assert!(LengthPrefixedString::read(b"00x3abc", 0).is_none());
}

#[test]
fn records_of_a_decompressed_payload() {
    let records = parse_records(&sample_payload()).unwrap();
    assert_eq!(records.len(), 5);
    assert!(matches!(records[0], Record::UHead(_)));
    assert!(matches!(records[4], Record::Custom(_)));
    assert_eq!(parse_records(b"").unwrap().len(), 0);
    assert_eq!(parse_records(b"U_HEAD01").unwrap().len(), 0);
    assert!(parse_records(b"U_HEAD010011").is_none());
}

#[test]
fn valid_utf8_field_text_is_kept() {
    let data = hex(PRETIX_TLB);
    let t = TlbTicket::read(&data).unwrap();
    assert_eq!(t.security_provider_rics.to_text(), "5101");
    assert_eq!(t.security_provider_key_id.to_text(), "1");
}

#[test]
fn decimal_text_of_integers() {
    assert_eq!(u32_text(0), "0");
    assert_eq!(u32_text(7), "7");
    assert_eq!(u32_text(10), "10");
    assert_eq!(u32_text(10045), "10045");
    assert_eq!(u32_text(u32::MAX), "4294967295");
    assert_eq!(u16_text(u16::MAX), "65535");
    assert_eq!(u16_text(190), "190");
}

#[test]
fn keys_of_one_issuer_accumulate() {
    let ticket = Ticket::parse(&hex(PRETIX_TLB), None, None).unwrap();
    let mut db = PublicKeyDB::new();
    db.load_key_pem("5101", "2", GLAUCA_PUBLIC_KEY).unwrap();
    assert!(db.verify_ticket(&ticket).is_err());
    db.load_key_pem("5101", "1", GLAUCA_PUBLIC_KEY).unwrap();
    db.load_key_pem("1080", "1", GLAUCA_PUBLIC_KEY).unwrap();
    assert!(db.verify_ticket(&ticket).is_ok());
    db.load_key_pem("5101", "3", GLAUCA_PUBLIC_KEY).unwrap();
    assert!(db.verify_ticket(&ticket).is_ok());
}
