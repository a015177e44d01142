use p256::ecdsa::signature::Signer;
use p256::ecdsa::{Signature, SigningKey};
use p256::pkcs8::{EncodePublicKey, LineEnding};
use uic_ticket::dosipas::{DataType, DosipasTicket, Level1Data, UicBarcodeHeader};
use uic_ticket::sig::{KeyKind, PublicKey, PublicKeyDB, VerificationError};
use uic_ticket::tlb::TicketSignature;
use uic_ticket::{Error, Ticket};

const GLAUCA_PUBLIC_KEY: &str = "-----BEGIN PUBLIC KEY-----
MIIBvzCCATMGByqGSM44BAEwggEmAoGBANudcKJHbCxGh7Bm9j55Cpp6OcfUpUJQ
YZTcnSb0Zrc72Wq/tgXoJ/OFmsgyxgwWtjhg8J94rrLersfGUJejjahebXhB6kv0
gfyJw1DyD9vtnpJejI9vxg6+BL1vc82yItCNAEFzqXZylZK58NceES+CHng3Dso6
zZLUSTV+Ieq/Ah0AjaMThCPlD00bEhNXp1Maafe0dYhPgJ+DqigAxQKBgBnb6+GK
xgzil/ABMhRy0D19sFu+AlD3+ybLp1zLecpvwljaE0XDNpPRAK0fXu87oqzvD2dI
qgijIwjE9wwr8lv8XL8E4w67nGO2p1pLpV2fUQHDjBadomsAURpRB1GHEMq1LgGm
x+N3Ov27BCHEiII/JvmxvmHt3D7tBt20t7U/A4GFAAKBgQCZfpkvmoiGw30VK6jz
1x01BOXj3TP4RMynMvhemQ9FRO35KnrJ9CQiNGFK4av9Qw6Nw6sQkgCwFPqhv49D
FKOUQzCrZagvkQhbIhjWWxF3CGxZ0AxGY+XsdZbPjfVrIemwm8m4BaZnPMTyq4Q8
HbttD0ltz0MC2+YIDXxHSVvAjQ==
-----END PUBLIC KEY-----";

const GRAND_EST_PUBLIC_KEY: &str = "-----BEGIN PUBLIC KEY-----
MFkwEwYHKoZIzj0CAQYIKoZIzj0DAQcDQgAEe5B0vss2A37sR74bKDPppZwVZJMD
85SvXmhCErP/LiELKL2UzPG9IR4MegX6eDdYhd1Dp7u1DjzEoqIKHMjvpg==
-----END PUBLIC KEY-----";

// The public key of the first test vector of RFC 8032, as a SubjectPublicKeyInfo.
const RFC8032_PUBLIC_KEY: &str = "-----BEGIN PUBLIC KEY-----
MCowBQYDK2VwAyEA11qYAYKxCrfVS/7TyWQHOg7hcvPapiMlrwIaaPcHURo=
-----END PUBLIC KEY-----";

// Its signature of the empty message.
const RFC8032_SIGNATURE: &str = "e5564300c360ac729086e2cc806e828a84877f1eb8e5d974d873e065224901555fb8821590a33bacc61e39701cf9b46bd25bf5f0595bbe24655141438e7a100b";

const PRETIX_TLB: &str = "235554303235313031303030303100000000336eb61a6ab9591402bc6c78fba34bbbff70f079f6adf93ec1798a910000000041a2492135f04f4cbe40af72f39b3c448bca115434b1085f8ac7271e30303436789c333534300c883030343030b61460b23fd55af73f7a9aeba1f0cd0c2c40a0e8d268baf4ecd48d1b00e54f0d4f";

fn hex(s: &str) -> Vec<u8> {
    (0..s.len())
        .step_by(2)
        .map(|i| u8::from_str_radix(&s[i..i + 2], 16).unwrap())
        .collect()
}

#[test]
fn key_kinds_are_recognised() {
    assert!(matches!(PublicKey::from_pem(GLAUCA_PUBLIC_KEY), Ok(PublicKey::DSA(_))));
    assert!(matches!(PublicKey::from_pem(GRAND_EST_PUBLIC_KEY), Ok(PublicKey::P256(_))));
    assert!(matches!(PublicKey::from_pem(RFC8032_PUBLIC_KEY), Ok(PublicKey::Ed25519(_))));
}

#[test]
fn pem_of_another_kind_is_unsupported() {
    let cert = "-----BEGIN CERTIFICATE-----\nAAAA\n-----END CERTIFICATE-----\n";
    match PublicKey::from_pem(cert) {
        Err(Error::UnsupportedData(m)) => assert_eq!(m, "unexpected PEM tag: CERTIFICATE"),
        _ => panic!("expected unsupported data"),
    }
}

#[test]
fn broken_keys_are_cryptography_errors() {
    assert!(matches!(PublicKey::from_pem("not a key"), Err(Error::CryptographyError(_))));
    let junk = "-----BEGIN PUBLIC KEY-----\nAAAA\n-----END PUBLIC KEY-----\n";
    assert!(matches!(PublicKey::from_pem(junk), Err(Error::CryptographyError(_))));
}

#[test]
fn unsupported_curve_and_algorithm() {
    let p384 = hex("3017301006072a8648ce3d020106052b810400220303000400");
    match PublicKey::from_der(&p384) {
        Err(Error::UnsupportedData(m)) => assert_eq!(m, "unsupported EC curve 1.3.132.0.34"),
        _ => panic!("expected unsupported data"),
    }
    let rsa = hex("3013300d06092a864886f70d010101050003020000");
    match PublicKey::from_der(&rsa) {
        Err(Error::UnsupportedData(m)) => {
            assert_eq!(m, "unsupported public key type 1.2.840.113549.1.1.1")
        }
        _ => panic!("expected unsupported data"),
    }
}

#[test]
fn raw_signature_becomes_der() {
    let mut raw = [0u8; 64];
    raw[31] = 0x01;
    raw[32] = 0x80;
    let der = PublicKeyDB::make_tlb_sig(&TicketSignature::RawSignature(raw));
    let mut expected = hex("3026020101022100");
    expected.push(0x80);
    expected.extend(std::iter::repeat(0u8).take(31));
    assert_eq!(der, expected);
}

#[test]
fn asn1_signature_loses_its_padding() {
    let mut s = [0u8; 50];
    s[45..].copy_from_slice(&[0x30, 0x03, 0x02, 0x01, 0x05]);
    let der = PublicKeyDB::make_tlb_sig(&TicketSignature::ASN1Signature(s));
    assert_eq!(der, vec![0x30, 0x03, 0x02, 0x01, 0x05]);
}

#[test]
fn tlb_ticket_needs_known_issuer_and_key() {
    let ticket = Ticket::parse(&hex(PRETIX_TLB), None, None).unwrap();
    let mut db = PublicKeyDB::new();
    assert_eq!(db.verify_ticket(&ticket), Err(VerificationError::UnknownIssuer));
    db.load_key_pem("5101", "2", GLAUCA_PUBLIC_KEY).unwrap();
    assert_eq!(db.verify_ticket(&ticket), Err(VerificationError::UnknownKey));
    db.load_key_pem("5101", "1", GRAND_EST_PUBLIC_KEY).unwrap();
    assert_eq!(db.verify_ticket(&ticket), Err(VerificationError::InvalidSignature));
    db.load_key_pem("5101", "1", GLAUCA_PUBLIC_KEY).unwrap();
    assert_eq!(db.verify_ticket(&ticket), Ok(()));
}

#[test]
fn altered_tlb_ticket_is_refused() {
    let mut data = hex(PRETIX_TLB);
    data[20] ^= 0x01;
    let ticket = Ticket::parse(&data, None, None).unwrap();
    let mut db = PublicKeyDB::new();
    db.load_key_pem("5101", "1", GLAUCA_PUBLIC_KEY).unwrap();
    assert_eq!(db.verify_ticket(&ticket), Err(VerificationError::InvalidSignature));
}

#[test]
fn failed_load_leaves_database_unchanged() {
    let ticket = Ticket::parse(&hex(PRETIX_TLB), None, None).unwrap();
    let mut db = PublicKeyDB::new();
    db.load_key_pem("5101", "1", GLAUCA_PUBLIC_KEY).unwrap();
    assert!(db.load_key_pem("5101", "1", "garbage").is_err());
    assert_eq!(db.verify_ticket(&ticket), Ok(()));
}

fn ed25519_header() -> UicBarcodeHeader {
    UicBarcodeHeader {
        format: "U1".to_string(),
        level1_data: Level1Data {
            security_provider_num: Some(1080),
            security_provider_ia5: None,
            key_id: Some(7),
            data_sequence: vec![],
            level1_key_alg: None,
            level2_key_alg: None,
            level1_signing_alg: Some(vec![1, 3, 101, 112]),
            level2_signing_alg: None,
            level2_public_key: None,
            end_of_validity_year: None,
            end_of_validity_day: None,
            end_of_validity_time: None,
            validity_duration: None,
        },
        level1_data_encoded: vec![],
        level1_signature: Some(hex(RFC8032_SIGNATURE)),
        level2_data: None,
        level2_signed_data_encoded: vec![],
        level2_signature: None,
    }
}

#[test]
fn dosipas_ed25519_signature() {
    let mut db = PublicKeyDB::new();
    db.load_key_pem("1080", "7", RFC8032_PUBLIC_KEY).unwrap();
    let ticket = Ticket::UicDosipasTicket(DosipasTicket::try_from_v1(ed25519_header()).unwrap());
    assert_eq!(db.verify_ticket(&ticket), Ok(()));

    let mut wrong_alg = ed25519_header();
    wrong_alg.level1_data.level1_signing_alg = Some(vec![1, 2, 840, 10045, 4, 3, 2]);
    let ticket = Ticket::UicDosipasTicket(DosipasTicket::try_from_v1(wrong_alg).unwrap());
    assert_eq!(db.verify_ticket(&ticket), Err(VerificationError::InvalidSignature));

    let mut altered = ed25519_header();
    altered.level1_data_encoded = vec![0];
    let ticket = Ticket::UicDosipasTicket(DosipasTicket::try_from_v1(altered).unwrap());
    assert_eq!(db.verify_ticket(&ticket), Err(VerificationError::InvalidSignature));
}

#[test]
fn dosipas_level2_key_without_signature_is_refused() {
    let mut db = PublicKeyDB::new();
    db.load_key_pem("1080", "7", RFC8032_PUBLIC_KEY).unwrap();
    let mut h = ed25519_header();
    h.level1_data.level2_public_key = Some(
        pem::parse(GRAND_EST_PUBLIC_KEY).unwrap().contents().to_vec(),
    );
    let t = DosipasTicket::try_from_v1(h).unwrap();
    assert!(matches!(t.level2_public_key, Some(PublicKey::P256(_))));
    assert!(!t.has_level2_signature());
    let ticket = Ticket::UicDosipasTicket(t);
    assert_eq!(db.verify_ticket(&ticket), Err(VerificationError::InvalidSignature));
}

#[test]
fn dosipas_unknown_key() {
    let mut db = PublicKeyDB::new();
    db.load_key_pem("1080", "8", RFC8032_PUBLIC_KEY).unwrap();
    let ticket = Ticket::UicDosipasTicket(DosipasTicket::try_from_v1(ed25519_header()).unwrap());
    assert_eq!(db.verify_ticket(&ticket), Err(VerificationError::UnknownKey));
}

#[test]
fn data_record_kept() {
    let mut h = ed25519_header();
    h.level1_data.data_sequence = vec![DataType { data_format: "X".to_string(), data: vec![9] }];
    let t = DosipasTicket::try_from_v1(h).unwrap();
    assert_eq!(t.records.len(), 1);
}

#[test]
fn dosipas_p256_levels_1_and_2() {
    let level1_key = SigningKey::from_slice(&[7u8; 32]).unwrap();
    let level2_key = SigningKey::from_slice(&[9u8; 32]).unwrap();
    let level1_pem = level1_key.verifying_key().to_public_key_pem(LineEnding::LF).unwrap();
    let level2_der = level2_key.verifying_key().to_public_key_der().unwrap().as_bytes().to_vec();

    let mut h = ed25519_header();
    h.format = "U2".to_string();
    h.level1_data.level1_signing_alg = Some(vec![1, 2, 840, 10045, 4, 3, 2]);
    h.level1_data.level2_signing_alg = Some(vec![1, 2, 840, 10045, 4, 3, 2]);
    h.level1_data.level2_public_key = Some(level2_der);
    h.level1_data_encoded = b"level one".to_vec();
    h.level2_signed_data_encoded = b"level two".to_vec();
    let s1: Signature = level1_key.sign(b"level one");
    let s2: Signature = level2_key.sign(b"level two");
    h.level1_signature = Some(s1.to_der().as_bytes().to_vec());
    h.level2_signature = Some(s2.to_der().as_bytes().to_vec());

    let mut db = PublicKeyDB::new();
    db.load_key_pem("1080", "7", &level1_pem).unwrap();
    let ticket = Ticket::UicDosipasTicket(DosipasTicket::try_from_v2(h.clone()).unwrap());
    assert_eq!(db.verify_ticket(&ticket), Ok(()));

    let mut bad_level2 = h.clone();
    bad_level2.level2_signed_data_encoded = b"level 2".to_vec();
    let ticket = Ticket::UicDosipasTicket(DosipasTicket::try_from_v2(bad_level2).unwrap());
    assert_eq!(db.verify_ticket(&ticket), Err(VerificationError::InvalidSignature));

    let mut no_level2_key = h;
    no_level2_key.level1_data.level2_public_key = None;
    let ticket = Ticket::UicDosipasTicket(DosipasTicket::try_from_v2(no_level2_key).unwrap());
    assert_eq!(db.verify_ticket(&ticket), Err(VerificationError::InvalidSignature));
}

#[test]
fn all_zero_signature_cannot_be_normalised() {
    assert!(!PublicKeyDB::tlb_signature_is_normalizable(&TicketSignature::ASN1Signature([0; 50])));
    let mut raw = [0u8; 64];
    raw[40] = 1;
    assert!(!PublicKeyDB::tlb_signature_is_normalizable(&TicketSignature::RawSignature(raw)));
    raw[3] = 1;
    assert!(PublicKeyDB::tlb_signature_is_normalizable(&TicketSignature::RawSignature(raw)));
    let ticket = Ticket::parse(&hex(PRETIX_TLB), None, None).unwrap();
    let mut db = PublicKeyDB::new();
    db.load_key_pem("5101", "1", GLAUCA_PUBLIC_KEY).unwrap();
    assert!(db.can_verify(&ticket));
}

#[test]
fn level2_key_of_another_curve_is_kept() {
    let p384 = hex("3017301006072a8648ce3d020106052b810400220303000400");
    let mut db = PublicKeyDB::new();
    db.load_key_pem("1080", "7", RFC8032_PUBLIC_KEY).unwrap();
    let mut h = ed25519_header();
    h.level1_data.level2_public_key = Some(p384.clone());
    h.level2_signature = Some(vec![1, 2, 3]);
    let t = DosipasTicket::try_from_v1(h).unwrap();
    assert!(matches!(&t.level2_public_key, Some(PublicKey::Other(k)) if k == &p384));
    let ticket = Ticket::UicDosipasTicket(t);
    assert_eq!(db.verify_ticket(&ticket), Err(VerificationError::InvalidSignature));
}

#[test]
fn checked_verification() {
    let mut db = PublicKeyDB::new();
    db.load_key_pem("5101", "1", GLAUCA_PUBLIC_KEY).unwrap();
    let ticket = Ticket::parse(&hex(PRETIX_TLB), None, None).unwrap();
    assert_eq!(db.verify_ticket_checked(&ticket), Ok(()));
    let mut t = match ticket {
        Ticket::UicTlbTicket(t) => t,
        _ => unreachable!(),
    };
    t.signature = TicketSignature::RawSignature([0; 64]);
    let ticket = Ticket::UicTlbTicket(t);
    assert!(!db.can_verify(&ticket));
    assert_eq!(db.verify_ticket_checked(&ticket), Err(VerificationError::InvalidSignature));
}

#[test]
fn cryptography_errors_carry_the_library_message() {
    match PublicKey::from_pem("not a key") {
        Err(Error::CryptographyError(m)) => assert!(!m.is_empty()),
        _ => panic!("expected a cryptography error"),
    }
}

#[test]
fn algorithms_and_curves() {
    let dsa = [1u32, 2, 840, 10040, 4, 1];
    let ec = [1u32, 2, 840, 10045, 2, 1];
    let ed = [1u32, 3, 101, 112];
    assert!(matches!(PublicKey::kind_of_algorithm(&dsa), Ok(KeyKind::Dsa)));
    assert!(matches!(PublicKey::kind_of_algorithm(&ec), Ok(KeyKind::Ec)));
    assert!(matches!(PublicKey::kind_of_algorithm(&ed), Ok(KeyKind::Ed25519)));
    match PublicKey::kind_of_algorithm(&[1, 2, 840, 113549, 1, 1, 1]) {
        Err(Error::UnsupportedData(m)) => {
            assert_eq!(m, "unsupported public key type 1.2.840.113549.1.1.1")
        }
        _ => panic!("expected unsupported data"),
    }
    assert!(PublicKey::check_curve(&[1, 2, 840, 10045, 3, 1, 7]).is_ok());
    match PublicKey::check_curve(&[1, 3, 132, 0, 34]) {
        Err(Error::UnsupportedData(m)) => assert_eq!(m, "unsupported EC curve 1.3.132.0.34"),
        _ => panic!("expected unsupported data"),
    }
}

