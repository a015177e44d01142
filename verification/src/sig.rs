//! Issuer keys and the checking of ticket signatures.
//!
//! A key is kept as the DER encoding of its `SubjectPublicKeyInfo`, after its
//! algorithm has been recognised and its key library has accepted it; the
//! key libraries are called on that encoding whenever a signature is checked.

use vstd::prelude::*;

use digest::Digest;
use signature::{DigestVerifier, Verifier};

use vstd::hash_map::StringHashMap;

use crate::dosipas::DosipasTicketView;
use crate::helpers::{
    decimal_text, dotted, dotted_text, leading_count, lossy_text, str_eq, u32_text, text_of,
};
use crate::tlb::{TicketSignature, TicketSignatureValue, TicketView as TlbTicketView};
use crate::{Error, ErrorView, Ticket, TicketView};

verus! {

// ---------------------------------------------------------------------------
// Trusted calls into the PEM, SPKI and key libraries.
// ---------------------------------------------------------------------------

/// What `pem::parse` makes of the PEM document `text`: its label and
/// decoded content, or the text of the error it refuses it with.
pub uninterp spec fn pem_decoded(text: Seq<char>) -> Result<(Seq<char>, Seq<u8>), Seq<char>>;

/// Calls `pem::parse`.  Trusted: the label and content, or the error's
/// message (its `Display` text), are named `pem_decoded` of the text.
#[verifier::external_body]
fn pem_decode(text: &str) -> (res: Result<(String, Vec<u8>), String>)
    ensures
        match res {
            Ok((tag, contents)) => pem_decoded(text@) == Ok::<(Seq<char>, Seq<u8>), Seq<char>>(
                (tag@, contents@),
            ),
            Err(m) => pem_decoded(text@) == Err::<(Seq<char>, Seq<u8>), Seq<char>>(m@),
        },
{
    match pem::parse(text.as_bytes()) {
        Ok(p) => Ok((p.tag().to_string(), p.contents().to_vec())),
        Err(e) => Err(e.to_string()),
    }
}

/// What the `spki` crate makes of the DER `SubjectPublicKeyInfo` `der`: the
/// arcs of its algorithm identifier, or the text of the error it refuses
/// `der` with.
pub uninterp spec fn spki_algorithm_oid(der: Seq<u8>) -> Result<Seq<u32>, Seq<char>>;

/// Calls `spki::SubjectPublicKeyInfoRef::try_from` and takes the algorithm's
/// OID.  Trusted: the arcs, or the error's message, are named
/// `spki_algorithm_oid` of the bytes.
#[verifier::external_body]
fn spki_algorithm(der: &[u8]) -> (res: Result<Vec<u32>, String>)
    ensures
        match res {
            Ok(arcs) => spki_algorithm_oid(der@) == Ok::<Seq<u32>, Seq<char>>(arcs@),
            Err(m) => spki_algorithm_oid(der@) == Err::<Seq<u32>, Seq<char>>(m@),
        },
{
    match spki::SubjectPublicKeyInfoRef::try_from(der) {
        Ok(s) => Ok(s.algorithm.oid.arcs().collect()),
        Err(e) => Err(e.to_string()),
    }
}

/// What `spki` makes of the algorithm parameters of the DER
/// `SubjectPublicKeyInfo` `der` read as an OID
/// (`AlgorithmIdentifier::parameters_oid`): its arcs, or the text of the
/// error it refuses them with.
pub uninterp spec fn spki_parameters_oid(der: Seq<u8>) -> Result<Seq<u32>, Seq<char>>;

/// Calls `spki::SubjectPublicKeyInfoRef::try_from` and then
/// `parameters_oid` on its algorithm.  Trusted: the arcs, or the error's
/// message, are named `spki_parameters_oid` of the bytes.
#[verifier::external_body]
fn spki_parameters(der: &[u8]) -> (res: Result<Vec<u32>, String>)
    ensures
        match res {
            Ok(arcs) => spki_parameters_oid(der@) == Ok::<Seq<u32>, Seq<char>>(arcs@),
            Err(m) => spki_parameters_oid(der@) == Err::<Seq<u32>, Seq<char>>(m@),
        },
{
    match spki::SubjectPublicKeyInfoRef::try_from(der) {
        Ok(s) => match s.algorithm.parameters_oid() {
            Ok(o) => Ok(o.arcs().collect()),
            Err(e) => Err(e.to_string()),
        },
        Err(e) => Err(e.to_string()),
    }
}

/// Whether the `dsa` crate builds a verifying key from the DER
/// `SubjectPublicKeyInfo` `der`: `None` if it does, else the text of the
/// error it refuses it with.
pub uninterp spec fn dsa_key_refusal(der: Seq<u8>) -> Option<Seq<char>>;

/// Calls `dsa::VerifyingKey::try_from` on the decoded `der`.  Trusted: the
/// outcome, success or the error's message, is named `dsa_key_refusal` of
/// the bytes.
#[verifier::external_body]
fn check_dsa_key(der: &[u8]) -> (res: Result<(), String>)
    ensures
        match res {
            Ok(()) => dsa_key_refusal(der@) is None,
            Err(m) => dsa_key_refusal(der@) == Some(m@),
        },
{
    match spki::SubjectPublicKeyInfoRef::try_from(der) {
        Ok(s) => match dsa::VerifyingKey::try_from(s) {
            Ok(_) => Ok(()),
            Err(e) => Err(e.to_string()),
        },
        Err(e) => Err(e.to_string()),
    }
}

/// Whether the `p256` crate builds an ECDSA verifying key from the DER
/// `SubjectPublicKeyInfo` `der`: `None` if it does, else the text of the
/// error it refuses it with.
pub uninterp spec fn p256_key_refusal(der: Seq<u8>) -> Option<Seq<char>>;

/// Calls `p256::ecdsa::VerifyingKey::try_from` on the decoded `der`.
/// Trusted: the outcome, success or the error's message, is named
/// `p256_key_refusal` of the bytes.
#[verifier::external_body]
fn check_p256_key(der: &[u8]) -> (res: Result<(), String>)
    ensures
        match res {
            Ok(()) => p256_key_refusal(der@) is None,
            Err(m) => p256_key_refusal(der@) == Some(m@),
        },
{
    match spki::SubjectPublicKeyInfoRef::try_from(der) {
        Ok(s) => match p256::ecdsa::VerifyingKey::try_from(s) {
            Ok(_) => Ok(()),
            Err(e) => Err(e.to_string()),
        },
        Err(e) => Err(e.to_string()),
    }
}

/// Whether the `ed25519-dalek` crate builds a verifying key from the DER
/// `SubjectPublicKeyInfo` `der`: `None` if it does, else the text of the
/// error it refuses it with.
pub uninterp spec fn ed25519_key_refusal(der: Seq<u8>) -> Option<Seq<char>>;

/// Calls `ed25519_dalek::VerifyingKey::try_from` on the decoded `der`.
/// Trusted: the outcome, success or the error's message, is named
/// `ed25519_key_refusal` of the bytes.
#[verifier::external_body]
fn check_ed25519_key(der: &[u8]) -> (res: Result<(), String>)
    ensures
        match res {
            Ok(()) => ed25519_key_refusal(der@) is None,
            Err(m) => ed25519_key_refusal(der@) == Some(m@),
        },
{
    match spki::SubjectPublicKeyInfoRef::try_from(der) {
        Ok(s) => match ed25519_dalek::VerifyingKey::try_from(s) {
            Ok(_) => Ok(()),
            Err(e) => Err(e.to_string()),
        },
        Err(e) => Err(e.to_string()),
    }
}

// ---------------------------------------------------------------------------
// Keys.
// ---------------------------------------------------------------------------

/// `1.2.840.10040.4.1`, DSA keys.
pub open spec fn oid_dsa() -> Seq<u32> {
    seq![1u32, 2, 840, 10040, 4, 1]
}

/// `1.2.840.10045.2.1`, elliptic curve keys.
pub open spec fn oid_ec() -> Seq<u32> {
    seq![1u32, 2, 840, 10045, 2, 1]
}

/// `1.3.101.112`, Ed25519 keys (and signatures).
pub open spec fn oid_ed25519() -> Seq<u32> {
    seq![1u32, 3, 101, 112]
}

/// `1.2.840.10045.3.1.7`, the curve secp256r1 (P-256).
pub open spec fn oid_secp256r1() -> Seq<u32> {
    seq![1u32, 2, 840, 10045, 3, 1, 7]
}

/// A public key, as the DER encoding of its `SubjectPublicKeyInfo`.
#[derive(Clone, Debug)]
pub enum PublicKey {
    DSA(Vec<u8>),
    P256(Vec<u8>),
    Ed25519(Vec<u8>),
    /// A key of an algorithm or curve that signature checking does not
    /// handle: the level 2 key of a DOSIPAS ticket can be one, but
    /// `from_der` and `from_pem` never give one.
    Other(Vec<u8>),
}

/// The value of a `PublicKey`.
pub enum PublicKeyView {
    DSA(Seq<u8>),
    P256(Seq<u8>),
    Ed25519(Seq<u8>),
    Other(Seq<u8>),
}

impl View for PublicKey {
    type V = PublicKeyView;

    open spec fn view(&self) -> PublicKeyView {
        match self {
            PublicKey::DSA(k) => PublicKeyView::DSA(k@),
            PublicKey::P256(k) => PublicKeyView::P256(k@),
            PublicKey::Ed25519(k) => PublicKeyView::Ed25519(k@),
            PublicKey::Other(k) => PublicKeyView::Other(k@),
        }
    }
}

/// The message for an EC key on a curve other than P-256.
pub open spec fn unsupported_curve_message(curve: Seq<u32>) -> Seq<char> {
    "unsupported EC curve "@ + dotted_text(curve)
}

/// The message for a key of an algorithm that is not handled.
pub open spec fn unsupported_key_message(algorithm: Seq<u32>) -> Seq<char> {
    "unsupported public key type "@ + dotted_text(algorithm)
}

/// The message for a PEM document that does not hold a public key.
pub open spec fn unexpected_tag_message(tag: Seq<char>) -> Seq<char> {
    "unexpected PEM tag: "@ + tag
}

/// The kinds of key that signatures are checked with.
#[derive(Clone, Copy, Debug, PartialEq, Eq, Structural)]
pub enum KeyKind {
    Dsa,
    Ec,
    Ed25519,
}

impl View for KeyKind {
    type V = KeyKind;

    open spec fn view(&self) -> KeyKind {
        *self
    }
}

/// The kind of key that the algorithm `algorithm` of a
/// `SubjectPublicKeyInfo` names, or the error for an algorithm that is not
/// handled.
pub open spec fn key_kind_of(algorithm: Seq<u32>) -> Result<KeyKind, ErrorView> {
    if algorithm == oid_dsa() {
        Ok(KeyKind::Dsa)
    } else if algorithm == oid_ec() {
        Ok(KeyKind::Ec)
    } else if algorithm == oid_ed25519() {
        Ok(KeyKind::Ed25519)
    } else {
        Err(ErrorView::UnsupportedData(unsupported_key_message(algorithm)))
    }
}

/// Whether the EC curve `curve` is handled: only P-256 is.
pub open spec fn curve_check(curve: Seq<u32>) -> Result<(), ErrorView> {
    if curve == oid_secp256r1() {
        Ok(())
    } else {
        Err(ErrorView::UnsupportedData(unsupported_curve_message(curve)))
    }
}

/// The key that the DER `SubjectPublicKeyInfo` `der` holds: DSA, ECDSA on
/// P-256, or Ed25519, as its algorithm (and for EC its curve) says, if that
/// algorithm's library accepts it.  Where a library refuses, the error
/// carries its message.
pub open spec fn key_from_spki(der: Seq<u8>) -> Result<PublicKeyView, ErrorView> {
    match spki_algorithm_oid(der) {
        Err(m) => Err(ErrorView::CryptographyError(m)),
        Ok(algorithm) => match key_kind_of(algorithm) {
            Err(e) => Err(e),
            Ok(KeyKind::Dsa) => match dsa_key_refusal(der) {
                None => Ok(PublicKeyView::DSA(der)),
                Some(m) => Err(ErrorView::CryptographyError(m)),
            },
            Ok(KeyKind::Ec) => match spki_parameters_oid(der) {
                Err(m) => Err(ErrorView::CryptographyError(m)),
                Ok(curve) => match curve_check(curve) {
                    Err(e) => Err(e),
                    Ok(()) => match p256_key_refusal(der) {
                        None => Ok(PublicKeyView::P256(der)),
                        Some(m) => Err(ErrorView::CryptographyError(m)),
                    },
                },
            },
            Ok(KeyKind::Ed25519) => match ed25519_key_refusal(der) {
                None => Ok(PublicKeyView::Ed25519(der)),
                Some(m) => Err(ErrorView::CryptographyError(m)),
            },
        },
    }
}

/// The key that the PEM document `text` holds: it must be labelled
/// `PUBLIC KEY` and hold a `SubjectPublicKeyInfo` that `key_from_spki` takes.
pub open spec fn key_from_pem(text: Seq<char>) -> Result<PublicKeyView, ErrorView> {
    match pem_decoded(text) {
        Err(m) => Err(ErrorView::CryptographyError(m)),
        Ok((tag, contents)) => if tag != "PUBLIC KEY"@ {
            Err(ErrorView::UnsupportedData(unexpected_tag_message(tag)))
        } else {
            key_from_spki(contents)
        },
    }
}

/// Reading a key never gives a key of the kind `Other`.
pub proof fn law_read_keys_are_handled(der: Seq<u8>, text: Seq<char>)
    ensures
        !(key_from_spki(der) matches Ok(PublicKeyView::Other(_))),
        !(key_from_pem(text) matches Ok(PublicKeyView::Other(_))),
{
}

/// Whether two OIDs, as arcs, are equal.
pub fn oid_eq(a: &[u32], b: &[u32]) -> (same: bool)
    ensures
        same == (a@ == b@),
{
    if a.len() != b.len() {
        return false;
    }
    let mut i: usize = 0;
    while i < a.len()
        invariant
            i <= a.len() == b.len(),
            forall|j: int| 0 <= j < i ==> a@[j] == b@[j],
        decreases a.len() - i,
    {
        if a[i] != b[i] {
            return false;
        }
        i += 1;
    }
    assert(a@ =~= b@);
    true
}

fn message(prefix: &str, rest: &str) -> (text: String)
    ensures
        text@ == prefix@ + rest@,
{
    let mut text = String::from_str(prefix);
    text.append(rest);
    text
}

impl PublicKey {
    /// The kind of key that the algorithm `algorithm` names.
    pub fn kind_of_algorithm(algorithm: &[u32]) -> (res: Result<KeyKind, Error>)
        ensures
            crate::result_view(res) == key_kind_of(algorithm@),
    {
        let dsa_oid: [u32; 6] = [1u32, 2, 840, 10040, 4, 1];
        let ec_oid: [u32; 6] = [1u32, 2, 840, 10045, 2, 1];
        let ed25519_oid: [u32; 4] = [1u32, 3, 101, 112];
        assert(dsa_oid@ =~= oid_dsa());
        assert(ec_oid@ =~= oid_ec());
        assert(ed25519_oid@ =~= oid_ed25519());
        if oid_eq(algorithm, dsa_oid.as_slice()) {
            Ok(KeyKind::Dsa)
        } else if oid_eq(algorithm, ec_oid.as_slice()) {
            Ok(KeyKind::Ec)
        } else if oid_eq(algorithm, ed25519_oid.as_slice()) {
            Ok(KeyKind::Ed25519)
        } else {
            let name = dotted(algorithm);
            Err(Error::UnsupportedData(message("unsupported public key type ", name.as_str())))
        }
    }

    /// Checks that the EC curve `curve` is one that signatures are checked
    /// on.
    pub fn check_curve(curve: &[u32]) -> (res: Result<(), Error>)
        ensures
            match res {
                Ok(()) => curve_check(curve@) == Ok::<(), ErrorView>(()),
                Err(e) => curve_check(curve@) == Err::<(), ErrorView>(e@),
            },
    {
        let secp256r1_oid: [u32; 7] = [1u32, 2, 840, 10045, 3, 1, 7];
        assert(secp256r1_oid@ =~= oid_secp256r1());
        if oid_eq(curve, secp256r1_oid.as_slice()) {
            Ok(())
        } else {
            let name = dotted(curve);
            Err(Error::UnsupportedData(message("unsupported EC curve ", name.as_str())))
        }
    }

    /// Reads the key that the DER `SubjectPublicKeyInfo` `der` holds.
    pub fn from_der(der: &[u8]) -> (res: Result<Self, Error>)
        ensures
            crate::result_view(res) == key_from_spki(der@),
    {
        let algorithm = match spki_algorithm(der) {
            Ok(a) => a,
            Err(e) => return Err(Error::CryptographyError(e)),
        };
        match PublicKey::kind_of_algorithm(algorithm.as_slice()) {
            Err(e) => Err(e),
            Ok(KeyKind::Dsa) => match check_dsa_key(der) {
                Ok(()) => Ok(PublicKey::DSA(vstd::slice::slice_to_vec(der))),
                Err(e) => Err(Error::CryptographyError(e)),
            },
            Ok(KeyKind::Ec) => {
                let curve = match spki_parameters(der) {
                    Ok(c) => c,
                    Err(e) => return Err(Error::CryptographyError(e)),
                };
                match PublicKey::check_curve(curve.as_slice()) {
                    Err(e) => Err(e),
                    Ok(()) => match check_p256_key(der) {
                        Ok(()) => Ok(PublicKey::P256(vstd::slice::slice_to_vec(der))),
                        Err(e) => Err(Error::CryptographyError(e)),
                    },
                }
            },
            Ok(KeyKind::Ed25519) => match check_ed25519_key(der) {
                Ok(()) => Ok(PublicKey::Ed25519(vstd::slice::slice_to_vec(der))),
                Err(e) => Err(Error::CryptographyError(e)),
            },
        }
    }

    /// Reads the key that the PEM document `data` holds.
    pub fn from_pem(data: &str) -> (res: Result<Self, Error>)
        ensures
            crate::result_view(res) == key_from_pem(data@),
    {
        let (tag, contents) = match pem_decode(data) {
            Ok(p) => p,
            Err(e) => return Err(Error::CryptographyError(e)),
        };
        if !str_eq(tag.as_str(), "PUBLIC KEY") {
            return Err(Error::UnsupportedData(message("unexpected PEM tag: ", tag.as_str())));
        }
        PublicKey::from_der(contents.as_slice())
    }
}

// ---------------------------------------------------------------------------
// Trusted calls into the signature libraries.
//
// Each takes the key as the DER `SubjectPublicKeyInfo` that `PublicKey`
// keeps, the signed message and the signature as bytes; a key or signature
// that its library does not decode makes the check fail.
// ---------------------------------------------------------------------------

/// Whether the `dsa` crate accepts `signature` (DER) as a DSA signature of
/// the SHA-1 digest of `message` under the key `key`.
pub uninterp spec fn dsa_sha1_verifies(key: Seq<u8>, message: Seq<u8>, signature: Seq<u8>) -> bool;

/// Whether the `dsa` crate accepts `signature` (DER) as a DSA signature of
/// the SHA-224 digest of `message` under the key `key`.
pub uninterp spec fn dsa_sha224_verifies(key: Seq<u8>, message: Seq<u8>, signature: Seq<u8>) -> bool;

/// Whether the `dsa` crate accepts `signature` (DER) as a DSA signature of
/// the SHA-256 digest of `message` under the key `key`.
pub uninterp spec fn dsa_sha256_verifies(key: Seq<u8>, message: Seq<u8>, signature: Seq<u8>) -> bool;

/// Whether the `p256` crate accepts `signature` (DER) as an ECDSA P-256
/// signature of `message` (hashed with SHA-256) under the key `key`.
pub uninterp spec fn p256_verifies(key: Seq<u8>, message: Seq<u8>, signature: Seq<u8>) -> bool;

/// Whether `ed25519-dalek` accepts `signature` (64 bytes) as an Ed25519
/// signature of `message` under the key `key`.
pub uninterp spec fn ed25519_verifies(key: Seq<u8>, message: Seq<u8>, signature: Seq<u8>) -> bool;

/// Decodes the key with `spki` and `dsa::VerifyingKey::try_from`, the
/// signature with `dsa::Signature::try_from`, and calls `verify_digest` with
/// a `sha1::Sha1` of the message.  Trusted: the outcome is named
/// `dsa_sha1_verifies` of the three byte strings.
#[verifier::external_body]
fn verify_dsa_sha1(key: &[u8], message: &[u8], signature: &[u8]) -> (ok: bool)
    ensures
        ok == dsa_sha1_verifies(key@, message@, signature@),
{
    let vk = match spki::SubjectPublicKeyInfoRef::try_from(key) {
        Ok(s) => dsa::VerifyingKey::try_from(s).ok(),
        Err(_) => None,
    };
    match (vk, dsa::Signature::try_from(signature)) {
        (Some(vk), Ok(sig)) => vk.verify_digest(sha1::Sha1::new_with_prefix(message), &sig).is_ok(),
        _ => false,
    }
}

/// As `verify_dsa_sha1`, with a `sha2::Sha224` digest.  Trusted: the
/// outcome is named `dsa_sha224_verifies` of the three byte strings.
#[verifier::external_body]
fn verify_dsa_sha224(key: &[u8], message: &[u8], signature: &[u8]) -> (ok: bool)
    ensures
        ok == dsa_sha224_verifies(key@, message@, signature@),
{
    let vk = match spki::SubjectPublicKeyInfoRef::try_from(key) {
        Ok(s) => dsa::VerifyingKey::try_from(s).ok(),
        Err(_) => None,
    };
    match (vk, dsa::Signature::try_from(signature)) {
        (Some(vk), Ok(sig)) => vk.verify_digest(sha2::Sha224::new_with_prefix(message), &sig).is_ok(),
        _ => false,
    }
}

/// As `verify_dsa_sha1`, with a `sha2::Sha256` digest.  Trusted: the
/// outcome is named `dsa_sha256_verifies` of the three byte strings.
#[verifier::external_body]
fn verify_dsa_sha256(key: &[u8], message: &[u8], signature: &[u8]) -> (ok: bool)
    ensures
        ok == dsa_sha256_verifies(key@, message@, signature@),
{
    let vk = match spki::SubjectPublicKeyInfoRef::try_from(key) {
        Ok(s) => dsa::VerifyingKey::try_from(s).ok(),
        Err(_) => None,
    };
    match (vk, dsa::Signature::try_from(signature)) {
        (Some(vk), Ok(sig)) => vk.verify_digest(sha2::Sha256::new_with_prefix(message), &sig).is_ok(),
        _ => false,
    }
}

/// Decodes the key with `spki` and `p256::ecdsa::VerifyingKey::try_from`,
/// the signature with `p256::ecdsa::Signature::from_der`, and calls
/// `Verifier::verify`.  Trusted: the outcome is named `p256_verifies` of the
/// three byte strings.
#[verifier::external_body]
fn verify_p256(key: &[u8], message: &[u8], signature: &[u8]) -> (ok: bool)
    ensures
        ok == p256_verifies(key@, message@, signature@),
{
    let vk = match spki::SubjectPublicKeyInfoRef::try_from(key) {
        Ok(s) => p256::ecdsa::VerifyingKey::try_from(s).ok(),
        Err(_) => None,
    };
    match (vk, p256::ecdsa::Signature::from_der(signature)) {
        (Some(vk), Ok(sig)) => vk.verify(message, &sig).is_ok(),
        _ => false,
    }
}

/// Decodes the key with `spki` and `ed25519_dalek::VerifyingKey::try_from`,
/// the signature with `ed25519_dalek::Signature::from_slice`, and calls
/// `Verifier::verify`.  Trusted: the outcome is named `ed25519_verifies` of
/// the three byte strings.
#[verifier::external_body]
fn verify_ed25519(key: &[u8], message: &[u8], signature: &[u8]) -> (ok: bool)
    ensures
        ok == ed25519_verifies(key@, message@, signature@),
{
    let vk = match spki::SubjectPublicKeyInfoRef::try_from(key) {
        Ok(s) => ed25519_dalek::VerifyingKey::try_from(s).ok(),
        Err(_) => None,
    };
    match (vk, ed25519_dalek::Signature::from_slice(signature)) {
        (Some(vk), Ok(sig)) => vk.verify(message, &sig).is_ok(),
        _ => false,
    }
}

// ---------------------------------------------------------------------------
// TLB signatures.
// ---------------------------------------------------------------------------

/// The DER encoding of the positive INTEGER whose big-endian magnitude,
/// without leading zero bytes, is `m` (at most 32 bytes).
pub open spec fn der_positive_integer(m: Seq<u8>) -> Seq<u8> {
    let content = if m[0] >= 0x80 {
        seq![0u8] + m
    } else {
        m
    };
    seq![0x02u8, content.len() as u8] + content
}

/// The DER encoding of the signature `SEQUENCE { r INTEGER, s INTEGER }`
/// whose parts have the magnitudes `r` and `s`.
pub open spec fn der_signature(r: Seq<u8>, s: Seq<u8>) -> Seq<u8> {
    let body = der_positive_integer(r) + der_positive_integer(s);
    seq![0x30u8, body.len() as u8] + body
}

/// Whether `m` is the magnitude of a positive integer of at most 32 bytes,
/// without leading zero bytes.
pub open spec fn is_short_magnitude(m: Seq<u8>) -> bool {
    1 <= m.len() <= 32 && m[0] != 0
}

/// Builds `rasn` integers from the magnitudes (through
/// `num_bigint::BigInt::from_bytes_be`) and encodes the pair with
/// `rasn::der::encode` as a SEQUENCE.  Trusted: the bytes are the DER
/// encoding that X.690 prescribes for it, `der_signature(r, s)`.
#[verifier::external_body]
fn encode_der_signature(r: &[u8], s: &[u8]) -> (der: Vec<u8>)
    requires
        is_short_magnitude(r@),
        is_short_magnitude(s@),
    ensures
        der@ == der_signature(r@, s@),
{
    let r = rasn::types::Integer::from(num_bigint::BigInt::from_bytes_be(num_bigint::Sign::Plus, r));
    let s = rasn::types::Integer::from(num_bigint::BigInt::from_bytes_be(num_bigint::Sign::Plus, s));
    rasn::der::encode(&vec![r, s]).unwrap()
}

/// The zero byte, which pads signature parts.
pub open spec fn zero_pad() -> Seq<u8> {
    seq![0u8]
}

/// `s` without its leading zero bytes.
pub open spec fn strip_zeros(s: Seq<u8>) -> Seq<u8> {
    s.skip(leading_count(s, zero_pad()) as int)
}

/// Whether `s` holds a byte other than zero.
pub open spec fn has_nonzero(s: Seq<u8>) -> bool {
    leading_count(s, zero_pad()) < s.len()
}

/// Whether the signature can be brought into DER form: each part that is
/// stripped of zeros (the whole version 1 signature; `r` and `s` of a
/// version 2 signature) holds a byte other than zero.
pub open spec fn tlb_signature_normalizable(signature: TicketSignatureValue) -> bool {
    match signature {
        TicketSignatureValue::ASN1Signature(s) => has_nonzero(s),
        TicketSignatureValue::RawSignature(s) => has_nonzero(s.subrange(0, 32)) && has_nonzero(
            s.subrange(32, 64),
        ),
    }
}

/// The DER signature of a TLB ticket: a version 1 signature without its
/// leading zero padding; a version 2 signature's `r` and `s` (32 bytes
/// each), stripped of leading zeros, encoded as a DER SEQUENCE.
pub open spec fn tlb_signature_der(signature: TicketSignatureValue) -> Seq<u8> {
    match signature {
        TicketSignatureValue::ASN1Signature(s) => strip_zeros(s),
        TicketSignatureValue::RawSignature(s) => der_signature(
            strip_zeros(s.subrange(0, 32)),
            strip_zeros(s.subrange(32, 64)),
        ),
    }
}

proof fn lemma_stripped_magnitude(s: Seq<u8>)
    requires
        s.len() == 32,
        has_nonzero(s),
    ensures
        is_short_magnitude(strip_zeros(s)),
{
    crate::helpers::lemma_leading_count_bound(s, zero_pad());
    assert(strip_zeros(s)[0] == s[leading_count(s, zero_pad()) as int]);
    assert(!zero_pad().contains(s[leading_count(s, zero_pad()) as int]));
    if s[leading_count(s, zero_pad()) as int] == 0 {
        assert(zero_pad()[0] == 0u8);
    }
}

fn strip_zero_bytes(s: &[u8]) -> (stripped: &[u8])
    ensures
        stripped@ == strip_zeros(s@),
{
    let zero: [u8; 1] = [0u8];
    assert(zero@ =~= zero_pad());
    crate::helpers::trim_bytes(s, zero.as_slice())
}

impl PublicKeyDB {
    /// The DER signature that the TLB ticket signature `signature` stands
    /// for.
    pub fn make_tlb_sig(signature: &TicketSignature) -> (der: Vec<u8>)
        requires
            tlb_signature_normalizable(signature@),
        ensures
            der@ == tlb_signature_der(signature@),
    {
        match signature {
            TicketSignature::ASN1Signature(s) => {
                vstd::slice::slice_to_vec(strip_zero_bytes(s.as_slice()))
            },
            TicketSignature::RawSignature(s) => {
                let all = s.as_slice();
                let r = strip_zero_bytes(vstd::slice::slice_subrange(all, 0, 32));
                let s2 = strip_zero_bytes(vstd::slice::slice_subrange(all, 32, 64));
                proof {
                    lemma_stripped_magnitude(s@.subrange(0, 32));
                    lemma_stripped_magnitude(s@.subrange(32, 64));
                }
                encode_der_signature(r, s2)
            },
        }
    }
}

// ---------------------------------------------------------------------------
// The key database.
// ---------------------------------------------------------------------------

/// Why a ticket's signature is not accepted.
#[derive(Debug, Copy, Clone, PartialEq, Eq, Structural)]
pub enum VerificationError {
    UnsupportedTicketType,
    UnknownIssuer,
    UnknownKey,
    InvalidSignature,
}

/// The keys of one issuer, by key identifier.
pub struct IssuerKeys {
    keys: StringHashMap<PublicKey>,
}

impl View for IssuerKeys {
    type V = Map<Seq<char>, PublicKeyView>;

    closed spec fn view(&self) -> Map<Seq<char>, PublicKeyView> {
        self.keys@.map_values(|k: PublicKey| k@)
    }
}

impl IssuerKeys {
    fn new() -> (keys: Self)
        ensures
            keys@ == Map::<Seq<char>, PublicKeyView>::empty(),
    {
        let keys = IssuerKeys { keys: StringHashMap::new() };
        assert(keys@ =~= Map::<Seq<char>, PublicKeyView>::empty());
        keys
    }

    fn insert(&mut self, key_id: String, key: PublicKey)
        ensures
            final(self)@ == old(self)@.insert(key_id@, key@),
    {
        self.keys.insert(key_id, key);
        assert(self@ =~= old(self)@.insert(key_id@, key@));
    }

    fn get(&self, key_id: &str) -> (key: Option<&PublicKey>)
        ensures
            match key {
                Some(k) => self@.contains_key(key_id@) && self@[key_id@] == k@,
                None => !self@.contains_key(key_id@),
            },
    {
        self.keys.get(key_id)
    }
}

/// The public keys of ticket issuers, by issuer and key identifier.
///
/// Each issuer's name maps to the place of its keys in `keys`.
pub struct PublicKeyDB {
    index: StringHashMap<usize>,
    keys: Vec<IssuerKeys>,
}

impl PublicKeyDB {
    /// Every issuer has a place of its own in `keys`.
    #[verifier::type_invariant]
    spec fn places_valid(self) -> bool {
        &&& forall|n: Seq<char>| #[trigger]
            self.index@.contains_key(n) ==> self.index@[n] < self.keys@.len()
        &&& forall|a: Seq<char>, b: Seq<char>|
            #![trigger self.index@[a], self.index@[b]]
            self.index@.contains_key(a) && self.index@.contains_key(b) && self.index@[a]
                == self.index@[b] ==> a == b
    }

    /// The keys of the issuers that `index` places in `keys`.
    closed spec fn map_of(index: Map<Seq<char>, usize>, keys: Seq<IssuerKeys>) -> Map<
        Seq<char>,
        Map<Seq<char>, PublicKeyView>,
    > {
        index.map_values(|i: usize| keys[i as int]@)
    }
}

impl View for PublicKeyDB {
    type V = Map<Seq<char>, Map<Seq<char>, PublicKeyView>>;

    closed spec fn view(&self) -> Map<Seq<char>, Map<Seq<char>, PublicKeyView>> {
        Self::map_of(self.index@, self.keys@)
    }
}

/// The keys that the issuer `issuer` has in `db`, none if it is unknown.
pub open spec fn keys_of(db: Map<Seq<char>, Map<Seq<char>, PublicKeyView>>, issuer: Seq<char>) -> Map<
    Seq<char>,
    PublicKeyView,
> {
    if db.contains_key(issuer) {
        db[issuer]
    } else {
        Map::empty()
    }
}

impl PublicKeyDB {
    /// An empty database.
    pub fn new() -> (db: Self)
        ensures
            db@ == Map::<Seq<char>, Map<Seq<char>, PublicKeyView>>::empty(),
    {
        let db = PublicKeyDB { index: StringHashMap::new(), keys: Vec::new() };
        assert(db@ =~= Map::<Seq<char>, Map<Seq<char>, PublicKeyView>>::empty());
        db
    }

    fn get(&self, issuer: &str) -> (keys: Option<&IssuerKeys>)
        ensures
            match keys {
                Some(k) => self@.contains_key(issuer@) && self@[issuer@] == k@,
                None => !self@.contains_key(issuer@),
            },
    {
        proof {
            use_type_invariant(self);
        }
        match self.index.get(issuer) {
            Some(i) => Some(&self.keys[*i]),
            None => None,
        }
    }

    /// Adds the key in the PEM document `key` as the issuer's key `key_id`,
    /// in place of any key of that identifier before.
    pub fn load_key_pem(&mut self, issuer: &str, key_id: &str, key: &str) -> (res: Result<(), Error>)
        ensures
            match key_from_pem(key@) {
                Ok(k) => res is Ok && final(self)@ == old(self)@.insert(
                    issuer@,
                    keys_of(old(self)@, issuer@).insert(key_id@, k),
                ),
                Err(e) => res == Err::<(), Error>(res->Err_0) && res->Err_0@ == e && final(self)@
                    == old(self)@,
            },
    {
        let pkey = match PublicKey::from_pem(key) {
            Ok(k) => k,
            Err(e) => return Err(e),
        };
        let ghost k = pkey@;
        let mut db = PublicKeyDB::new();
        std::mem::swap(&mut db, self);
        proof {
            use_type_invariant(&db);
        }
        let ghost before = db@;
        let PublicKeyDB { mut index, mut keys } = db;
        let found = match index.get(issuer) {
            Some(i) => Some(*i),
            None => None,
        };
        match found {
            Some(i) => {
                let ghost old_keys = keys@;
                let mut issuer_keys = keys.remove(i);
                issuer_keys.insert(String::from_str(key_id), pkey);
                keys.insert(i, issuer_keys);
                proof {
                    assert forall|n: Seq<char>| #[trigger]
                        index@.contains_key(n) && n != issuer@ implies keys@[index@[n] as int]
                        == old_keys[index@[n] as int] by {
                        assert(index@[n] != i);
                    }
                    assert(Self::map_of(index@, keys@) =~= before.insert(
                        issuer@,
                        keys_of(before, issuer@).insert(key_id@, k),
                    ));
                }
            },
            None => {
                let mut issuer_keys = IssuerKeys::new();
                issuer_keys.insert(String::from_str(key_id), pkey);
                let place = keys.len();
                let ghost old_index = index@;
                let ghost old_keys = keys@;
                keys.push(issuer_keys);
                index.insert(String::from_str(issuer), place);
                proof {
                    assert forall|n: Seq<char>| #[trigger]
                        old_index.contains_key(n) implies keys@[index@[n] as int]
                        == old_keys[old_index[n] as int] && n != issuer@ by {
                        assert(index@[n] == old_index[n]);
                    }
                    assert(Self::map_of(index@, keys@) =~= before.insert(
                        issuer@,
                        keys_of(before, issuer@).insert(key_id@, k),
                    ));
                }
            },
        }
        *self = PublicKeyDB { index, keys };
        Ok(())
    }
}

// ---------------------------------------------------------------------------
// Checking tickets.
// ---------------------------------------------------------------------------

/// `1.2.840.10040.4.3`, DSA with SHA-1.
pub open spec fn oid_dsa_with_sha1() -> Seq<u32> {
    seq![1u32, 2, 840, 10040, 4, 3]
}

/// `2.16.840.1.101.3.4.3.1`, DSA with SHA-224.
pub open spec fn oid_dsa_with_sha224() -> Seq<u32> {
    seq![2u32, 16, 840, 1, 101, 3, 4, 3, 1]
}

/// `2.16.840.1.101.3.4.3.2`, DSA with SHA-256.
pub open spec fn oid_dsa_with_sha256() -> Seq<u32> {
    seq![2u32, 16, 840, 1, 101, 3, 4, 3, 2]
}

/// `1.2.840.10045.4.3.2`, ECDSA with SHA-256.
pub open spec fn oid_ecdsa_with_sha256() -> Seq<u32> {
    seq![1u32, 2, 840, 10045, 4, 3, 2]
}

/// The key `key_id` of the issuer `issuer` in `db`, if there is one.
pub open spec fn key_in(
    db: Map<Seq<char>, Map<Seq<char>, PublicKeyView>>,
    issuer: Seq<char>,
    key_id: Seq<char>,
) -> Option<PublicKeyView> {
    if db.contains_key(issuer) && db[issuer].contains_key(key_id) {
        Some(db[issuer][key_id])
    } else {
        None
    }
}

/// The issuer of a TLB ticket: its security provider code as text.
pub open spec fn tlb_issuer(t: TlbTicketView) -> Seq<char> {
    text_of(t.security_provider_rics)
}

/// The key identifier of a TLB ticket, as text.
pub open spec fn tlb_key_id(t: TlbTicketView) -> Seq<char> {
    text_of(t.security_provider_key_id)
}

/// Whether checking the TLB ticket `t` against `db` comes as far as its
/// signature: its issuer and key are known and the key is a DSA key.
pub open spec fn tlb_reaches_signature(db: Map<Seq<char>, Map<Seq<char>, PublicKeyView>>, t: TlbTicketView) -> bool {
    key_in(db, tlb_issuer(t), tlb_key_id(t)) matches Some(PublicKeyView::DSA(_))
}

/// The outcome of checking the TLB ticket `t` against `db`: its key must be
/// a DSA key that accepts the ticket's signature over its compressed
/// payload, with SHA-1 for version 1 and SHA-256 for version 2.
pub open spec fn tlb_verification(db: Map<Seq<char>, Map<Seq<char>, PublicKeyView>>, t: TlbTicketView) -> Result<
    (),
    VerificationError,
> {
    let issuer = tlb_issuer(t);
    let key_id = tlb_key_id(t);
    if !db.contains_key(issuer) {
        Err(VerificationError::UnknownIssuer)
    } else if !db[issuer].contains_key(key_id) {
        Err(VerificationError::UnknownKey)
    } else {
        match db[issuer][key_id] {
            PublicKeyView::DSA(der) => {
                let signature = tlb_signature_der(t.signature);
                let accepted = if t.version == 1 {
                    dsa_sha1_verifies(der, t.signed_data, signature)
                } else if t.version == 2 {
                    dsa_sha256_verifies(der, t.signed_data, signature)
                } else {
                    false
                };
                if accepted {
                    Ok(())
                } else {
                    Err(VerificationError::InvalidSignature)
                }
            },
            _ => Err(VerificationError::InvalidSignature),
        }
    }
}

/// Whether the level 1 signature of `t` is accepted by `key` with the
/// signing algorithm that `t` names: DSA with SHA-1, SHA-224 or SHA-256 for
/// a DSA key, ECDSA with SHA-256 for a P-256 key, Ed25519 for an Ed25519
/// key.
pub open spec fn level1_accepted(key: PublicKeyView, t: DosipasTicketView) -> bool {
    let alg = t.level1_signing_alg;
    let data = t.level1_signed_data;
    let sig = t.level1_signature;
    match key {
        PublicKeyView::DSA(der) => if alg == Some(oid_dsa_with_sha1()) {
            dsa_sha1_verifies(der, data, sig)
        } else if alg == Some(oid_dsa_with_sha224()) {
            dsa_sha224_verifies(der, data, sig)
        } else if alg == Some(oid_dsa_with_sha256()) {
            dsa_sha256_verifies(der, data, sig)
        } else {
            false
        },
        PublicKeyView::P256(der) => alg == Some(oid_ecdsa_with_sha256()) && p256_verifies(
            der,
            data,
            sig,
        ),
        PublicKeyView::Ed25519(der) => alg == Some(oid_ed25519()) && ed25519_verifies(der, data, sig),
        PublicKeyView::Other(_) => false,
    }
}

/// Whether the level 2 part of `t` is in order: with a level 2 signature,
/// the ticket's own level 2 key must be a P-256 key that accepts it (ECDSA
/// with SHA-256) over the level 2 signed data; without one, the ticket must
/// carry no level 2 key.
pub open spec fn level2_accepted(t: DosipasTicketView) -> bool {
    match t.level2_signature {
        Some(sig) => match t.level2_public_key {
            Some(PublicKeyView::P256(der)) => t.level2_signing_alg == Some(oid_ecdsa_with_sha256())
                && p256_verifies(der, t.level2_signed_data, sig),
            _ => false,
        },
        None => t.level2_public_key is None,
    }
}

/// The outcome of checking the DOSIPAS ticket `t` against `db`: the key is
/// the security provider's key whose identifier is the decimal key id.
pub open spec fn dosipas_verification(
    db: Map<Seq<char>, Map<Seq<char>, PublicKeyView>>,
    t: DosipasTicketView,
) -> Result<(), VerificationError> {
    let issuer = t.security_provider;
    let key_id = decimal_text(t.key_id as nat);
    if !db.contains_key(issuer) {
        Err(VerificationError::UnknownIssuer)
    } else if !db[issuer].contains_key(key_id) {
        Err(VerificationError::UnknownKey)
    } else if level1_accepted(db[issuer][key_id], t) && level2_accepted(t) {
        Ok(())
    } else {
        Err(VerificationError::InvalidSignature)
    }
}

/// The outcome of checking `ticket` against `db`.
pub open spec fn verification_of(db: Map<Seq<char>, Map<Seq<char>, PublicKeyView>>, ticket: TicketView) -> Result<
    (),
    VerificationError,
> {
    match ticket {
        TicketView::UicTlbTicket(t) => tlb_verification(db, t),
        TicketView::UicDosipasTicket(t) => dosipas_verification(db, t),
    }
}

/// Whether checking `ticket` against `db` can be done: a TLB ticket whose
/// check comes as far as its signature must have a signature that
/// `make_tlb_sig` can normalise.
pub open spec fn verification_defined(db: Map<Seq<char>, Map<Seq<char>, PublicKeyView>>, ticket: TicketView) -> bool {
    match ticket {
        TicketView::UicTlbTicket(t) => tlb_reaches_signature(db, t) ==> tlb_signature_normalizable(
            t.signature,
        ),
        TicketView::UicDosipasTicket(_) => true,
    }
}

fn alg_is(alg: &Option<Vec<u32>>, oid: &[u32]) -> (same: bool)
    ensures
        same == (crate::opt_view(*alg) == Some(oid@)),
{
    match alg {
        Some(a) => oid_eq(a.as_slice(), oid),
        None => false,
    }
}

impl PublicKeyDB {
    /// The key `key_id` of the issuer `issuer`, if there is one.
    fn lookup(&self, issuer: &str, key_id: &str) -> (res: Result<&PublicKey, VerificationError>)
        ensures
            match res {
                Ok(k) => key_in(self@, issuer@, key_id@) == Some(k@),
                Err(e) => (e == VerificationError::UnknownIssuer && !self@.contains_key(issuer@))
                    || (e == VerificationError::UnknownKey && self@.contains_key(issuer@)
                    && !self@[issuer@].contains_key(key_id@)),
            },
    {
        match self.get(issuer) {
            Some(keys) => match keys.get(key_id) {
                Some(k) => Ok(k),
                None => Err(VerificationError::UnknownKey),
            },
            None => Err(VerificationError::UnknownIssuer),
        }
    }

    fn verify_tlb(&self, t: &crate::tlb::Ticket) -> (res: Result<(), VerificationError>)
        requires
            tlb_reaches_signature(self@, t@) ==> tlb_signature_normalizable(t@.signature),
        ensures
            res == tlb_verification(self@, t@),
    {
        let issuer = lossy_text(t.security_provider_rics.as_bytes());
        let key_id = lossy_text(t.security_provider_key_id.as_bytes());
        let pk = match self.lookup(issuer.as_str(), key_id.as_str()) {
            Ok(k) => k,
            Err(e) => return Err(e),
        };
        let der = match pk {
            PublicKey::DSA(der) => der,
            _ => return Err(VerificationError::InvalidSignature),
        };
        let sig = PublicKeyDB::make_tlb_sig(&t.signature);
        let accepted = if t.version.0 == 1 {
            verify_dsa_sha1(der.as_slice(), t.signed_data.as_slice(), sig.as_slice())
        } else if t.version.0 == 2 {
            verify_dsa_sha256(der.as_slice(), t.signed_data.as_slice(), sig.as_slice())
        } else {
            false
        };
        if accepted {
            Ok(())
        } else {
            Err(VerificationError::InvalidSignature)
        }
    }

    fn verify_dosipas(&self, t: &crate::dosipas::DosipasTicket) -> (res: Result<(), VerificationError>)
        ensures
            res == dosipas_verification(self@, t@),
    {
        let key_id = u32_text(t.key_id);
        let pk = match self.lookup(t.security_provider.as_str(), key_id.as_str()) {
            Ok(k) => k,
            Err(e) => return Err(e),
        };
        let dsa_sha1: [u32; 6] = [1u32, 2, 840, 10040, 4, 3];
        let dsa_sha224: [u32; 9] = [2u32, 16, 840, 1, 101, 3, 4, 3, 1];
        let dsa_sha256: [u32; 9] = [2u32, 16, 840, 1, 101, 3, 4, 3, 2];
        let ecdsa_sha256: [u32; 7] = [1u32, 2, 840, 10045, 4, 3, 2];
        let ed25519: [u32; 4] = [1u32, 3, 101, 112];
        assert(dsa_sha1@ =~= oid_dsa_with_sha1());
        assert(dsa_sha224@ =~= oid_dsa_with_sha224());
        assert(dsa_sha256@ =~= oid_dsa_with_sha256());
        assert(ecdsa_sha256@ =~= oid_ecdsa_with_sha256());
        assert(ed25519@ =~= oid_ed25519());
        let data = t.level1_signed_data.as_slice();
        let sig = t.level1_signature.as_slice();
        let alg = &t.level1_signing_alg;
        let level1 = match pk {
            PublicKey::DSA(der) => if alg_is(alg, dsa_sha1.as_slice()) {
                verify_dsa_sha1(der.as_slice(), data, sig)
            } else if alg_is(alg, dsa_sha224.as_slice()) {
                verify_dsa_sha224(der.as_slice(), data, sig)
            } else if alg_is(alg, dsa_sha256.as_slice()) {
                verify_dsa_sha256(der.as_slice(), data, sig)
            } else {
                false
            },
            PublicKey::P256(der) => alg_is(alg, ecdsa_sha256.as_slice()) && verify_p256(
                der.as_slice(),
                data,
                sig,
            ),
            PublicKey::Ed25519(der) => alg_is(alg, ed25519.as_slice()) && verify_ed25519(
                der.as_slice(),
                data,
                sig,
            ),
            PublicKey::Other(_) => false,
        };
        if !level1 {
            return Err(VerificationError::InvalidSignature);
        }
        let level2 = match &t.level2_signature {
            Some(l2_sig) => match &t.level2_public_key {
                Some(PublicKey::P256(der)) => alg_is(&t.level2_signing_alg, ecdsa_sha256.as_slice())
                    && verify_p256(der.as_slice(), t.level2_signed_data.as_slice(), l2_sig.as_slice()),
                _ => false,
            },
            None => t.level2_public_key.is_none(),
        };
        if level2 {
            Ok(())
        } else {
            Err(VerificationError::InvalidSignature)
        }
    }

    /// Whether `make_tlb_sig` can normalise `signature`.
    pub fn tlb_signature_is_normalizable(signature: &TicketSignature) -> (ok: bool)
        ensures
            ok == tlb_signature_normalizable(signature@),
    {
        match signature {
            TicketSignature::ASN1Signature(s) => {
                proof {
                    crate::helpers::lemma_leading_count_bound(s@, zero_pad());
                }
                strip_zero_bytes(s.as_slice()).len() > 0
            },
            TicketSignature::RawSignature(s) => {
                proof {
                    crate::helpers::lemma_leading_count_bound(s@.subrange(0, 32), zero_pad());
                    crate::helpers::lemma_leading_count_bound(s@.subrange(32, 64), zero_pad());
                }
                let all = s.as_slice();
                strip_zero_bytes(vstd::slice::slice_subrange(all, 0, 32)).len() > 0
                    && strip_zero_bytes(vstd::slice::slice_subrange(all, 32, 64)).len() > 0
            },
        }
    }

    /// Whether `verify_ticket` can check `ticket`: it cannot where a TLB
    /// ticket's check reaches a signature that cannot be normalised.
    pub fn can_verify(&self, ticket: &Ticket) -> (ok: bool)
        ensures
            ok == verification_defined(self@, ticket@),
    {
        match ticket {
            Ticket::UicTlbTicket(t) => {
                let issuer = lossy_text(t.security_provider_rics.as_bytes());
                let key_id = lossy_text(t.security_provider_key_id.as_bytes());
                match self.lookup(issuer.as_str(), key_id.as_str()) {
                    Ok(PublicKey::DSA(_)) => PublicKeyDB::tlb_signature_is_normalizable(&t.signature),
                    _ => true,
                }
            },
            Ticket::UicDosipasTicket(_) => true,
        }
    }

    /// Checks `ticket` as `verify_ticket` does where it can; a TLB ticket
    /// whose signature cannot be normalised is refused as of an invalid
    /// signature.
    pub fn verify_ticket_checked(&self, ticket: &Ticket) -> (res: Result<(), VerificationError>)
        ensures
            verification_defined(self@, ticket@) ==> res == verification_of(self@, ticket@),
            !verification_defined(self@, ticket@) ==> res == Err::<(), VerificationError>(
                VerificationError::InvalidSignature,
            ),
    {
        if self.can_verify(ticket) {
            self.verify_ticket(ticket)
        } else {
            Err(VerificationError::InvalidSignature)
        }
    }

    /// Checks the signature(s) of `ticket` against the keys of its issuer.
    pub fn verify_ticket(&self, ticket: &Ticket) -> (res: Result<(), VerificationError>)
        requires
            verification_defined(self@, ticket@),
        ensures
            res == verification_of(self@, ticket@),
    {
        match ticket {
            Ticket::UicTlbTicket(t) => self.verify_tlb(t),
            Ticket::UicDosipasTicket(t) => self.verify_dosipas(t),
        }
    }
}

// ---------------------------------------------------------------------------
// Laws.
// ---------------------------------------------------------------------------

/// After a key is loaded as the issuer's key `key_id` (as `load_key_pem`
/// changes the database), looking that key up finds it, and every other
/// key is found as before.
pub proof fn law_loaded_key_is_found(
    db: Map<Seq<char>, Map<Seq<char>, PublicKeyView>>,
    issuer: Seq<char>,
    key_id: Seq<char>,
    key: PublicKeyView,
    other_issuer: Seq<char>,
    other_key_id: Seq<char>,
)
    ensures
        ({
            let after = db.insert(issuer, keys_of(db, issuer).insert(key_id, key));
            &&& key_in(after, issuer, key_id) == Some(key)
            &&& (other_issuer != issuer || other_key_id != key_id) ==> key_in(
                after,
                other_issuer,
                other_key_id,
            ) == key_in(db, other_issuer, other_key_id)
        }),
{
}

/// A ticket whose issuer the database does not know is refused as of an
/// unknown issuer, whatever its signature.
pub proof fn law_unknown_issuer_refused(
    db: Map<Seq<char>, Map<Seq<char>, PublicKeyView>>,
    ticket: TicketView,
)
    ensures
        match ticket {
            TicketView::UicTlbTicket(t) => !db.contains_key(tlb_issuer(t)),
            TicketView::UicDosipasTicket(t) => !db.contains_key(t.security_provider),
        } ==> verification_of(db, ticket) == Err::<(), VerificationError>(
            VerificationError::UnknownIssuer,
        ),
{
}

/// A TLB ticket is accepted only if the issuer's key for it is a DSA key
/// that accepts its signature over its compressed payload, with the digest
/// that its version selects.
pub proof fn law_tlb_accepted_only_when_signature_verifies(
    db: Map<Seq<char>, Map<Seq<char>, PublicKeyView>>,
    t: TlbTicketView,
)
    ensures
        tlb_verification(db, t) is Ok ==> (key_in(db, tlb_issuer(t), tlb_key_id(t)) matches Some(
            PublicKeyView::DSA(der),
        ) && ((t.version == 1 && dsa_sha1_verifies(
            der,
            t.signed_data,
            tlb_signature_der(t.signature),
        )) || (t.version == 2 && dsa_sha256_verifies(
            der,
            t.signed_data,
            tlb_signature_der(t.signature),
        )))),
{
}

/// A DOSIPAS ticket is accepted only if the security provider's key accepts
/// its level 1 signature and its level 2 part is in order; in particular a
/// ticket that carries a level 2 key without a level 2 signature is never
/// accepted.
pub proof fn law_dosipas_accepted_only_when_signatures_verify(
    db: Map<Seq<char>, Map<Seq<char>, PublicKeyView>>,
    t: DosipasTicketView,
)
    ensures
        dosipas_verification(db, t) is Ok ==> (key_in(
            db,
            t.security_provider,
            decimal_text(t.key_id as nat),
        ) matches Some(key) && level1_accepted(key, t) && level2_accepted(t)),
        (t.level2_signature is None && t.level2_public_key is Some) ==> dosipas_verification(
            db,
            t,
        ) is Err,
{
}

/// A TLB ticket whose issuer's key is a DSA key is accepted exactly when
/// that key accepts its signature over its compressed payload: with SHA-1
/// for version 1 and SHA-256 for version 2.  No other version is accepted.
pub proof fn law_tlb_digest_by_version(
    db: Map<Seq<char>, Map<Seq<char>, PublicKeyView>>,
    t: TlbTicketView,
    der: Seq<u8>,
)
    requires
        key_in(db, tlb_issuer(t), tlb_key_id(t)) == Some(PublicKeyView::DSA(der)),
    ensures
        t.version == 1 ==> (tlb_verification(db, t) is Ok <==> dsa_sha1_verifies(
            der,
            t.signed_data,
            tlb_signature_der(t.signature),
        )),
        t.version == 2 ==> (tlb_verification(db, t) is Ok <==> dsa_sha256_verifies(
            der,
            t.signed_data,
            tlb_signature_der(t.signature),
        )),
        t.version != 1 && t.version != 2 ==> tlb_verification(db, t) == Err::<(), VerificationError>(
            VerificationError::InvalidSignature,
        ),
        tlb_verification(db, t) is Err ==> tlb_verification(db, t) == Err::<(), VerificationError>(
            VerificationError::InvalidSignature,
        ),
{
}

/// The level 2 part of a DOSIPAS ticket is in order exactly when it carries
/// neither a level 2 signature nor a level 2 key, or carries a level 2
/// signature that its own P-256 level 2 key accepts, by ECDSA with SHA-256,
/// over the level 2 signed data.
pub proof fn law_dosipas_level2(t: DosipasTicketView)
    ensures
        level2_accepted(t) <==> ((t.level2_signature is None && t.level2_public_key is None) || (
        t.level2_signature matches Some(sig) && t.level2_public_key matches Some(
            PublicKeyView::P256(der),
        ) && t.level2_signing_alg == Some(oid_ecdsa_with_sha256()) && p256_verifies(
            der,
            t.level2_signed_data,
            sig,
        ))),
{
}

/// A DOSIPAS ticket whose security provider has a key under the ticket's
/// key id is accepted exactly when its level 2 part is in order and that
/// key accepts the level 1 signature over the level 1 signed data, by the
/// algorithm the ticket names: DSA with SHA-1 (`1.2.840.10040.4.3`), SHA-224
/// (`2.16.840.1.101.3.4.3.1`) or SHA-256 (`2.16.840.1.101.3.4.3.2`) for a DSA
/// key, ECDSA with SHA-256 for a P-256 key, Ed25519 for an Ed25519 key.  A
/// key with any other algorithm refuses the signature.
pub proof fn law_dosipas_digest_by_algorithm(
    db: Map<Seq<char>, Map<Seq<char>, PublicKeyView>>,
    t: DosipasTicketView,
    key: PublicKeyView,
)
    requires
        key_in(db, t.security_provider, decimal_text(t.key_id as nat)) == Some(key),
    ensures
        ({
            let alg = t.level1_signing_alg;
            let data = t.level1_signed_data;
            let sig = t.level1_signature;
            let ok = dosipas_verification(db, t) is Ok;
            &&& key matches PublicKeyView::DSA(der) ==> {
                &&& alg == Some(oid_dsa_with_sha1()) ==> (ok <==> dsa_sha1_verifies(der, data, sig)
                    && level2_accepted(t))
                &&& alg == Some(oid_dsa_with_sha224()) ==> (ok <==> dsa_sha224_verifies(
                    der,
                    data,
                    sig,
                ) && level2_accepted(t))
                &&& alg == Some(oid_dsa_with_sha256()) ==> (ok <==> dsa_sha256_verifies(
                    der,
                    data,
                    sig,
                ) && level2_accepted(t))
                &&& (alg != Some(oid_dsa_with_sha1()) && alg != Some(oid_dsa_with_sha224()) && alg
                    != Some(oid_dsa_with_sha256())) ==> !ok
            }
            &&& key matches PublicKeyView::P256(der) ==> (ok <==> alg == Some(
                oid_ecdsa_with_sha256(),
            ) && p256_verifies(der, data, sig) && level2_accepted(t))
            &&& key matches PublicKeyView::Ed25519(der) ==> (ok <==> alg == Some(oid_ed25519())
                && ed25519_verifies(der, data, sig) && level2_accepted(t))
            &&& key matches PublicKeyView::Other(_) ==> !ok
            &&& !ok ==> dosipas_verification(db, t) == Err::<(), VerificationError>(
                VerificationError::InvalidSignature,
            )
        }),
{
}

proof fn lemma_zero_run(n: nat, d: Seq<u8>)
    requires
        d.len() > 0 ==> d[0] != 0,
    ensures
        leading_count(Seq::new(n, |i: int| 0u8) + d, zero_pad()) == n,
    decreases n,
{
    let s = Seq::new(n, |i: int| 0u8) + d;
    if n == 0 {
        assert(s =~= d);
        if d.len() > 0 && zero_pad().contains(d[0]) {
            let k = choose|k: int| 0 <= k < zero_pad().len() && zero_pad()[k] == d[0];
            assert(zero_pad()[k] == 0u8);
        }
    } else {
        assert(zero_pad()[0] == s[0]);
        assert(s.drop_first() =~= Seq::new((n - 1) as nat, |i: int| 0u8) + d);
        lemma_zero_run((n - 1) as nat, d);
    }
}

/// A version 1 TLB signature is its DER signature after zero padding: where
/// the padding is followed by a byte other than zero, the DER signature is
/// exactly the bytes after the padding.
pub proof fn law_asn1_signature_unpadded(n: nat, der: Seq<u8>)
    requires
        der.len() > 0,
        der[0] != 0,
    ensures
        tlb_signature_der(TicketSignatureValue::ASN1Signature(Seq::new(n, |i: int| 0u8) + der))
            == der,
{
    lemma_zero_run(n, der);
    assert((Seq::new(n, |i: int| 0u8) + der).skip(n as int) =~= der);
}

/// A version 2 TLB signature is `r` (its first 32 bytes) and then `s` (its
/// last 32 bytes), each written as a DER INTEGER inside a DER SEQUENCE: a
/// part whose first byte is not zero and below 0x80 takes all its 32 bytes,
/// one whose first byte is 0x80 or more takes a zero byte before them.
pub proof fn law_raw_signature_der(sig: Seq<u8>)
    requires
        sig.len() == 64,
        sig[0] != 0,
        sig[32] != 0,
    ensures
        ({
            let r = sig.subrange(0, 32);
            let s = sig.subrange(32, 64);
            let der = tlb_signature_der(TicketSignatureValue::RawSignature(sig));
            &&& (sig[0] < 0x80 && sig[32] < 0x80) ==> der == seq![0x30u8, 0x44, 0x02, 0x20] + r
                + seq![0x02u8, 0x20] + s
            &&& (sig[0] >= 0x80 && sig[32] >= 0x80) ==> der == seq![0x30u8, 0x46, 0x02, 0x21, 0x00]
                + r + seq![0x02u8, 0x21, 0x00] + s
            &&& (sig[0] < 0x80 && sig[32] >= 0x80) ==> der == seq![0x30u8, 0x45, 0x02, 0x20] + r
                + seq![0x02u8, 0x21, 0x00] + s
            &&& (sig[0] >= 0x80 && sig[32] < 0x80) ==> der == seq![0x30u8, 0x45, 0x02, 0x21, 0x00]
                + r + seq![0x02u8, 0x20] + s
        }),
{
    let r = sig.subrange(0, 32);
    let s = sig.subrange(32, 64);
    lemma_zero_run(0, r);
    lemma_zero_run(0, s);
    assert(Seq::new(0, |i: int| 0u8) + r =~= r);
    assert(Seq::new(0, |i: int| 0u8) + s =~= s);
    assert(strip_zeros(r) =~= r);
    assert(strip_zeros(s) =~= s);
    let der = tlb_signature_der(TicketSignatureValue::RawSignature(sig));
    if sig[0] < 0x80 && sig[32] < 0x80 {
        assert(der =~= seq![0x30u8, 0x44, 0x02, 0x20] + r + seq![0x02u8, 0x20] + s);
    }
    if sig[0] >= 0x80 && sig[32] >= 0x80 {
        assert(der =~= seq![0x30u8, 0x46, 0x02, 0x21, 0x00] + r + seq![0x02u8, 0x21, 0x00] + s);
    }
    if sig[0] < 0x80 && sig[32] >= 0x80 {
        assert(der =~= seq![0x30u8, 0x45, 0x02, 0x20] + r + seq![0x02u8, 0x21, 0x00] + s);
    }
    if sig[0] >= 0x80 && sig[32] < 0x80 {
        assert(der =~= seq![0x30u8, 0x45, 0x02, 0x21, 0x00] + r + seq![0x02u8, 0x20] + s);
    }
}

} // verus!
