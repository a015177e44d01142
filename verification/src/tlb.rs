//! The TLB ticket container (UIC leaflet 918-3): the `#UT` magic, the
//! version, the security provider and key, the signature, and a
//! zlib-compressed payload of records.

use vstd::prelude::*;
use vstd::slice::{slice_subrange, slice_to_vec};

use crate::helpers::{field_at, number_field, space_pad, space_zero_pad, text_field};
pub use crate::helpers::{
    trim_bytes, FixedLengthString, FixedLengthStringNumber, FixedLengthStringStripSpace,
    FixedLengthStringStripSpaceZero,
};
use crate::tlb_records::{record_body_at, Record, RecordView};

verus! {

/// What zlib decompression (`miniz_oxide::inflate::decompress_to_vec_zlib`)
/// makes of `compressed`; `None` where the stream is not valid.
pub uninterp spec fn zlib_inflate(compressed: Seq<u8>) -> Option<Seq<u8>>;

/// Calls `miniz_oxide::inflate::decompress_to_vec_zlib`.  Trusted: the
/// result is named `zlib_inflate` of the input; nothing more is claimed of
/// the decompression.
#[verifier::external_body]
fn inflate(compressed: &[u8]) -> (plain: Option<Vec<u8>>)
    ensures
        match plain {
            Some(v) => zlib_inflate(compressed@) == Some(v@),
            None => zlib_inflate(compressed@) is None,
        },
{
    miniz_oxide::inflate::decompress_to_vec_zlib(compressed).ok()
}

/// `#UT`
pub open spec fn magic_ut() -> Seq<u8> {
    seq![0x23u8, 0x55, 0x54]
}

/// The signature of a TLB ticket: 50 bytes (a DER signature after zero
/// padding) for version 1, 64 bytes (`r` and `s`, 32 bytes each) for
/// version 2.
#[derive(Clone, Copy)]
pub enum TicketSignature {
    ASN1Signature([u8; 50]),
    RawSignature([u8; 64]),
}

/// The value of a `TicketSignature`.
pub enum TicketSignatureValue {
    ASN1Signature(Seq<u8>),
    RawSignature(Seq<u8>),
}

impl View for TicketSignature {
    type V = TicketSignatureValue;

    open spec fn view(&self) -> TicketSignatureValue {
        match self {
            TicketSignature::ASN1Signature(s) => TicketSignatureValue::ASN1Signature(s@),
            TicketSignature::RawSignature(s) => TicketSignatureValue::RawSignature(s@),
        }
    }
}

/// The signature at `pos` of a ticket of version `version`, and the
/// position after it.
pub open spec fn signature_at(data: Seq<u8>, pos: int, version: usize) -> Option<
    (TicketSignatureValue, int),
> {
    if version == 1 {
        match field_at(data, pos, 50) {
            Some(s) => Some((TicketSignatureValue::ASN1Signature(s), pos + 50)),
            None => None,
        }
    } else if version == 2 {
        match field_at(data, pos, 64) {
            Some(s) => Some((TicketSignatureValue::RawSignature(s), pos + 64)),
            None => None,
        }
    } else {
        None
    }
}

impl TicketSignature {
    /// Reads the signature of a ticket of version `version` at `pos`; gives
    /// it and the position after it.
    pub fn read(data: &[u8], pos: usize, version: usize) -> (res: Option<(Self, usize)>)
        ensures
            match res {
                Some((s, next)) => signature_at(data@, pos as int, version) == Some(
                    (s@, next as int),
                ),
                None => signature_at(data@, pos as int, version) is None,
            },
    {
        if version == 1 {
            if pos > data.len() || 50 > data.len() - pos {
                return None;
            }
            let mut s = [0u8; 50];
            let mut i: usize = 0;
            while i < 50
                invariant
                    i <= 50,
                    pos + 50 <= data.len(),
                    forall|j: int| 0 <= j < i ==> s@[j] == data@[pos + j],
                decreases 50 - i,
            {
                s[i] = data[pos + i];
                i += 1;
            }
            assert(s@ =~= data@.subrange(pos as int, pos + 50));
            Some((TicketSignature::ASN1Signature(s), pos + 50))
        } else if version == 2 {
            if pos > data.len() || 64 > data.len() - pos {
                return None;
            }
            let mut s = [0u8; 64];
            let mut i: usize = 0;
            while i < 64
                invariant
                    i <= 64,
                    pos + 64 <= data.len(),
                    forall|j: int| 0 <= j < i ==> s@[j] == data@[pos + j],
                decreases 64 - i,
            {
                s[i] = data[pos + i];
                i += 1;
            }
            assert(s@ =~= data@.subrange(pos as int, pos + 64));
            Some((TicketSignature::RawSignature(s), pos + 64))
        } else {
            None
        }
    }
}

/// The record at `pos` of a decompressed payload, and the position after
/// it: a 6-byte identifier (leading spaces stripped), a 2-byte version
/// (leading spaces and zeros stripped), a 4-digit length of at least 12 that
/// counts these 12 bytes, then the record's content.
pub open spec fn ticket_record_at(data: Seq<u8>, pos: int) -> Option<(RecordView, int)> {
    match (
        text_field(data, pos, 6, space_pad()),
        text_field(data, pos + 6, 2, space_zero_pad()),
        number_field(data, pos + 8, 4),
    ) {
        (Some(id), Some(version), Some(length)) => if length >= 12 {
            record_body_at(data, pos + 12, id, version, length as int)
        } else {
            None
        },
        _ => None,
    }
}

/// A record takes at least the 12 bytes of its identifier, version and
/// length.
pub proof fn lemma_ticket_record_advances(data: Seq<u8>, pos: int)
    ensures
        ticket_record_at(data, pos) matches Some((_, next)) ==> next >= pos + 12,
{
    if let (Some(id), Some(version), Some(length)) = (
        text_field(data, pos, 6, space_pad()),
        text_field(data, pos + 6, 2, space_zero_pad()),
        number_field(data, pos + 8, 4),
    ) {
        if length >= 12 {
            crate::tlb_records::lemma_record_body_advances(data, pos + 12, id, version, length as int);
        }
    }
}

/// The records of a decompressed payload from `pos` on: one more record is
/// read as long as more than 8 bytes are left.
pub open spec fn records_from(data: Seq<u8>, pos: int) -> Option<Seq<RecordView>>
    decreases data.len() - pos,
{
    if 0 <= pos && pos + 8 < data.len() {
        match ticket_record_at(data, pos) {
            Some((r, next)) => {
                proof {
                    lemma_ticket_record_advances(data, pos);
                }
                match records_from(data, next) {
                    Some(rest) => Some(seq![r] + rest),
                    None => None,
                }
            },
            None => None,
        }
    } else {
        Some(Seq::empty())
    }
}

/// `done` followed by the records of `rest`, if `rest` read.
pub open spec fn followed_by(done: Seq<RecordView>, rest: Option<Seq<RecordView>>) -> Option<
    Seq<RecordView>,
> {
    match rest {
        Some(r) => Some(done + r),
        None => None,
    }
}

fn read_ticket_record(data: &[u8], pos: usize) -> (res: Option<(Record, usize)>)
    ensures
        match res {
            Some((r, next)) => ticket_record_at(data@, pos as int) == Some((r@, next as int)),
            None => ticket_record_at(data@, pos as int) is None,
        },
{
    let (record_id, p) = match FixedLengthStringStripSpace::<6>::read(data, pos) {
        Some(r) => r,
        None => return None,
    };
    let (record_version, p) = match FixedLengthStringStripSpaceZero::<2>::read(data, p) {
        Some(r) => r,
        None => return None,
    };
    let (record_length, p) = match FixedLengthStringNumber::<4>::read(data, p) {
        Some(r) => r,
        None => return None,
    };
    if record_length.0 < 12 {
        return None;
    }
    Record::read(data, p, &record_id, &record_version, record_length.0)
}

/// Reads the records of a decompressed payload.
pub fn parse_records(plain: &[u8]) -> (res: Option<Vec<Record>>)
    ensures
        match res {
            Some(records) => records_from(plain@, 0) == Some(records@.map_values(|r: Record| r@)),
            None => records_from(plain@, 0) is None,
        },
{
    let total = plain.len();
    let mut records: Vec<Record> = Vec::new();
    let mut pos: usize = 0;
    assert(records@.map_values(|r: Record| r@) + records_from(plain@, 0).unwrap_or(Seq::empty())
        =~= records_from(plain@, 0).unwrap_or(Seq::empty()));
    while pos < total && total - pos > 8
        invariant
            pos <= total == plain@.len(),
            records_from(plain@, 0) == followed_by(
                records@.map_values(|r: Record| r@),
                records_from(plain@, pos as int),
            ),
        decreases total - pos,
    {
        match read_ticket_record(plain, pos) {
            Some((r, next)) => {
                proof {
                    lemma_ticket_record_advances(plain@, pos as int);
                }
                let ghost before = records@.map_values(|r: Record| r@);
                records.push(r);
                proof {
                    let rest = records_from(plain@, next as int);
                    assert(records@.map_values(|r: Record| r@) =~= before.push(r@));
                    if rest is Some {
                        assert(before + (seq![r@] + rest.unwrap()) =~= before.push(r@)
                            + rest.unwrap());
                    }
                }
                pos = next;
            },
            None => {
                return None;
            },
        }
    }
    assert(records@.map_values(|r: Record| r@) + Seq::<RecordView>::empty() =~= records@.map_values(
        |r: Record| r@,
    ));
    Some(records)
}

/// Reads the records of the zlib-compressed payload `payload`.
pub fn parse_payload_tlv(payload: &[u8]) -> (res: Option<Vec<Record>>)
    ensures
        match res {
            Some(records) => match zlib_inflate(payload@) {
                Some(plain) => records_from(plain, 0) == Some(
                    records@.map_values(|r: Record| r@),
                ),
                None => false,
            },
            None => match zlib_inflate(payload@) {
                Some(plain) => records_from(plain, 0) is None,
                None => true,
            },
        },
{
    match inflate(payload) {
        Some(plain) => parse_records(plain.as_slice()),
        None => None,
    }
}

/// A TLB ticket.
#[derive(Clone)]
pub struct Ticket {
    pub version: FixedLengthStringNumber<2>,
    pub security_provider_rics: FixedLengthStringStripSpaceZero<4>,
    pub security_provider_key_id: FixedLengthStringStripSpaceZero<5>,
    pub signature: TicketSignature,
    pub payload_length: FixedLengthStringNumber<4>,
    /// The compressed payload, as it stands in the ticket: the data that
    /// the signature covers.
    pub signed_data: Vec<u8>,
    pub records: Vec<Record>,
}

/// The value of a `Ticket`.
pub struct TicketView {
    pub version: usize,
    pub security_provider_rics: Seq<u8>,
    pub security_provider_key_id: Seq<u8>,
    pub signature: TicketSignatureValue,
    pub payload_length: usize,
    pub signed_data: Seq<u8>,
    pub records: Seq<RecordView>,
}

impl View for Ticket {
    type V = TicketView;

    open spec fn view(&self) -> TicketView {
        TicketView {
            version: self.version.0,
            security_provider_rics: self.security_provider_rics@,
            security_provider_key_id: self.security_provider_key_id@,
            signature: self.signature@,
            payload_length: self.payload_length.0,
            signed_data: self.signed_data@,
            records: self.records@.map_values(|r: Record| r@),
        }
    }
}

/// The TLB ticket that `data` holds: `#UT`, a 2-digit version, the
/// 4-byte security provider code and 5-byte key identifier (leading spaces
/// and zeros stripped), the signature (as the version selects), a 4-digit
/// payload length, and that many bytes of zlib-compressed records.  Bytes
/// after the payload are not read.
pub open spec fn ticket_at(data: Seq<u8>) -> Option<TicketView> {
    if field_at(data, 0, 3) != Some(magic_ut()) {
        None
    } else {
        match (
            number_field(data, 3, 2),
            text_field(data, 5, 4, space_zero_pad()),
            text_field(data, 9, 5, space_zero_pad()),
        ) {
            (Some(version), Some(rics), Some(key_id)) => match signature_at(data, 14, version) {
                Some((signature, p)) => match number_field(data, p, 4) {
                    Some(length) => match field_at(data, p + 4, length as int) {
                        Some(payload) => match zlib_inflate(payload) {
                            Some(plain) => match records_from(plain, 0) {
                                Some(records) => Some(
                                    TicketView {
                                        version,
                                        security_provider_rics: rics,
                                        security_provider_key_id: key_id,
                                        signature,
                                        payload_length: length,
                                        signed_data: payload,
                                        records,
                                    },
                                ),
                                None => None,
                            },
                            None => None,
                        },
                        None => None,
                    },
                    None => None,
                },
                None => None,
            },
            _ => None,
        }
    }
}

impl Ticket {
    /// Reads the TLB ticket that `data` starts with.
    pub fn read(data: &[u8]) -> (res: Option<Self>)
        ensures
            match res {
                Some(t) => ticket_at(data@) == Some(t@),
                None => ticket_at(data@) is None,
            },
    {
        let magic: [u8; 3] = [0x23u8, 0x55, 0x54];
        assert(magic@ =~= magic_ut());
        if data.len() < 3 || !crate::helpers::bytes_eq(slice_subrange(data, 0, 3), magic.as_slice()) {
            return None;
        }
        let (version, p) = match FixedLengthStringNumber::<2>::read(data, 3) {
            Some(r) => r,
            None => return None,
        };
        let (security_provider_rics, p) = match FixedLengthStringStripSpaceZero::<4>::read(data, p) {
            Some(r) => r,
            None => return None,
        };
        let (security_provider_key_id, p) = match FixedLengthStringStripSpaceZero::<5>::read(
            data,
            p,
        ) {
            Some(r) => r,
            None => return None,
        };
        let (signature, p) = match TicketSignature::read(data, p, version.0) {
            Some(r) => r,
            None => return None,
        };
        let (payload_length, p) = match FixedLengthStringNumber::<4>::read(data, p) {
            Some(r) => r,
            None => return None,
        };
        if p > data.len() || payload_length.0 > data.len() - p {
            return None;
        }
        let signed_data = slice_to_vec(slice_subrange(data, p, p + payload_length.0));
        let records = match parse_payload_tlv(signed_data.as_slice()) {
            Some(r) => r,
            None => return None,
        };
        Some(
            Ticket {
                version,
                security_provider_rics,
                security_provider_key_id,
                signature,
                payload_length,
                signed_data,
                records,
            },
        )
    }
}

/// A TLB ticket is of version 1 with a 50-byte signature or of version 2
/// with a 64-byte signature; no other version reads.
pub proof fn law_signature_follows_version(data: Seq<u8>)
    ensures
        ticket_at(data) matches Some(t) ==> match t.signature {
            TicketSignatureValue::ASN1Signature(s) => t.version == 1 && s.len() == 50,
            TicketSignatureValue::RawSignature(s) => t.version == 2 && s.len() == 64,
        },
{
}

/// The signed data of a TLB ticket is the payload that its length field
/// announces.
pub proof fn law_payload_has_announced_length(data: Seq<u8>)
    ensures
        ticket_at(data) matches Some(t) ==> t.signed_data.len() == t.payload_length,
{
}

proof fn lemma_field_extends(data: Seq<u8>, extra: Seq<u8>, pos: int, n: int)
    requires
        field_at(data, pos, n) is Some,
    ensures
        field_at(data + extra, pos, n) == field_at(data, pos, n),
{
    assert((data + extra).subrange(pos, pos + n) =~= data.subrange(pos, pos + n));
}

/// Bytes after a TLB ticket's payload do not change what the ticket reads
/// as.
pub proof fn law_trailing_bytes_ignored(data: Seq<u8>, extra: Seq<u8>)
    requires
        ticket_at(data) is Some,
    ensures
        ticket_at(data + extra) == ticket_at(data),
{
    let more = data + extra;
    lemma_field_extends(data, extra, 0, 3);
    lemma_field_extends(data, extra, 3, 2);
    lemma_field_extends(data, extra, 5, 4);
    lemma_field_extends(data, extra, 9, 5);
    let version = number_field(data, 3, 2).unwrap();
    if version == 1 {
        lemma_field_extends(data, extra, 14, 50);
    } else {
        lemma_field_extends(data, extra, 14, 64);
    }
    let p = signature_at(data, 14, version).unwrap().1;
    lemma_field_extends(data, extra, p, 4);
    let length = number_field(data, p, 4).unwrap();
    lemma_field_extends(data, extra, p + 4, length as int);
}

} // verus!
