//! Flexible content (FCB) records.  Their content is an ASN.1 UPER encoding
//! of the UIC rail ticket data, kept here as the encoded bytes together with
//! the layout version that the record names.

use vstd::prelude::*;

verus! {

/// The UPER-encoded rail ticket data of a flexible content record, by the
/// version of the layout it follows.
#[derive(Clone, Debug)]
pub enum FlexData {
    V1_3(Vec<u8>),
    V2(Vec<u8>),
    V3(Vec<u8>),
}

/// The value of a `FlexData`.
pub enum FlexDataView {
    V1_3(Seq<u8>),
    V2(Seq<u8>),
    V3(Seq<u8>),
}

impl View for FlexData {
    type V = FlexDataView;

    open spec fn view(&self) -> FlexDataView {
        match self {
            FlexData::V1_3(d) => FlexDataView::V1_3(d@),
            FlexData::V2(d) => FlexDataView::V2(d@),
            FlexData::V3(d) => FlexDataView::V3(d@),
        }
    }
}

/// The layout versions of flexible content, as the TLB record version field
/// names them after its leading spaces and zeros are gone.
pub enum FlexVersion {
    V1_3,
    V2,
    V3,
}

/// The layout version that a TLB record's version field selects for its
/// flexible content.  Only the texts `13`, `02` and `03` select one; the
/// field reaches this point without its leading zeros, so of the versions
/// that the record dispatch admits only `13` does.
pub open spec fn flex_version_of(version: Seq<u8>) -> Option<FlexVersion> {
    if version == seq![0x31u8, 0x33u8] {
        Some(FlexVersion::V1_3)
    } else if version == seq![0x30u8, 0x32u8] {
        Some(FlexVersion::V2)
    } else if version == seq![0x30u8, 0x33u8] {
        Some(FlexVersion::V3)
    } else {
        None
    }
}

/// The flexible content of a TLB record: the version field selects the
/// layout, and the `record_length` bytes at `pos` are its encoding.
pub open spec fn flex_record_body(data: Seq<u8>, pos: int, version: Seq<u8>, record_length: int) -> Option<
    (FlexDataView, int),
> {
    match flex_version_of(version) {
        Some(v) => if 0 <= pos && 0 <= record_length && pos + record_length <= data.len() {
            let body = data.subrange(pos, pos + record_length);
            Some(
                (
                    match v {
                        FlexVersion::V1_3 => FlexDataView::V1_3(body),
                        FlexVersion::V2 => FlexDataView::V2(body),
                        FlexVersion::V3 => FlexDataView::V3(body),
                    },
                    pos + record_length,
                ),
            )
        } else {
            None
        },
        None => None,
    }
}

/// Reads the flexible content of a TLB record whose version field holds
/// `version` and whose content is `record_length` bytes long.
pub fn parse_flex_tlv(data: &[u8], pos: usize, version: &[u8], record_length: usize) -> (res:
    Option<(FlexData, usize)>)
    ensures
        match res {
            Some((f, next)) => flex_record_body(data@, pos as int, version@, record_length as int)
                == Some((f@, next as int)),
            None => flex_record_body(data@, pos as int, version@, record_length as int) is None,
        },
{
    let v13: [u8; 2] = [0x31u8, 0x33u8];
    let v02: [u8; 2] = [0x30u8, 0x32u8];
    let v03: [u8; 2] = [0x30u8, 0x33u8];
    assert(v13@ =~= seq![0x31u8, 0x33u8]);
    assert(v02@ =~= seq![0x30u8, 0x32u8]);
    assert(v03@ =~= seq![0x30u8, 0x33u8]);
    let which: u8 = if crate::helpers::bytes_eq(version, v13.as_slice()) {
        0
    } else if crate::helpers::bytes_eq(version, v02.as_slice()) {
        1
    } else if crate::helpers::bytes_eq(version, v03.as_slice()) {
        2
    } else {
        return None;
    };
    if pos > data.len() || record_length > data.len() - pos {
        return None;
    }
    let body = vstd::slice::slice_to_vec(vstd::slice::slice_subrange(data, pos, pos + record_length));
    let flex = if which == 0 {
        FlexData::V1_3(body)
    } else if which == 1 {
        FlexData::V2(body)
    } else {
        FlexData::V3(body)
    };
    Some((flex, pos + record_length))
}

} // verus!
